//! Color themes: the data model, the two standard themes, and the manager.
//! Reading theme files or downloading themes is the surrounding
//! application's work; it hands finished values to the manager.

use vstd::prelude::*;

use crate::error::WarpError;
use crate::kvlist::{find_key, has_key, KvList};

verus! {

/// The eight ANSI palette entries, as hex color strings.
#[derive(Clone, Debug, PartialEq)]
pub struct AnsiColors {
    pub black: String,
    pub red: String,
    pub green: String,
    pub yellow: String,
    pub blue: String,
    pub magenta: String,
    pub cyan: String,
    pub white: String,
}

/// A theme's colors.
#[derive(Clone, Debug, PartialEq)]
pub struct ThemeColors {
    pub background: String,
    pub foreground: String,
    pub cursor: String,
    pub selection_background: String,
    pub selection_foreground: String,
    pub ansi: AnsiColors,
    pub bright: AnsiColors,
}

/// Colors of the surrounding chrome.
#[derive(Clone, Debug, PartialEq)]
pub struct ThemeUI {
    pub accent: String,
    pub border: String,
    pub tab_active: String,
    pub tab_inactive: String,
    pub status_bar: String,
    pub menu_background: String,
    pub menu_foreground: String,
}

/// Terminal-cell rendering choices.
#[derive(Clone, Debug, PartialEq)]
pub struct ThemeTerminal {
    pub bright_bold: bool,
    pub cursor_style: String,
    pub cursor_blink: bool,
}

/// A complete named theme.
#[derive(Clone, Debug, PartialEq)]
pub struct WarpTheme {
    pub name: String,
    pub author: Option<String>,
    pub version: String,
    pub description: Option<String>,
    pub colors: ThemeColors,
    pub ui: ThemeUI,
    pub terminal: ThemeTerminal,
}

/// A palette reads as the eight given colors.
pub open spec fn palette_is(
    p: AnsiColors,
    black: Seq<char>,
    red: Seq<char>,
    green: Seq<char>,
    yellow: Seq<char>,
    blue: Seq<char>,
    magenta: Seq<char>,
    cyan: Seq<char>,
    white: Seq<char>,
) -> bool {
    &&& p.black@ == black
    &&& p.red@ == red
    &&& p.green@ == green
    &&& p.yellow@ == yellow
    &&& p.blue@ == blue
    &&& p.magenta@ == magenta
    &&& p.cyan@ == cyan
    &&& p.white@ == white
}

fn ansi(
    black: &str,
    red: &str,
    green: &str,
    yellow: &str,
    blue: &str,
    magenta: &str,
    cyan: &str,
    white: &str,
) -> (r: AnsiColors)
    ensures
        r.black@ == black@,
        r.red@ == red@,
        r.green@ == green@,
        r.yellow@ == yellow@,
        r.blue@ == blue@,
        r.magenta@ == magenta@,
        r.cyan@ == cyan@,
        r.white@ == white@,
{
    AnsiColors {
        black: black.to_owned(),
        red: red.to_owned(),
        green: green.to_owned(),
        yellow: yellow.to_owned(),
        blue: blue.to_owned(),
        magenta: magenta.to_owned(),
        cyan: cyan.to_owned(),
        white: white.to_owned(),
    }
}

/// The standard dark theme.
pub fn dark_theme() -> (r: WarpTheme)
    ensures
        r.name@ == "Standard Dark"@,
        r.author matches Some(a) && a@ == "Warp Team"@,
        r.version@ == "1.0.0"@,
        r.description matches Some(d) && d@ == "The default dark theme for Warp"@,
        r.colors.background@ == "#1e1e2e"@,
        r.colors.foreground@ == "#cdd6f4"@,
        r.colors.cursor@ == "#f5e0dc"@,
        r.colors.selection_background@ == "#585b70"@,
        r.colors.selection_foreground@ == "#cdd6f4"@,
        palette_is(
            r.colors.ansi,
            "#45475a"@,
            "#f38ba8"@,
            "#a6e3a1"@,
            "#f9e2af"@,
            "#89b4fa"@,
            "#f5c2e7"@,
            "#94e2d5"@,
            "#bac2de"@,
        ),
        palette_is(
            r.colors.bright,
            "#585b70"@,
            "#f38ba8"@,
            "#a6e3a1"@,
            "#f9e2af"@,
            "#89b4fa"@,
            "#f5c2e7"@,
            "#94e2d5"@,
            "#a6adc8"@,
        ),
        r.ui.accent@ == "#89b4fa"@,
        r.ui.border@ == "#6c7086"@,
        r.ui.tab_active@ == "#313244"@,
        r.ui.tab_inactive@ == "#181825"@,
        r.ui.status_bar@ == "#313244"@,
        r.ui.menu_background@ == "#313244"@,
        r.ui.menu_foreground@ == "#cdd6f4"@,
        r.terminal.bright_bold,
        r.terminal.cursor_style@ == "block"@,
        r.terminal.cursor_blink,
{
    WarpTheme {
        name: "Standard Dark".to_owned(),
        author: Some("Warp Team".to_owned()),
        version: "1.0.0".to_owned(),
        description: Some("The default dark theme for Warp".to_owned()),
        colors: ThemeColors {
            background: "#1e1e2e".to_owned(),
            foreground: "#cdd6f4".to_owned(),
            cursor: "#f5e0dc".to_owned(),
            selection_background: "#585b70".to_owned(),
            selection_foreground: "#cdd6f4".to_owned(),
            ansi: ansi(
                "#45475a",
                "#f38ba8",
                "#a6e3a1",
                "#f9e2af",
                "#89b4fa",
                "#f5c2e7",
                "#94e2d5",
                "#bac2de",
            ),
            bright: ansi(
                "#585b70",
                "#f38ba8",
                "#a6e3a1",
                "#f9e2af",
                "#89b4fa",
                "#f5c2e7",
                "#94e2d5",
                "#a6adc8",
            ),
        },
        ui: ThemeUI {
            accent: "#89b4fa".to_owned(),
            border: "#6c7086".to_owned(),
            tab_active: "#313244".to_owned(),
            tab_inactive: "#181825".to_owned(),
            status_bar: "#313244".to_owned(),
            menu_background: "#313244".to_owned(),
            menu_foreground: "#cdd6f4".to_owned(),
        },
        terminal: ThemeTerminal {
            bright_bold: true,
            cursor_style: "block".to_owned(),
            cursor_blink: true,
        },
    }
}

/// The standard light theme.
pub fn light_theme() -> (r: WarpTheme)
    ensures
        r.name@ == "Standard Light"@,
        r.author matches Some(a) && a@ == "Warp Team"@,
        r.version@ == "1.0.0"@,
        r.description matches Some(d) && d@ == "The default light theme for Warp"@,
        r.colors.background@ == "#eff1f5"@,
        r.colors.foreground@ == "#4c4f69"@,
        r.colors.cursor@ == "#dc8a78"@,
        r.colors.selection_background@ == "#acb0be"@,
        r.colors.selection_foreground@ == "#4c4f69"@,
        palette_is(
            r.colors.ansi,
            "#5c5f77"@,
            "#d20f39"@,
            "#40a02b"@,
            "#df8e1d"@,
            "#1e66f5"@,
            "#ea76cb"@,
            "#179299"@,
            "#acb0be"@,
        ),
        palette_is(
            r.colors.bright,
            "#6c6f85"@,
            "#d20f39"@,
            "#40a02b"@,
            "#df8e1d"@,
            "#1e66f5"@,
            "#ea76cb"@,
            "#179299"@,
            "#bcc0cc"@,
        ),
        r.ui.accent@ == "#1e66f5"@,
        r.ui.border@ == "#9ca0b0"@,
        r.ui.tab_active@ == "#dce0e8"@,
        r.ui.tab_inactive@ == "#e6e9ef"@,
        r.ui.status_bar@ == "#dce0e8"@,
        r.ui.menu_background@ == "#dce0e8"@,
        r.ui.menu_foreground@ == "#4c4f69"@,
        r.terminal.bright_bold,
        r.terminal.cursor_style@ == "block"@,
        r.terminal.cursor_blink,
{
    WarpTheme {
        name: "Standard Light".to_owned(),
        author: Some("Warp Team".to_owned()),
        version: "1.0.0".to_owned(),
        description: Some("The default light theme for Warp".to_owned()),
        colors: ThemeColors {
            background: "#eff1f5".to_owned(),
            foreground: "#4c4f69".to_owned(),
            cursor: "#dc8a78".to_owned(),
            selection_background: "#acb0be".to_owned(),
            selection_foreground: "#4c4f69".to_owned(),
            ansi: ansi(
                "#5c5f77",
                "#d20f39",
                "#40a02b",
                "#df8e1d",
                "#1e66f5",
                "#ea76cb",
                "#179299",
                "#acb0be",
            ),
            bright: ansi(
                "#6c6f85",
                "#d20f39",
                "#40a02b",
                "#df8e1d",
                "#1e66f5",
                "#ea76cb",
                "#179299",
                "#bcc0cc",
            ),
        },
        ui: ThemeUI {
            accent: "#1e66f5".to_owned(),
            border: "#9ca0b0".to_owned(),
            tab_active: "#dce0e8".to_owned(),
            tab_inactive: "#e6e9ef".to_owned(),
            status_bar: "#dce0e8".to_owned(),
            menu_background: "#dce0e8".to_owned(),
            menu_foreground: "#4c4f69".to_owned(),
        },
        terminal: ThemeTerminal {
            bright_bold: true,
            cursor_style: "block".to_owned(),
            cursor_blink: true,
        },
    }
}

/// Holds every known theme by name and which one is current.
pub struct ThemeManager {
    /// The themes, by name.
    pub themes: KvList<WarpTheme>,
    /// Name of the current theme.
    pub current_theme: String,
}

impl ThemeManager {
    pub open spec fn wf(self) -> bool {
        self.themes.wf()
    }

    /// A manager holding the two standard themes, the dark one current.
    /// Themes found on disk or downloaded are added through `add_theme`.
    pub fn new() -> (r: Self)
        ensures
            r.wf(),
            r.current_theme@ == "standard_dark"@,
            r.themes.entries@.len() == 2,
            has_key(r.themes.entries@, "standard_dark"@),
            has_key(r.themes.entries@, "standard_light"@),
    {
        proof {
            reveal_strlit("standard_dark");
            reveal_strlit("standard_light");
        }
        let mut themes: KvList<WarpTheme> = KvList::new();
        themes.insert("standard_dark".to_owned(), dark_theme());
        proof {
            assert(themes.entries@[0].0@ == "standard_dark"@);
            crate::kvlist::lemma_find_key(themes.entries@, "standard_light"@);
        }
        themes.insert("standard_light".to_owned(), light_theme());
        proof {
            assert(themes.entries@[0].0@ == "standard_dark"@);
            assert(themes.entries@[1].0@ == "standard_light"@);
            crate::kvlist::lemma_find_key_at(themes.entries@, "standard_dark"@, 0);
            crate::kvlist::lemma_find_key_at(themes.entries@, "standard_light"@, 1);
        }
        ThemeManager { themes, current_theme: "standard_dark".to_owned() }
    }

    /// Adds or replaces a theme under its own name.
    pub fn add_theme(&mut self, theme: WarpTheme)
        requires
            old(self).wf(),
        ensures
            final(self).wf(),
            has_key(final(self).themes.entries@, theme.name@),
            final(self).current_theme@ == old(self).current_theme@,
    {
        let name = theme.name.clone();
        let ghost k = name@;
        self.themes.insert(name, theme);
        proof {
            crate::kvlist::lemma_find_key(old(self).themes.entries@, k);
            if has_key(old(self).themes.entries@, k) {
                let i = find_key(old(self).themes.entries@, k);
                crate::kvlist::lemma_has_entry_witness(self.themes.entries@, k, i);
            } else {
                crate::kvlist::lemma_has_entry_witness(
                    self.themes.entries@,
                    k,
                    self.themes.entries@.len() - 1,
                );
            }
        }
    }

    /// The theme called `name`, if known.
    pub fn get_theme(&self, name: &str) -> (r: Option<&WarpTheme>)
        ensures
            has_key(self.themes.entries@, name@) ==> r == Some(
                &self.themes.entries@[find_key(self.themes.entries@, name@)].1,
            ),
            !has_key(self.themes.entries@, name@) ==> r == None::<&WarpTheme>,
    {
        self.themes.get(name)
    }

    /// The current theme, if its name is still known.
    pub fn get_current_theme(&self) -> (r: Option<&WarpTheme>)
        ensures
            has_key(self.themes.entries@, self.current_theme@) ==> r == Some(
                &self.themes.entries@[find_key(self.themes.entries@, self.current_theme@)].1,
            ),
            !has_key(self.themes.entries@, self.current_theme@) ==> r == None::<&WarpTheme>,
    {
        self.themes.get(self.current_theme.as_str())
    }

    /// Makes `name` current when it is known; an unknown name is refused
    /// and changes nothing.
    pub fn set_current_theme(&mut self, name: String) -> (r: Result<(), WarpError>)
        requires
            old(self).wf(),
        ensures
            final(self).wf(),
            final(self).themes == old(self).themes,
            has_key(old(self).themes.entries@, name@) ==> final(self).current_theme@ == name@ && r
                == Ok::<(), WarpError>(()),
            !has_key(old(self).themes.entries@, name@) ==> {
                &&& final(self).current_theme@ == old(self).current_theme@
                &&& r matches Err(e) && e matches WarpError::ConfigError(m) && m@ == "Theme '"@
                    + name@ + "' not found"@
            },
    {
        if self.themes.contains(name.as_str()) {
            self.current_theme = name;
            Ok(())
        } else {
            let mut m = "Theme '".to_owned();
            m.append(name.as_str());
            m.append("' not found");
            Err(WarpError::ConfigError(m))
        }
    }

    /// The names of all known themes, in the order they were added.
    pub fn list_themes(&self) -> (r: Vec<&String>)
        ensures
            r@.len() == self.themes.entries@.len(),
            forall|j: int| 0 <= j < r@.len() ==> r@[j]@ == self.themes.entries@[j].0@,
    {
        self.themes.keys()
    }
}

} // verus!
