//! Keybinding sets: the data model, the built-in presets, the manager that
//! tracks them, and the conversion into the input router's binding map.
//! Discovering keyset files on disk and parsing them is the surrounding
//! application's work; it hands finished values to the manager.

use vstd::prelude::*;

use crate::error::WarpError;
use crate::input::{AppCommand, Binding};
use crate::kvlist::{find_key, has_key, KvList};

verus! {

/// One keybinding: a key with modifiers mapped to a named action.
#[derive(Clone, Debug, PartialEq)]
pub struct KeyBinding {
    pub key: String,
    pub modifiers: Vec<String>,
    pub action: String,
    pub args: Option<Vec<String>>,
    pub when: Option<String>,
}

/// A named set of keybindings.
#[derive(Clone, Debug, PartialEq)]
pub struct KeySet {
    pub name: String,
    pub description: Option<String>,
    pub author: Option<String>,
    pub version: String,
    pub bindings: Vec<KeyBinding>,
}

/// A binding of one key with the control modifier, unconditioned save for
/// `when`, with no arguments.
pub open spec fn ctrl_binding(b: KeyBinding, key: Seq<char>, action: Seq<char>) -> bool {
    &&& b.key@ == key
    &&& b.modifiers@.len() == 1
    &&& b.modifiers@[0]@ == "ctrl"@
    &&& b.action@ == action
    &&& b.args is None
}

/// A binding of one bare key, with no arguments.
pub open spec fn plain_binding(b: KeyBinding, key: Seq<char>, action: Seq<char>) -> bool {
    &&& b.key@ == key
    &&& b.modifiers@.len() == 0
    &&& b.action@ == action
    &&& b.args is None
}

fn ctrl_mods() -> (r: Vec<String>)
    ensures
        r@.len() == 1,
        r@[0]@ == "ctrl"@,
{
    let mut r: Vec<String> = Vec::new();
    r.push("ctrl".to_owned());
    r
}

fn make_ctrl_binding(key: &str, action: &str, when: Option<String>) -> (r: KeyBinding)
    ensures
        ctrl_binding(r, key@, action@),
        r.when == when,
{
    KeyBinding {
        key: key.to_owned(),
        modifiers: ctrl_mods(),
        action: action.to_owned(),
        args: None,
        when,
    }
}

fn make_plain_binding(key: &str, action: &str, when: Option<String>) -> (r: KeyBinding)
    ensures
        plain_binding(r, key@, action@),
        r.when == when,
{
    KeyBinding {
        key: key.to_owned(),
        modifiers: Vec::new(),
        action: action.to_owned(),
        args: None,
        when,
    }
}

/// The standard keyset: control chords for the common application commands.
pub fn default_keyset() -> (r: KeySet)
    ensures
        r.name@ == "Default"@,
        r.description matches Some(d) && d@ == "Default Warp keybindings"@,
        r.author matches Some(a) && a@ == "Warp Team"@,
        r.version@ == "1.0.0"@,
        r.bindings@.len() == 6,
        ctrl_binding(r.bindings@[0], "c"@, "copy"@),
        r.bindings@[0].when matches Some(w) && w@ == "selection"@,
        ctrl_binding(r.bindings@[1], "v"@, "paste"@),
        ctrl_binding(r.bindings@[2], "t"@, "new_tab"@),
        ctrl_binding(r.bindings@[3], "w"@, "close_tab"@),
        ctrl_binding(r.bindings@[4], "n"@, "new_window"@),
        ctrl_binding(r.bindings@[5], "f"@, "search"@),
        forall|i: int| 1 <= i < 6 ==> (#[trigger] r.bindings@[i].when) is None,
{
    let mut bindings: Vec<KeyBinding> = Vec::new();
    bindings.push(make_ctrl_binding("c", "copy", Some("selection".to_owned())));
    bindings.push(make_ctrl_binding("v", "paste", None));
    bindings.push(make_ctrl_binding("t", "new_tab", None));
    bindings.push(make_ctrl_binding("w", "close_tab", None));
    bindings.push(make_ctrl_binding("n", "new_window", None));
    bindings.push(make_ctrl_binding("f", "search", None));
    KeySet {
        name: "Default".to_owned(),
        description: Some("Default Warp keybindings".to_owned()),
        author: Some("Warp Team".to_owned()),
        version: "1.0.0".to_owned(),
        bindings,
    }
}

/// Emacs-style line editing chords.
pub fn emacs_keyset() -> (r: KeySet)
    ensures
        r.name@ == "Emacs"@,
        r.description matches Some(d) && d@ == "Emacs-style keybindings"@,
        r.author matches Some(a) && a@ == "Warp Team"@,
        r.version@ == "1.0.0"@,
        r.bindings@.len() == 5,
        ctrl_binding(r.bindings@[0], "a"@, "move_to_line_start"@),
        ctrl_binding(r.bindings@[1], "e"@, "move_to_line_end"@),
        ctrl_binding(r.bindings@[2], "k"@, "kill_line"@),
        ctrl_binding(r.bindings@[3], "u"@, "kill_line_backward"@),
        ctrl_binding(r.bindings@[4], "w"@, "kill_word_backward"@),
        forall|i: int| 0 <= i < 5 ==> (#[trigger] r.bindings@[i].when) is None,
{
    let mut bindings: Vec<KeyBinding> = Vec::new();
    bindings.push(make_ctrl_binding("a", "move_to_line_start", None));
    bindings.push(make_ctrl_binding("e", "move_to_line_end", None));
    bindings.push(make_ctrl_binding("k", "kill_line", None));
    bindings.push(make_ctrl_binding("u", "kill_line_backward", None));
    bindings.push(make_ctrl_binding("w", "kill_word_backward", None));
    KeySet {
        name: "Emacs".to_owned(),
        description: Some("Emacs-style keybindings".to_owned()),
        author: Some("Warp Team".to_owned()),
        version: "1.0.0".to_owned(),
        bindings,
    }
}

/// Vim-style motions, conditioned on normal mode.
pub fn vim_keyset() -> (r: KeySet)
    ensures
        r.name@ == "Vim"@,
        r.description matches Some(d) && d@ == "Vim-style keybindings"@,
        r.author matches Some(a) && a@ == "Warp Team"@,
        r.version@ == "1.0.0"@,
        r.bindings@.len() == 4,
        plain_binding(r.bindings@[0], "h"@, "move_left"@),
        plain_binding(r.bindings@[1], "j"@, "move_down"@),
        plain_binding(r.bindings@[2], "k"@, "move_up"@),
        plain_binding(r.bindings@[3], "l"@, "move_right"@),
        forall|i: int|
            0 <= i < 4 ==> ((#[trigger] r.bindings@[i].when) matches Some(w) && w@
                == "normal_mode"@),
{
    let mut bindings: Vec<KeyBinding> = Vec::new();
    bindings.push(make_plain_binding("h", "move_left", Some("normal_mode".to_owned())));
    bindings.push(make_plain_binding("j", "move_down", Some("normal_mode".to_owned())));
    bindings.push(make_plain_binding("k", "move_up", Some("normal_mode".to_owned())));
    bindings.push(make_plain_binding("l", "move_right", Some("normal_mode".to_owned())));
    KeySet {
        name: "Vim".to_owned(),
        description: Some("Vim-style keybindings".to_owned()),
        author: Some("Warp Team".to_owned()),
        version: "1.0.0".to_owned(),
        bindings,
    }
}

/// Holds every known keyset by name and which one is current.
pub struct KeySetManager {
    /// The keysets, by name.
    pub keysets: KvList<KeySet>,
    /// Name of the current keyset.
    pub current_keyset: String,
}

impl KeySetManager {
    pub open spec fn wf(self) -> bool {
        self.keysets.wf()
    }

    /// A manager holding the three built-in keysets, with the default one
    /// current. Keysets discovered on disk are added afterwards through
    /// `add_keyset`.
    pub fn new() -> (r: Self)
        ensures
            r.wf(),
            r.current_keyset@ == "default"@,
            r.keysets.entries@.len() == 3,
            has_key(r.keysets.entries@, "default"@),
            has_key(r.keysets.entries@, "emacs"@),
            has_key(r.keysets.entries@, "vim"@),
    {
        proof {
            reveal_strlit("default");
            reveal_strlit("emacs");
            reveal_strlit("vim");
        }
        let mut keysets: KvList<KeySet> = KvList::new();
        keysets.insert("default".to_owned(), default_keyset());
        proof {
            assert(keysets.entries@[0].0@ == "default"@);
            crate::kvlist::lemma_find_key(keysets.entries@, "emacs"@);
        }
        keysets.insert("emacs".to_owned(), emacs_keyset());
        proof {
            assert(keysets.entries@[0].0@ == "default"@);
            assert(keysets.entries@[1].0@ == "emacs"@);
            crate::kvlist::lemma_find_key(keysets.entries@, "vim"@);
        }
        keysets.insert("vim".to_owned(), vim_keyset());
        proof {
            assert(keysets.entries@[0].0@ == "default"@);
            assert(keysets.entries@[1].0@ == "emacs"@);
            assert(keysets.entries@[2].0@ == "vim"@);
            crate::kvlist::lemma_find_key_at(keysets.entries@, "default"@, 0);
            crate::kvlist::lemma_find_key_at(keysets.entries@, "emacs"@, 1);
            crate::kvlist::lemma_find_key_at(keysets.entries@, "vim"@, 2);
        }
        KeySetManager { keysets, current_keyset: "default".to_owned() }
    }

    /// Adds or replaces a keyset under its own name, as discovery does.
    pub fn add_keyset(&mut self, keyset: KeySet)
        requires
            old(self).wf(),
        ensures
            final(self).wf(),
            has_key(final(self).keysets.entries@, keyset.name@),
            final(self).current_keyset@ == old(self).current_keyset@,
    {
        let name = keyset.name.clone();
        let ghost k = name@;
        self.keysets.insert(name, keyset);
        proof {
            crate::kvlist::lemma_find_key(old(self).keysets.entries@, k);
            if has_key(old(self).keysets.entries@, k) {
                let i = find_key(old(self).keysets.entries@, k);
                crate::kvlist::lemma_has_entry_witness(self.keysets.entries@, k, i);
            } else {
                crate::kvlist::lemma_has_entry_witness(
                    self.keysets.entries@,
                    k,
                    self.keysets.entries@.len() - 1,
                );
            }
        }
    }

    /// The keyset called `name`, if known.
    pub fn get_keyset(&self, name: &str) -> (r: Option<&KeySet>)
        ensures
            has_key(self.keysets.entries@, name@) ==> r == Some(
                &self.keysets.entries@[find_key(self.keysets.entries@, name@)].1,
            ),
            !has_key(self.keysets.entries@, name@) ==> r == None::<&KeySet>,
    {
        self.keysets.get(name)
    }

    /// The current keyset, if its name is still known.
    pub fn get_current_keyset(&self) -> (r: Option<&KeySet>)
        ensures
            has_key(self.keysets.entries@, self.current_keyset@) ==> r == Some(
                &self.keysets.entries@[find_key(self.keysets.entries@, self.current_keyset@)].1,
            ),
            !has_key(self.keysets.entries@, self.current_keyset@) ==> r == None::<&KeySet>,
    {
        self.keysets.get(self.current_keyset.as_str())
    }

    /// Makes `name` current when it is known; an unknown name is refused
    /// and changes nothing.
    pub fn set_current_keyset(&mut self, name: String) -> (r: Result<(), WarpError>)
        requires
            old(self).wf(),
        ensures
            final(self).wf(),
            final(self).keysets == old(self).keysets,
            has_key(old(self).keysets.entries@, name@) ==> final(self).current_keyset@ == name@
                && r == Ok::<(), WarpError>(()),
            !has_key(old(self).keysets.entries@, name@) ==> {
                &&& final(self).current_keyset@ == old(self).current_keyset@
                &&& r matches Err(e) && e matches WarpError::ConfigError(m) && m@ == "Keyset '"@
                    + name@ + "' not found"@
            },
    {
        if self.keysets.contains(name.as_str()) {
            self.current_keyset = name;
            Ok(())
        } else {
            let mut m = "Keyset '".to_owned();
            m.append(name.as_str());
            m.append("' not found");
            Err(WarpError::ConfigError(m))
        }
    }

    /// The names of all known keysets, in the order they were added.
    pub fn list_keysets(&self) -> (r: Vec<&String>)
        ensures
            r@.len() == self.keysets.entries@.len(),
            forall|j: int| 0 <= j < r@.len() ==> r@[j]@ == self.keysets.entries@[j].0@,
    {
        self.keysets.keys()
    }
}

/// The application command a keybinding action name stands for.
pub open spec fn action_command(a: Seq<char>) -> Option<AppCommand> {
    if a == "copy"@ {
        Some(AppCommand::Copy)
    } else if a == "paste"@ {
        Some(AppCommand::Paste)
    } else if a == "new_tab"@ {
        Some(AppCommand::NewTab)
    } else if a == "close_tab"@ {
        Some(AppCommand::CloseTab)
    } else if a == "new_window"@ {
        Some(AppCommand::NewWindow)
    } else if a == "search"@ {
        Some(AppCommand::Search)
    } else if a == "move_to_line_start"@ {
        Some(AppCommand::MoveToLineStart)
    } else if a == "move_to_line_end"@ {
        Some(AppCommand::MoveToLineEnd)
    } else if a == "kill_line"@ {
        Some(AppCommand::KillLine)
    } else if a == "kill_line_backward"@ {
        Some(AppCommand::KillLineBackward)
    } else if a == "kill_word_backward"@ {
        Some(AppCommand::KillWordBackward)
    } else if a == "move_left"@ {
        Some(AppCommand::MoveLeft)
    } else if a == "move_right"@ {
        Some(AppCommand::MoveRight)
    } else if a == "move_up"@ {
        Some(AppCommand::MoveUp)
    } else if a == "move_down"@ {
        Some(AppCommand::MoveDown)
    } else {
        None
    }
}

/// The router binding a keybinding yields: only an unconditioned binding of
/// a single-character key with a known action, and with a modifier, takes
/// part in routing — bare keys stay ordinary input.
pub open spec fn binding_of(kb: KeyBinding) -> Option<Binding> {
    if kb.key@.len() == 1 && kb.when is None {
        let ctrl = has_mod(kb.modifiers@, "ctrl"@);
        let alt = has_mod(kb.modifiers@, "alt"@);
        if ctrl || alt {
            match action_command(kb.action@) {
                Some(cmd) => Some(Binding { key: kb.key@[0], ctrl, alt, action: cmd }),
                None => None,
            }
        } else {
            None
        }
    } else {
        None
    }
}

/// Whether the modifier list names `m`.
pub open spec fn has_mod(mods: Seq<String>, m: Seq<char>) -> bool {
    exists|i: int| 0 <= i < mods.len() && mods[i]@ == m
}

/// The router bindings of a whole keyset, in order.
pub open spec fn bindings_of(kbs: Seq<KeyBinding>) -> Seq<Binding>
    decreases kbs.len(),
{
    if kbs.len() == 0 {
        Seq::<Binding>::empty()
    } else {
        let rest = bindings_of(kbs.drop_last());
        match binding_of(kbs.last()) {
            Some(b) => rest.push(b),
            None => rest,
        }
    }
}

/// Converts a keyset into the router's binding map.
pub fn router_bindings(ks: &KeySet) -> (r: Vec<Binding>)
    ensures
        r@ == bindings_of(ks.bindings@),
{
    let mut r: Vec<Binding> = Vec::new();
    let mut i: usize = 0;
    proof {
        assert(ks.bindings@.take(0) =~= Seq::<KeyBinding>::empty());
    }
    while i < ks.bindings.len()
        invariant
            i <= ks.bindings@.len(),
            r@ == bindings_of(ks.bindings@.take(i as int)),
        decreases ks.bindings@.len() - i,
    {
        proof {
            assert(ks.bindings@.take(i + 1).drop_last() =~= ks.bindings@.take(i as int));
            assert(ks.bindings@.take(i + 1).last() == ks.bindings@[i as int]);
        }
        let kb = &ks.bindings[i];
        let is_when_none = matches!(kb.when, None);
        if kb.key.as_str().unicode_len() == 1 && is_when_none {
            let ctrl = mods_contain(&kb.modifiers, "ctrl");
            let alt = mods_contain(&kb.modifiers, "alt");
            if ctrl || alt {
                match action_command_exec(kb.action.as_str()) {
                    Some(cmd) => {
                        let key = kb.key.as_str().get_char(0);
                        r.push(Binding { key, ctrl, alt, action: cmd });
                    },
                    None => {},
                }
            }
        }
        i = i + 1;
    }
    proof {
        assert(ks.bindings@.take(ks.bindings@.len() as int) =~= ks.bindings@);
    }
    r
}

/// Whether the modifier list names `m`.
fn mods_contain(mods: &Vec<String>, m: &str) -> (r: bool)
    ensures
        r == has_mod(mods@, m@),
{
    let mut i: usize = 0;
    while i < mods.len()
        invariant
            i <= mods@.len(),
            forall|j: int| 0 <= j < i ==> mods@[j]@ != m@,
        decreases mods@.len() - i,
    {
        if crate::commands::str_eq(mods[i].as_str(), m) {
            return true;
        }
        i = i + 1;
    }
    proof {
        assert(!has_mod(mods@, m@)) by {
            if has_mod(mods@, m@) {
                let j = choose|j: int| 0 <= j < mods@.len() && mods@[j]@ == m@;
                assert(mods@[j]@ != m@);
            }
        }
    }
    false
}

/// The application command for an action name.
fn action_command_exec(a: &str) -> (r: Option<AppCommand>)
    ensures
        r == action_command(a@),
{
    if crate::commands::str_eq(a, "copy") {
        Some(AppCommand::Copy)
    } else if crate::commands::str_eq(a, "paste") {
        Some(AppCommand::Paste)
    } else if crate::commands::str_eq(a, "new_tab") {
        Some(AppCommand::NewTab)
    } else if crate::commands::str_eq(a, "close_tab") {
        Some(AppCommand::CloseTab)
    } else if crate::commands::str_eq(a, "new_window") {
        Some(AppCommand::NewWindow)
    } else if crate::commands::str_eq(a, "search") {
        Some(AppCommand::Search)
    } else if crate::commands::str_eq(a, "move_to_line_start") {
        Some(AppCommand::MoveToLineStart)
    } else if crate::commands::str_eq(a, "move_to_line_end") {
        Some(AppCommand::MoveToLineEnd)
    } else if crate::commands::str_eq(a, "kill_line") {
        Some(AppCommand::KillLine)
    } else if crate::commands::str_eq(a, "kill_line_backward") {
        Some(AppCommand::KillLineBackward)
    } else if crate::commands::str_eq(a, "kill_word_backward") {
        Some(AppCommand::KillWordBackward)
    } else if crate::commands::str_eq(a, "move_left") {
        Some(AppCommand::MoveLeft)
    } else if crate::commands::str_eq(a, "move_right") {
        Some(AppCommand::MoveRight)
    } else if crate::commands::str_eq(a, "move_up") {
        Some(AppCommand::MoveUp)
    } else if crate::commands::str_eq(a, "move_down") {
        Some(AppCommand::MoveDown)
    } else {
        None
    }
}

} // verus!
