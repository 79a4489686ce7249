//! Built-in command handling: parsing a submitted line into a command,
//! carrying the command out on a buffer, and planning what an arbitrary
//! input line requires of the surrounding shell.

use vstd::prelude::*;

use crate::error::WarpError;
use crate::screen::{is_blank_char, push_evict, TerminalState};
use crate::text::char_to_string;

verus! {

/// `s` without leading whitespace.
pub open spec fn trim_start_spec(s: Seq<char>) -> Seq<char>
    decreases s.len(),
{
    if s.len() == 0 {
        s
    } else if is_blank_char(s[0]) {
        trim_start_spec(s.drop_first())
    } else {
        s
    }
}

/// `s` without trailing whitespace.
pub open spec fn trim_end_spec(s: Seq<char>) -> Seq<char>
    decreases s.len(),
{
    if s.len() == 0 {
        s
    } else if is_blank_char(s.last()) {
        trim_end_spec(s.drop_last())
    } else {
        s
    }
}

/// `s` without leading and trailing whitespace.
pub open spec fn trim_spec(s: Seq<char>) -> Seq<char> {
    trim_end_spec(trim_start_spec(s))
}

/// Whitespace-splitting, scanned left to right: the completed words and the
/// word still being read.
pub open spec fn word_scan(s: Seq<char>) -> (Seq<Seq<char>>, Seq<char>)
    decreases s.len(),
{
    if s.len() == 0 {
        (Seq::<Seq<char>>::empty(), Seq::<char>::empty())
    } else {
        let prev = word_scan(s.drop_last());
        let c = s.last();
        if is_blank_char(c) {
            if prev.1.len() == 0 {
                (prev.0, Seq::<char>::empty())
            } else {
                (prev.0.push(prev.1), Seq::<char>::empty())
            }
        } else {
            (prev.0, prev.1.push(c))
        }
    }
}

/// The whitespace-separated words of `s`.
pub open spec fn words(s: Seq<char>) -> Seq<Seq<char>> {
    let scan = word_scan(s);
    if scan.1.len() == 0 {
        scan.0
    } else {
        scan.0.push(scan.1)
    }
}

/// ASCII lowercasing of one character.
pub open spec fn lower_char(c: char) -> char {
    if 'A' <= c <= 'Z' {
        ((c as u32) + 32) as char
    } else {
        c
    }
}

/// ASCII lowercasing of a character sequence.
pub open spec fn lower(s: Seq<char>) -> Seq<char> {
    s.map_values(|c: char| lower_char(c))
}

/// The words joined with single spaces.
pub open spec fn join_words(ts: Seq<Seq<char>>) -> Seq<char>
    decreases ts.len(),
{
    if ts.len() == 0 {
        Seq::<char>::empty()
    } else if ts.len() == 1 {
        ts[0]
    } else {
        join_words(ts.drop_last()) + seq![' '] + ts.last()
    }
}

/// A submitted line, parsed: one of the built-ins, an AI query, or anything
/// else carried through unchanged.
#[derive(Clone, Debug, PartialEq)]
pub enum Command {
    Clear,
    Exit,
    Help,
    Ai(String),
    Unknown(String),
}

/// Whether the parsed line's first word, lowercased, is `kw`.
pub open spec fn first_word_is(s: Seq<char>, kw: Seq<char>) -> bool {
    words(s).len() > 0 && lower(words(s)[0]) == kw
}

impl Command {
    /// Parses a line: the first word, lowercased, picks the command; an
    /// `ai` query carries the remaining words joined by single spaces; a
    /// line with no recognised first word (or no words at all) is `Unknown`
    /// and keeps the input text.
    pub fn parse(input: &str) -> (r: Command)
        ensures
            match r {
                Command::Clear => first_word_is(input@, "clear"@),
                Command::Exit => first_word_is(input@, "exit"@),
                Command::Help => first_word_is(input@, "help"@),
                Command::Ai(q) => first_word_is(input@, "ai"@) && q@ == join_words(
                    words(input@).skip(1),
                ),
                Command::Unknown(u) => u@ == input@ && !first_word_is(input@, "clear"@)
                    && !first_word_is(input@, "exit"@) && !first_word_is(input@, "help"@)
                    && !first_word_is(input@, "ai"@),
            },
    {
        let parts = split_words(input);
        if parts.len() == 0 {
            return Command::Unknown(input.to_owned());
        }
        let head = lowercase_ascii(parts[0].as_str());
        if str_eq(head.as_str(), "clear") {
            Command::Clear
        } else if str_eq(head.as_str(), "exit") {
            Command::Exit
        } else if str_eq(head.as_str(), "help") {
            Command::Help
        } else if str_eq(head.as_str(), "ai") {
            let ghost all = words(input@);
            let mut q = String::new();
            let mut k: usize = 1;
            proof {
                assert(all.skip(1).take(0) =~= Seq::<Seq<char>>::empty());
            }
            while k < parts.len()
                invariant
                    1 <= k <= all.len(),
                    parts@.len() == all.len(),
                    forall|j: int| 0 <= j < all.len() ==> parts@[j]@ == all[j],
                    q@ == join_words(all.skip(1).take(k - 1)),
                decreases all.len() - k,
            {
                proof {
                    assert(all.skip(1).take(k as int).drop_last() =~= all.skip(1).take(k - 1));
                    assert(all.skip(1).take(k as int).last() == all[k as int]);
                }
                if k > 1 {
                    proof {
                        reveal_strlit(" ");
                    }
                    q.append(" ");
                }
                q.append(parts[k].as_str());
                k = k + 1;
            }
            proof {
                assert(all.skip(1).take(all.len() - 1) =~= all.skip(1));
            }
            Command::Ai(q)
        } else {
            Command::Unknown(input.to_owned())
        }
    }

    /// Carries a parsed command out on the buffer. `Clear` empties input
    /// and history; `Exit` decides nothing here (the loop acts on it);
    /// `Help` and `Ai` add their lines; `Unknown` is the one error.
    pub fn execute(&self, state: &mut TerminalState) -> (r: Result<(), WarpError>)
        requires
            old(state).wf(),
        ensures
            final(state).wf(),
            match self {
                Command::Clear => {
                    &&& final(state).current_input@ == Seq::<char>::empty()
                    &&& final(state).cursor_position == 0
                    &&& final(state).history@.len() == 0
                    &&& r == Ok::<(), WarpError>(())
                },
                Command::Exit => *final(state) == *old(state) && r == Ok::<(), WarpError>(()),
                Command::Help => {
                    &&& final(state).hist_view() == push_evict(
                        old(state).hist_view(),
                        "Available commands: clear, exit, help, ai <query>"@,
                    )
                    &&& final(state).current_input@ == old(state).current_input@
                    &&& r == Ok::<(), WarpError>(())
                },
                Command::Ai(q) => {
                    &&& final(state).hist_view() == push_evict(
                        old(state).hist_view(),
                        "AI processing: "@ + q@,
                    )
                    &&& final(state).current_input@ == old(state).current_input@
                    &&& r == Ok::<(), WarpError>(())
                },
                Command::Unknown(cmd) => {
                    &&& *final(state) == *old(state)
                    &&& r matches Err(e) && e matches WarpError::CommandError(m) && m@
                        == "Unknown command: "@ + cmd@
                },
            },
    {
        match self {
            Command::Clear => {
                state.clear_input();
                state.history.clear();
                Ok(())
            },
            Command::Exit => Ok(()),
            Command::Help => {
                state.add_history_entry(
                    "Available commands: clear, exit, help, ai <query>".to_owned(),
                );
                Ok(())
            },
            Command::Ai(q) => {
                let mut line = "AI processing: ".to_owned();
                line.append(q.as_str());
                state.add_history_entry(line);
                Ok(())
            },
            Command::Unknown(cmd) => {
                let mut msg = "Unknown command: ".to_owned();
                msg.append(cmd.as_str());
                Err(WarpError::CommandError(msg))
            },
        }
    }
}

/// Splits a line into its whitespace-separated words.
pub fn split_words(input: &str) -> (r: Vec<String>)
    ensures
        r@.len() == words(input@).len(),
        forall|j: int| 0 <= j < r@.len() ==> r@[j]@ == words(input@)[j],
{
    let ghost s = input@;
    let n = input.unicode_len();
    let mut out: Vec<String> = Vec::new();
    let mut cur = String::new();
    let mut i: usize = 0;
    proof {
        assert(s.take(0) =~= Seq::<char>::empty());
    }
    while i < n
        invariant
            i <= n,
            n == s.len(),
            s == input@,
            out@.len() == word_scan(s.take(i as int)).0.len(),
            forall|j: int| 0 <= j < out@.len() ==> out@[j]@ == word_scan(s.take(i as int)).0[j],
            cur@ == word_scan(s.take(i as int)).1,
        decreases n - i,
    {
        let c = input.get_char(i);
        proof {
            assert(s.take(i + 1).drop_last() =~= s.take(i as int));
            assert(s.take(i + 1).last() == c);
        }
        if c == ' ' || c == '\t' || c == '\r' || c == '\n' {
            if cur.as_str().is_empty() {
            } else {
                out.push(cur);
                cur = String::new();
            }
        } else {
            cur.append(char_to_string(c).as_str());
        }
        i = i + 1;
    }
    proof {
        assert(s.take(n as int) =~= s);
    }
    if cur.as_str().is_empty() {
        proof {
            assert(words(s) =~= word_scan(s).0);
        }
    } else {
        out.push(cur);
        proof {
            assert(words(s) =~= word_scan(s).0.push(word_scan(s).1));
        }
    }
    out
}

/// ASCII-lowercases a word.
pub fn lowercase_ascii(s: &str) -> (r: String)
    ensures
        r@ == lower(s@),
{
    let n = s.unicode_len();
    let mut r = String::new();
    let mut i: usize = 0;
    proof {
        assert(s@.take(0) =~= Seq::<char>::empty());
        assert(lower(s@.take(0)) =~= Seq::<char>::empty());
    }
    while i < n
        invariant
            i <= n,
            n == s@.len(),
            r@ == lower(s@.take(i as int)),
        decreases n - i,
    {
        let c = s.get_char(i);
        let lc: char = lower_char_exec(c);
        r.append(char_to_string(lc).as_str());
        proof {
            assert(s@.take(i + 1) =~= s@.take(i as int) + seq![c]);
            assert(lower(s@.take(i + 1)) =~= lower(s@.take(i as int)).push(lower_char(c)));
        }
        i = i + 1;
    }
    proof {
        assert(s@.take(n as int) =~= s@);
    }
    r
}

/// ASCII-lowercases one character.
fn lower_char_exec(c: char) -> (r: char)
    ensures
        r == lower_char(c),
{
    if 'A' <= c && c <= 'Z' {
        let b = c as u8;
        proof {
            assert(c as u32 >= 65 && c as u32 <= 90);
            assert(b == c as u32);
        }
        let lc = (b + 32) as char;
        proof {
            assert(lc as u32 == (c as u32) + 32);
            vstd::utf8::char_u32_cast(lc, lc as u32);
        }
        lc
    } else {
        c
    }
}

/// What the help built-in prints.
pub open spec fn help_text_spec() -> Seq<char> {
    "Warp Terminal - Available Commands:

Built-in Commands:
  help          - Show this help message
  clear         - Clear the terminal screen
  pwd           - Print working directory
  cd <path>     - Change directory
  ai <query>    - Ask AI assistant

External Commands:
  ls, cat, echo, grep, find, etc. - Standard shell commands

AI Features:
  ai explain <command>    - Explain what a command does
  ai suggest <task>       - Get command suggestions for a task
  ai debug <error>        - Help debug command errors

Press Ctrl+C to exit."@
}

/// Where `cd` should go: an absolute path stands alone, anything else is
/// taken relative to the current directory.
pub open spec fn cd_target(cur: Seq<char>, p: Seq<char>) -> Seq<char> {
    if p.len() > 0 && p[0] == '/' {
        p
    } else {
        cur + seq!['/'] + p
    }
}

/// Decides what an input line requires: nothing, a built-in's output, a
/// directory change, or an external command for the surrounding shell to
/// run. Running the external command, and checking that a directory exists,
/// is the caller's work.
pub struct CommandExecutor {
    /// The working directory commands run in.
    pub current_dir: String,
}

/// The decision for one input line.
#[derive(Clone, Debug, PartialEq)]
pub enum CommandPlan {
    /// Blank input: nothing to do.
    Empty,
    /// A built-in answered with this text.
    Output(String),
    /// Change the working directory to this path (after checking it).
    ChangeDir { path: String },
    /// Run this argument vector as an external command.
    External { argv: Vec<String> },
}

impl CommandExecutor {
    /// An executor working in the given directory.
    pub fn new(current_dir: String) -> (r: Self)
        ensures
            r.current_dir == current_dir,
    {
        CommandExecutor { current_dir }
    }

    /// The help built-in's text.
    pub fn help_text(&self) -> (r: String)
        ensures
            r@ == help_text_spec(),
    {
        "Warp Terminal - Available Commands:

Built-in Commands:
  help          - Show this help message
  clear         - Clear the terminal screen
  pwd           - Print working directory
  cd <path>     - Change directory
  ai <query>    - Ask AI assistant

External Commands:
  ls, cat, echo, grep, find, etc. - Standard shell commands

AI Features:
  ai explain <command>    - Explain what a command does
  ai suggest <task>       - Get command suggestions for a task
  ai debug <error>        - Help debug command errors

Press Ctrl+C to exit.".to_owned()
    }

    /// Decides the input line, trimmed: blank is nothing; `help`, `clear`
    /// and `pwd` answer at once; `cd <path>` resolves its target against
    /// the working directory; everything else is an external command,
    /// split into words.
    pub fn execute(&self, input: &str) -> (r: CommandPlan)
        ensures
            ({
                let t = trim_spec(input@);
                match r {
                    CommandPlan::Empty => t.len() == 0,
                    CommandPlan::Output(o) => {
                        ||| (t == "help"@ && o@ == help_text_spec())
                        ||| (t == "clear"@ && o@ == "\u{1b}[2J\u{1b}[H"@)
                        ||| (t == "pwd"@ && o@ == self.current_dir@)
                    },
                    CommandPlan::ChangeDir { path } => {
                        &&& t.len() >= 3
                        &&& t.take(3) == seq!['c', 'd', ' ']
                        &&& path@ == cd_target(self.current_dir@, trim_spec(t.skip(3)))
                    },
                    CommandPlan::External { argv } => {
                        &&& t.len() > 0
                        &&& t != "help"@
                        &&& t != "clear"@
                        &&& t != "pwd"@
                        &&& !(t.len() >= 3 && t.take(3) == seq!['c', 'd', ' '])
                        &&& argv@.len() == words(t).len()
                        &&& forall|j: int| 0 <= j < argv@.len() ==> argv@[j]@ == words(t)[j]
                    },
                }
            }),
    {
        let trimmed = trim_exec(input);
        let n = trimmed.as_str().unicode_len();
        if n == 0 {
            return CommandPlan::Empty;
        }
        if str_eq(trimmed.as_str(), "help") {
            return CommandPlan::Output(self.help_text());
        }
        if str_eq(trimmed.as_str(), "clear") {
            return CommandPlan::Output("\u{1b}[2J\u{1b}[H".to_owned());
        }
        if str_eq(trimmed.as_str(), "pwd") {
            return CommandPlan::Output(self.current_dir.clone());
        }
        if n >= 3 {
            let c0 = trimmed.as_str().get_char(0);
            let c1 = trimmed.as_str().get_char(1);
            let c2 = trimmed.as_str().get_char(2);
            if c0 == 'c' && c1 == 'd' && c2 == ' ' {
                proof {
                    assert(trimmed@.take(3) =~= seq!['c', 'd', ' ']);
                }
                let rest = trimmed.as_str().substring_char(3, n);
                proof {
                    assert(rest@ =~= trimmed@.skip(3));
                }
                let p = trim_exec(rest);
                let pn = p.as_str().unicode_len();
                let absolute = if pn > 0 {
                    p.as_str().get_char(0) == '/'
                } else {
                    false
                };
                if absolute {
                    return CommandPlan::ChangeDir { path: p };
                } else {
                    let mut path = self.current_dir.clone();
                    proof {
                        reveal_strlit("/");
                    }
                    path.append("/");
                    path.append(p.as_str());
                    proof {
                        assert(path@ =~= self.current_dir@ + seq!['/'] + p@);
                    }
                    return CommandPlan::ChangeDir { path };
                }
            }
        }
        let argv = split_words(trimmed.as_str());
        CommandPlan::External { argv }
    }
}

/// `s` with leading and trailing whitespace removed.
pub fn trim_exec(s: &str) -> (r: String)
    ensures
        r@ == trim_spec(s@),
{
    let n = s.unicode_len();
    let mut a: usize = 0;
    while a < n && is_blank_exec(s.get_char(a))
        invariant
            a <= n,
            n == s@.len(),
            forall|j: int| 0 <= j < a ==> is_blank_char(#[trigger] s@[j]),
        decreases n - a,
    {
        a = a + 1;
    }
    let mut b: usize = n;
    while b > a && is_blank_exec(s.get_char(b - 1))
        invariant
            a <= b <= n,
            n == s@.len(),
            forall|j: int| 0 <= j < a ==> is_blank_char(#[trigger] s@[j]),
            forall|j: int| b <= j < n ==> is_blank_char(#[trigger] s@[j]),
        decreases b,
    {
        b = b - 1;
    }
    let r = s.substring_char(a, b).to_owned();
    proof {
        lemma_trim_start_at(s@, a as int);
        let u = s@.skip(a as int);
        lemma_trim_end_at(u, b - a);
        assert(r@ =~= u.take(b - a));
    }
    r
}

/// Whether `c` is whitespace.
fn is_blank_exec(c: char) -> (r: bool)
    ensures
        r == is_blank_char(c),
{
    c == ' ' || c == '\t' || c == '\r' || c == '\n'
}

/// If the first `k` characters are blank and the next one (if any) is not,
/// trimming the start drops exactly those `k`.
proof fn lemma_trim_start_at(s: Seq<char>, k: int)
    requires
        0 <= k <= s.len(),
        forall|j: int| 0 <= j < k ==> is_blank_char(#[trigger] s[j]),
        k < s.len() ==> !is_blank_char(s[k]),
    ensures
        trim_start_spec(s) == s.skip(k),
    decreases s.len(),
{
    if k == 0 {
        if s.len() == 0 {
            assert(s.skip(0) =~= s);
        } else {
            assert(!is_blank_char(s[0]));
            assert(s.skip(0) =~= s);
        }
    } else {
        let t = s.drop_first();
        assert(is_blank_char(s[0]));
        assert forall|j: int| 0 <= j < k - 1 implies is_blank_char(#[trigger] t[j]) by {
            assert(t[j] == s[j + 1]);
        }
        assert(k - 1 < t.len() ==> !is_blank_char(t[k - 1]));
        lemma_trim_start_at(t, k - 1);
        assert(t.skip(k - 1) =~= s.skip(k));
    }
}

/// If everything from `k` on is blank and the character before `k` (if any)
/// is not, trimming the end keeps exactly the first `k`.
proof fn lemma_trim_end_at(s: Seq<char>, k: int)
    requires
        0 <= k <= s.len(),
        forall|j: int| k <= j < s.len() ==> is_blank_char(#[trigger] s[j]),
        k > 0 ==> !is_blank_char(s[k - 1]),
    ensures
        trim_end_spec(s) == s.take(k),
    decreases s.len(),
{
    if k == s.len() {
        if s.len() == 0 {
            assert(s.take(0) =~= s);
        } else {
            assert(!is_blank_char(s.last()));
            assert(s.take(k) =~= s);
        }
    } else {
        let t = s.drop_last();
        assert(is_blank_char(s.last()));
        lemma_trim_end_at(t, k);
        assert(t.take(k) =~= s.take(k));
    }
}

/// Whether two strings hold the same characters.
pub fn str_eq(a: &str, b: &str) -> (r: bool)
    ensures
        r == (a@ == b@),
{
    let an = a.unicode_len();
    let bn = b.unicode_len();
    if an != bn {
        proof {
            assert(a@ != b@) by {
                if a@ == b@ {
                    assert(a@.len() == b@.len());
                }
            }
        }
        return false;
    }
    let mut i: usize = 0;
    while i < an
        invariant
            i <= an,
            an == a@.len(),
            an == b@.len(),
            forall|j: int| 0 <= j < i ==> a@[j] == b@[j],
        decreases an - i,
    {
        if a.get_char(i) != b.get_char(i) {
            return false;
        }
        i = i + 1;
    }
    proof {
        assert(a@ =~= b@);
    }
    true
}

/// Folds an external command's captured streams into the one display text:
/// when anything arrived on stderr it follows stdout on its own marked line,
/// otherwise stdout stands alone.
pub fn combine_output(stdout: &str, stderr: &str) -> (r: String)
    ensures
        stderr@.len() == 0 ==> r@ == stdout@,
        stderr@.len() != 0 ==> r@ == stdout@ + "\n\u{274c} "@ + stderr@,
{
    if stderr.is_empty() {
        stdout.to_owned()
    } else {
        let mut r = stdout.to_owned();
        r.append("\n\u{274c} ");
        r.append(stderr);
        r
    }
}

} // verus!
