//! Input routing: classifies each key press as a line edit, a raw byte
//! sequence for the child process, a line submission, a control signal, or
//! an application command from the injected keybinding map.

use vstd::prelude::*;
use vstd::utf8::encode_scalar;

use crate::text::char_utf8_bytes;

verus! {

/// A key, as the platform input layer reports it to the engine.
#[derive(Clone, Copy, Debug, PartialEq, Eq, Structural)]
pub enum Key {
    Char(char),
    Enter,
    Backspace,
    Tab,
    Esc,
    Left,
    Right,
    Up,
    Down,
    Other,
}

/// One key press with its modifiers.
#[derive(Clone, Copy, Debug, PartialEq, Eq, Structural)]
pub struct KeyPress {
    pub code: Key,
    pub ctrl: bool,
    pub alt: bool,
    pub shift: bool,
}

/// Whether keys edit the local input line or stream to the child process.
#[derive(Clone, Copy, Debug, PartialEq, Eq, Structural)]
pub enum InputMode {
    /// Keys edit `current_input`; Enter submits.
    LineEdit,
    /// Keys go straight to the pseudo-terminal, as when a full-screen
    /// program has taken over.
    RawPassthrough,
}

/// An edit of the active buffer's input line.
#[derive(Clone, Copy, Debug, PartialEq, Eq, Structural)]
pub enum EditOp {
    Insert(char),
    Backspace,
    ClearInput,
}

/// A signal-like key that must reach the process whatever the mode.
#[derive(Clone, Copy, Debug, PartialEq, Eq, Structural)]
pub enum ControlSignal {
    /// Interrupt the foreground job.
    Interrupt,
    /// End of input.
    EndOfInput,
}

/// A logical application command produced by the injected keybinding map.
#[derive(Clone, Copy, Debug, PartialEq, Eq, Structural)]
pub enum AppCommand {
    Copy,
    Paste,
    NewTab,
    CloseTab,
    NewWindow,
    Search,
    MoveToLineStart,
    MoveToLineEnd,
    KillLine,
    KillLineBackward,
    KillWordBackward,
    MoveLeft,
    MoveRight,
    MoveUp,
    MoveDown,
}

/// What the router decided a key press means.
#[derive(Clone, Debug, PartialEq)]
pub enum Action {
    /// Apply this edit to the active buffer.
    Edit(EditOp),
    /// Write these bytes to the active pseudo-terminal.
    Forward(Vec<u8>),
    /// Submit the input line (the buffer hands the text over and clears).
    Submit,
    /// Deliver this signal to the active process.
    Control(ControlSignal),
    /// Run this application command.
    App(AppCommand),
    /// Nothing to do.
    Ignore,
}

/// One entry of the injected keybinding map: a modified key mapped to an
/// application command.
#[derive(Clone, Copy, Debug, PartialEq, Eq, Structural)]
pub struct Binding {
    pub key: char,
    pub ctrl: bool,
    pub alt: bool,
    pub action: AppCommand,
}

/// The first binding matching the pressed key, if any.
pub open spec fn binding_lookup(bindings: Seq<Binding>, c: char, ctrl: bool, alt: bool) -> Option<
    AppCommand,
>
    decreases bindings.len(),
{
    if bindings.len() == 0 {
        None
    } else if bindings[0].key == c && bindings[0].ctrl == ctrl && bindings[0].alt == alt {
        Some(bindings[0].action)
    } else {
        binding_lookup(bindings.drop_first(), c, ctrl, alt)
    }
}

/// The bytes a key press sends to the child in passthrough mode: the UTF-8
/// encoding of a plain character, the control byte of a `Ctrl`-chord on an
/// ASCII letter, or the terminal's conventional sequence for special keys.
pub open spec fn key_bytes(ev: KeyPress) -> Seq<u8> {
    match ev.code {
        Key::Char(c) => if ev.ctrl {
            if 'a' <= c <= 'z' {
                seq![(c as u32 & 0x1F) as u8]
            } else {
                Seq::<u8>::empty()
            }
        } else {
            encode_scalar(c as u32)
        },
        Key::Enter => seq![0x0Du8],
        Key::Backspace => seq![0x7Fu8],
        Key::Tab => seq![0x09u8],
        Key::Esc => seq![0x1Bu8],
        Key::Left => seq![0x1Bu8, 0x5Bu8, 0x44u8],
        Key::Right => seq![0x1Bu8, 0x5Bu8, 0x43u8],
        Key::Up => seq![0x1Bu8, 0x5Bu8, 0x41u8],
        Key::Down => seq![0x1Bu8, 0x5Bu8, 0x42u8],
        Key::Other => Seq::<u8>::empty(),
    }
}

/// The mathematical form of an [`Action`]: forwarded bytes appear as a
/// sequence. This is what contracts speak about.
pub enum ActionView {
    Edit(EditOp),
    Forward(Seq<u8>),
    Submit,
    Control(ControlSignal),
    App(AppCommand),
    Ignore,
}

impl View for Action {
    type V = ActionView;

    open spec fn view(&self) -> ActionView {
        match self {
            Action::Edit(op) => ActionView::Edit(*op),
            Action::Forward(bytes) => ActionView::Forward(bytes@),
            Action::Submit => ActionView::Submit,
            Action::Control(sig) => ActionView::Control(*sig),
            Action::App(cmd) => ActionView::App(*cmd),
            Action::Ignore => ActionView::Ignore,
        }
    }
}

/// The routing decision as a function of mode, bindings and key press.
///
/// `Ctrl+C` and `Ctrl+D` always become control signals, whatever the mode.
/// In passthrough everything else streams to the process as bytes. In line
/// editing, a modified key is first looked up in the binding map; plain keys
/// edit the line, and Enter submits it.
pub open spec fn route_key(mode: InputMode, bindings: Seq<Binding>, ev: KeyPress) -> ActionView {
    if ev.ctrl && ev.code == Key::Char('c') {
        ActionView::Control(ControlSignal::Interrupt)
    } else if ev.ctrl && ev.code == Key::Char('d') {
        ActionView::Control(ControlSignal::EndOfInput)
    } else if mode == InputMode::RawPassthrough {
        ActionView::Forward(key_bytes(ev))
    } else {
        match ev.code {
            Key::Char(c) => if ev.ctrl || ev.alt {
                match binding_lookup(bindings, c, ev.ctrl, ev.alt) {
                    Some(cmd) => ActionView::App(cmd),
                    None => ActionView::Ignore,
                }
            } else {
                ActionView::Edit(EditOp::Insert(c))
            },
            Key::Backspace => ActionView::Edit(EditOp::Backspace),
            Key::Enter => ActionView::Submit,
            _ => ActionView::Ignore,
        }
    }
}

/// Decides whether a key press edits the line, streams to the process,
/// submits, signals, or runs a bound command.
pub struct InputRouter {
    /// Current routing mode.
    pub mode: InputMode,
    /// Injected keybinding map, first match wins.
    pub bindings: Vec<Binding>,
}

impl InputRouter {
    /// A router in line-editing mode with the given bindings.
    pub fn new(bindings: Vec<Binding>) -> (r: Self)
        ensures
            r.mode == InputMode::LineEdit,
            r.bindings@ == bindings@,
    {
        InputRouter { mode: InputMode::LineEdit, bindings }
    }

    /// Switches between line editing and raw passthrough.
    pub fn set_mode(&mut self, mode: InputMode)
        ensures
            final(self).mode == mode,
            final(self).bindings@ == old(self).bindings@,
    {
        self.mode = mode;
    }

    /// Routes one key press: the returned action is exactly `route_key` of
    /// the router's mode and bindings.
    pub fn handle_key(&self, ev: KeyPress) -> (a: Action)
        ensures
            a@ == route_key(self.mode, self.bindings@, ev),
    {
        if ev.ctrl && key_is_char(ev.code, 'c') {
            Action::Control(ControlSignal::Interrupt)
        } else if ev.ctrl && key_is_char(ev.code, 'd') {
            Action::Control(ControlSignal::EndOfInput)
        } else if matches!(self.mode, InputMode::RawPassthrough) {
            Action::Forward(key_bytes_exec(ev))
        } else {
            match ev.code {
                Key::Char(c) => {
                    if ev.ctrl || ev.alt {
                        match self.lookup_binding(c, ev.ctrl, ev.alt) {
                            Some(cmd) => Action::App(cmd),
                            None => Action::Ignore,
                        }
                    } else {
                        Action::Edit(EditOp::Insert(c))
                    }
                },
                Key::Backspace => Action::Edit(EditOp::Backspace),
                Key::Enter => Action::Submit,
                _ => Action::Ignore,
            }
        }
    }

    /// The first binding matching the pressed key.
    pub fn lookup_binding(&self, c: char, ctrl: bool, alt: bool) -> (r: Option<AppCommand>)
        ensures
            r == binding_lookup(self.bindings@, c, ctrl, alt),
    {
        let ghost all = self.bindings@;
        proof {
            assert(all.skip(0) =~= all);
        }
        let mut i: usize = 0;
        while i < self.bindings.len()
            invariant
                i <= all.len(),
                all == self.bindings@,
                binding_lookup(all, c, ctrl, alt) == binding_lookup(all.skip(i as int), c, ctrl, alt),
            decreases all.len() - i,
        {
            let b = self.bindings[i];
            proof {
                assert(all.skip(i as int)[0] == all[i as int]);
                assert(all.skip(i as int).drop_first() =~= all.skip(i + 1));
            }
            if b.key == c && b.ctrl == ctrl && b.alt == alt {
                return Some(b.action);
            }
            i = i + 1;
        }
        proof {
            assert(all.skip(all.len() as int) =~= Seq::<Binding>::empty());
        }
        None
    }
}

/// Whether `k` is the plain character `c`.
fn key_is_char(k: Key, c: char) -> (r: bool)
    ensures
        r == (k == Key::Char(c)),
{
    match k {
        Key::Char(x) => x == c,
        _ => false,
    }
}

/// The bytes `key_bytes` prescribes, built at run time.
fn key_bytes_exec(ev: KeyPress) -> (v: Vec<u8>)
    ensures
        v@ == key_bytes(ev),
{
    match ev.code {
        Key::Char(c) => {
            if ev.ctrl {
                let mut v: Vec<u8> = Vec::new();
                if 'a' <= c && c <= 'z' {
                    let u = c as u32;
                    v.push((u & 0x1F) as u8);
                    proof {
                        assert(v@ =~= seq![(c as u32 & 0x1F) as u8]);
                    }
                } else {
                    proof {
                        assert(v@ =~= Seq::<u8>::empty());
                    }
                }
                v
            } else {
                char_utf8_bytes(c)
            }
        },
        Key::Enter => one_byte(0x0D),
        Key::Backspace => one_byte(0x7F),
        Key::Tab => one_byte(0x09),
        Key::Esc => one_byte(0x1B),
        Key::Left => arrow_bytes(0x44),
        Key::Right => arrow_bytes(0x43),
        Key::Up => arrow_bytes(0x41),
        Key::Down => arrow_bytes(0x42),
        Key::Other => Vec::new(),
    }
}

fn one_byte(b: u8) -> (v: Vec<u8>)
    ensures
        v@ == seq![b],
{
    let mut v: Vec<u8> = Vec::new();
    v.push(b);
    proof {
        assert(v@ =~= seq![b]);
    }
    v
}

fn arrow_bytes(last: u8) -> (v: Vec<u8>)
    ensures
        v@ == seq![0x1Bu8, 0x5Bu8, last],
{
    let mut v: Vec<u8> = Vec::new();
    v.push(0x1B);
    v.push(0x5B);
    v.push(last);
    proof {
        assert(v@ =~= seq![0x1Bu8, 0x5Bu8, last]);
    }
    v
}

/// Control keys are control signals in every mode and under any binding map:
/// `Ctrl+C` interrupts and `Ctrl+D` ends input, never a line edit.
pub proof fn lemma_control_keys_route_to_control(
    mode: InputMode,
    bindings: Seq<Binding>,
    ev: KeyPress,
)
    requires
        ev.ctrl,
        ev.code == Key::Char('c') || ev.code == Key::Char('d'),
    ensures
        ev.code == Key::Char('c') ==> route_key(mode, bindings, ev) == ActionView::Control(
            ControlSignal::Interrupt,
        ),
        ev.code == Key::Char('d') ==> route_key(mode, bindings, ev) == ActionView::Control(
            ControlSignal::EndOfInput,
        ),
{
}

} // verus!
