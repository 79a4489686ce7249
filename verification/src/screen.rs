//! The screen buffer of one session: a bounded history of display lines, the
//! still-open tail of process output, and the line the user is editing.
//!
//! The cursor into the edited line is kept both as a byte offset (what a
//! renderer needs) and as a character index; well-formedness ties the two
//! together, and from it the byte offset is always a UTF-8 character boundary.

use vstd::prelude::*;
use vstd::utf8::*;
use std::collections::VecDeque;

use crate::input::EditOp;
use crate::text::{
    char_to_string, char_utf8_len, complete_lines, lemma_boundary_between_encodings,
    lemma_encode_utf8_concat, lemma_encode_utf8_len, lemma_encode_utf8_prefix,
    lemma_encode_utf8_singleton, lemma_lines_concat, lemma_lines_snoc,
    lemma_line_tail_idempotent, line_tail, lossy_decode, lossy_decode_of,
};

verus! {

broadcast use vstd::utf8::group_utf8_lib;

/// Upper bound on the number of history lines a buffer retains; the oldest
/// line is evicted first once the bound is reached.
pub const HISTORY_CAPACITY: usize = 1000;

/// Bounded history plus the line being edited, with a byte-offset cursor.
pub struct TerminalState {
    /// The line the user is editing.
    pub current_input: String,
    /// Display lines, oldest first; never more than `HISTORY_CAPACITY`.
    pub history: VecDeque<String>,
    /// Byte offset of the cursor within `current_input`.
    pub cursor_position: usize,
    /// The same cursor position, counted in characters.
    pub cursor_chars: usize,
    /// Process output after the last newline: the still-open display line.
    pub pending_output: String,
}

/// `h` with its oldest lines evicted down to the history bound.
pub open spec fn evict(h: Seq<Seq<char>>) -> Seq<Seq<char>> {
    if h.len() <= HISTORY_CAPACITY {
        h
    } else {
        h.skip(h.len() - HISTORY_CAPACITY)
    }
}

/// One history line appended, evicting the oldest line if the bound would be
/// exceeded.
pub open spec fn push_evict(h: Seq<Seq<char>>, l: Seq<char>) -> Seq<Seq<char>> {
    evict(h + seq![l])
}

/// How one chunk of decoded output changes a buffer: the pending tail and
/// the chunk form the stream, whose completed lines join the history (bounded
/// by eviction) and whose open tail becomes the new pending text.
pub open spec fn output_step(h: Seq<Seq<char>>, p: Seq<char>, chunk: Seq<char>) -> (
    Seq<Seq<char>>,
    Seq<char>,
) {
    let stream = p + chunk;
    (evict(h + complete_lines(stream)), line_tail(stream))
}

/// Whitespace as line submission sees it.
pub open spec fn is_blank_char(c: char) -> bool {
    c == ' ' || c == '\t' || c == '\r' || c == '\n'
}

/// A line with nothing to submit.
pub open spec fn is_blank(s: Seq<char>) -> bool {
    forall|i: int| 0 <= i < s.len() ==> is_blank_char(#[trigger] s[i])
}

/// Evicting, appending and evicting again is the same as appending and
/// evicting once: eviction only ever removes lines that would be evicted
/// anyway.
pub proof fn lemma_evict_compose(u: Seq<Seq<char>>, v: Seq<Seq<char>>)
    ensures
        evict(evict(u) + v) == evict(u + v),
{
    let m = HISTORY_CAPACITY as int;
    if u.len() <= m {
        assert(evict(u) =~= u);
        assert(evict(u) + v =~= u + v);
    } else {
        let u2 = u.skip(u.len() - m);
        assert(evict(u) =~= u2);
        if v.len() == 0 {
            assert(u2 + v =~= u2);
            assert(u + v =~= u);
            assert(evict(u2) =~= u2);
        } else {
            assert(evict(u2 + v) =~= (u2 + v).skip(v.len() as int));
            assert(evict(u + v) =~= (u + v).skip(u.len() + v.len() - m));
            assert((u2 + v).skip(v.len() as int) =~= (u + v).skip(u.len() + v.len() - m));
        }
    }
}

/// Output ordering: feeding two chunks one after the other leaves the buffer
/// exactly as feeding their concatenation would, so bytes delivered in order
/// appear in the history and pending line in that order.
pub proof fn lemma_output_chunks_compose(
    h: Seq<Seq<char>>,
    p: Seq<char>,
    c1: Seq<char>,
    c2: Seq<char>,
)
    ensures
        ({
            let once = output_step(h, p, c1);
            output_step(once.0, once.1, c2) == output_step(h, p, c1 + c2)
        }),
{
    let stream1 = p + c1;
    lemma_lines_concat(stream1, c2);
    assert(p + (c1 + c2) =~= stream1 + c2);
    lemma_evict_compose(h + complete_lines(stream1), complete_lines(line_tail(stream1) + c2));
    assert((h + complete_lines(stream1)) + complete_lines(line_tail(stream1) + c2) =~= h
        + complete_lines(stream1 + c2));
}

/// How one routed edit relates a buffer's state after to its state before.
/// An insert that would overflow the machine's byte budget leaves the buffer
/// unchanged; history and pending output are never touched by edits.
pub open spec fn edit_applied(b0: TerminalState, b1: TerminalState, op: EditOp) -> bool {
    &&& b1.history@ == b0.history@
    &&& b1.pending_output@ == b0.pending_output@
    &&& match op {
        EditOp::Insert(c) => if encode_utf8(b0.current_input@).len() + 4 <= usize::MAX {
            &&& b1.current_input@ == b0.current_input@.take(b0.cursor_chars as int) + seq![c]
                + b0.current_input@.skip(b0.cursor_chars as int)
            &&& b1.cursor_chars == b0.cursor_chars + 1
            &&& b1.cursor_position == b0.cursor_position + encode_scalar(c as u32).len()
        } else {
            b1 == b0
        },
        EditOp::Backspace => if b0.cursor_position == 0 {
            b1 == b0
        } else {
            &&& b1.current_input@ == b0.current_input@.take(b0.cursor_chars - 1)
                + b0.current_input@.skip(b0.cursor_chars as int)
            &&& b1.cursor_chars == b0.cursor_chars - 1
            &&& b1.cursor_position == b0.cursor_position - encode_scalar(
                b0.current_input@[b0.cursor_chars - 1] as u32,
            ).len()
        },
        EditOp::ClearInput => {
            &&& b1.current_input@ == Seq::<char>::empty()
            &&& b1.cursor_chars == 0
            &&& b1.cursor_position == 0
        },
    }
}

/// How a pasted text relates a buffer's state after to its state before:
/// inserted whole at the cursor when the byte budget allows it, otherwise
/// dropped whole.
pub open spec fn paste_applied(b0: TerminalState, b1: TerminalState, s: Seq<char>) -> bool {
    &&& b1.history@ == b0.history@
    &&& b1.pending_output@ == b0.pending_output@
    &&& if encode_utf8(b0.current_input@).len() + encode_utf8(s).len() + 4 <= usize::MAX {
        &&& b1.current_input@ == b0.current_input@.take(b0.cursor_chars as int) + s
            + b0.current_input@.skip(b0.cursor_chars as int)
        &&& b1.cursor_chars == b0.cursor_chars + s.len()
        &&& b1.cursor_position == b0.cursor_position + encode_utf8(s).len()
    } else {
        b1 == b0
    }
}

/// The history a buffer starts with.
pub open spec fn fresh_hist() -> Seq<Seq<char>> {
    seq![
        "Welcome to Warp Terminal!"@,
        "Type 'help' for available commands or 'ai <query>' for AI assistance."@,
    ]
}

/// What a renderer reads: an immutable copy of one buffer's visible state.
pub struct BufferView {
    /// History lines, oldest first.
    pub lines: Vec<String>,
    /// The line being edited.
    pub current_input: String,
    /// Byte offset of the cursor within `current_input`.
    pub cursor_position: usize,
    /// The still-open process output line.
    pub pending_output: String,
}

impl TerminalState {
    /// The history as character sequences.
    pub open spec fn hist_view(self) -> Seq<Seq<char>> {
        self.history@.map_values(|s: String| s@)
    }

    /// Well-formedness: the two cursor fields describe the same position,
    /// the byte length of the input fits the machine, and the history is
    /// within its bound.
    pub open spec fn wf(self) -> bool {
        &&& self.cursor_chars <= self.current_input@.len()
        &&& self.cursor_position == encode_utf8(
            self.current_input@.take(self.cursor_chars as int),
        ).len()
        &&& encode_utf8(self.current_input@).len() <= usize::MAX
        &&& self.history@.len() <= HISTORY_CAPACITY
    }

    /// A buffer whose history starts with the given lines.
    pub fn with_welcome_messages(messages: Vec<String>) -> (s: Self)
        requires
            messages@.len() <= HISTORY_CAPACITY,
        ensures
            s.wf(),
            s.current_input@ == Seq::<char>::empty(),
            s.cursor_position == 0,
            s.cursor_chars == 0,
            s.pending_output@ == Seq::<char>::empty(),
            s.history@.len() == messages@.len(),
            forall|i: int| 0 <= i < messages@.len() ==> s.history@[i]@ == messages@[i]@,
    {
        let mut history: VecDeque<String> = VecDeque::new();
        let mut i: usize = 0;
        while i < messages.len()
            invariant
                i <= messages@.len(),
                history@.len() == i,
                forall|j: int| 0 <= j < i ==> history@[j]@ == messages@[j]@,
            decreases messages@.len() - i,
        {
            history.push_back(messages[i].clone());
            i = i + 1;
        }
        TerminalState {
            current_input: String::new(),
            history,
            cursor_position: 0,
            cursor_chars: 0,
            pending_output: String::new(),
        }
    }

    /// A just-created buffer: empty input and pending text, cursor at the
    /// start, and the two standard welcome lines as its whole history.
    pub open spec fn is_fresh(self) -> bool {
        &&& self.current_input@ == Seq::<char>::empty()
        &&& self.cursor_position == 0
        &&& self.cursor_chars == 0
        &&& self.pending_output@ == Seq::<char>::empty()
        &&& self.hist_view() == fresh_hist()
    }

    /// A buffer holding the two standard welcome lines.
    pub fn new() -> (s: Self)
        ensures
            s.wf(),
            s.is_fresh(),
            s.history@.len() == 2,
    {
        let mut messages: Vec<String> = Vec::new();
        messages.push("Welcome to Warp Terminal!".to_owned());
        messages.push(
            "Type 'help' for available commands or 'ai <query>' for AI assistance.".to_owned(),
        );
        assert(messages@.len() == 2);
        assert(messages@[0]@ == "Welcome to Warp Terminal!"@);
        assert(messages@[1]@
            == "Type 'help' for available commands or 'ai <query>' for AI assistance."@);
        let s = Self::with_welcome_messages(messages);
        proof {
            assert(s.hist_view() =~= fresh_hist());
        }
        s
    }

    /// The byte index of the cursor within the edited line.
    pub fn get_byte_index(&self) -> (r: usize)
        ensures
            r == self.cursor_position,
    {
        self.cursor_position
    }

    /// Empties the edited line and rests the cursor at its start.
    pub fn clear_input(&mut self)
        requires
            old(self).wf(),
        ensures
            final(self).wf(),
            final(self).current_input@ == Seq::<char>::empty(),
            final(self).cursor_position == 0,
            final(self).cursor_chars == 0,
            final(self).history@ == old(self).history@,
            final(self).pending_output@ == old(self).pending_output@,
    {
        self.current_input = String::new();
        self.cursor_position = 0;
        self.cursor_chars = 0;
        proof {
            assert(self.current_input@.take(0) =~= Seq::<char>::empty());
        }
    }

    /// Inserts `c` at the cursor and moves the cursor past it.
    pub fn add_char(&mut self, c: char)
        requires
            old(self).wf(),
            encode_utf8(old(self).current_input@).len() + 4 <= usize::MAX,
        ensures
            final(self).wf(),
            final(self).current_input@ == old(self).current_input@.take(
                old(self).cursor_chars as int,
            ) + seq![c] + old(self).current_input@.skip(old(self).cursor_chars as int),
            final(self).cursor_chars == old(self).cursor_chars + 1,
            final(self).cursor_position == old(self).cursor_position + encode_scalar(
                c as u32,
            ).len(),
            is_char_boundary(
                encode_utf8(final(self).current_input@),
                final(self).cursor_position as int,
            ),
            final(self).history@ == old(self).history@,
            final(self).pending_output@ == old(self).pending_output@,
    {
        let ghost input0 = self.current_input@;
        let ghost cc0 = self.cursor_chars as int;
        proof {
            lemma_encode_utf8_len(input0);
        }
        let cc = self.cursor_chars;
        let n = self.current_input.as_str().unicode_len();
        let pre = self.current_input.as_str().substring_char(0, cc);
        let post = self.current_input.as_str().substring_char(cc, n);
        let mut s = pre.to_owned();
        let cstr = char_to_string(c);
        let w = cstr.as_str().len();
        proof {
            lemma_encode_utf8_singleton(c);
            char_is_scalar(c);
        }
        s.append(cstr.as_str());
        s.append(post);
        proof {
            assert(s@ =~= input0.take(cc0) + seq![c] + input0.skip(cc0));
            assert(input0.subrange(0, cc0) =~= input0.take(cc0));
            assert(input0.subrange(cc0, input0.len() as int) =~= input0.skip(cc0));
        }
        self.current_input = s;
        self.cursor_chars = cc + 1;
        proof {
            lemma_encode_utf8_prefix(input0, cc0);
            lemma_encode_utf8_len(input0.skip(cc0));
            assert(self.cursor_position + w <= usize::MAX);
        }
        self.cursor_position = self.cursor_position + w;
        proof {
            let input1 = self.current_input@;
            assert(input1.take(cc0 + 1) =~= input0.take(cc0) + seq![c]);
            lemma_encode_utf8_concat(input0.take(cc0), seq![c]);
            assert(encode_utf8(input1.take(cc0 + 1)).len() == self.cursor_position);
            assert(input1 =~= input1.take(cc0 + 1) + input0.skip(cc0));
            lemma_encode_utf8_concat(input1.take(cc0 + 1), input0.skip(cc0));
            lemma_encode_utf8_prefix(input0, cc0);
            assert(encode_utf8(input1).len() == encode_utf8(input0).len() + encode_scalar(
                c as u32,
            ).len());
            self.lemma_cursor_at_char_boundary();
        }
    }

    /// Removes the character before the cursor; at the line's start this is
    /// a no-op, not an error.
    pub fn backspace(&mut self)
        requires
            old(self).wf(),
        ensures
            final(self).wf(),
            old(self).cursor_position == 0 ==> *final(self) == *old(self),
            old(self).cursor_position != 0 ==> {
                &&& final(self).current_input@ == old(self).current_input@.take(
                    old(self).cursor_chars - 1,
                ) + old(self).current_input@.skip(old(self).cursor_chars as int)
                &&& final(self).cursor_chars == old(self).cursor_chars - 1
                &&& final(self).cursor_position == old(self).cursor_position - encode_scalar(
                    old(self).current_input@[old(self).cursor_chars - 1] as u32,
                ).len()
            },
            is_char_boundary(
                encode_utf8(final(self).current_input@),
                final(self).cursor_position as int,
            ),
            final(self).history@ == old(self).history@,
            final(self).pending_output@ == old(self).pending_output@,
    {
        proof {
            old(self).lemma_cursor_at_char_boundary();
        }
        if self.cursor_position > 0 {
            let ghost input0 = self.current_input@;
            let ghost cc0 = self.cursor_chars as int;
            proof {
                if cc0 == 0 {
                    assert(input0.take(0) =~= Seq::<char>::empty());
                }
            }
            let cc = self.cursor_chars;
            let n = self.current_input.as_str().unicode_len();
            let prev = self.current_input.as_str().get_char(cc - 1);
            let w = char_utf8_len(prev);
            let pre = self.current_input.as_str().substring_char(0, cc - 1);
            let post = self.current_input.as_str().substring_char(cc, n);
            let mut s = pre.to_owned();
            s.append(post);
            proof {
                assert(input0.subrange(0, cc0 - 1) =~= input0.take(cc0 - 1));
                assert(input0.subrange(cc0, input0.len() as int) =~= input0.skip(cc0));
                assert(s@ =~= input0.take(cc0 - 1) + input0.skip(cc0));
                assert(input0.take(cc0) =~= input0.take(cc0 - 1) + seq![input0[cc0 - 1]]);
                lemma_encode_utf8_concat(input0.take(cc0 - 1), seq![input0[cc0 - 1]]);
                lemma_encode_utf8_singleton(input0[cc0 - 1]);
                assert(self.cursor_position >= w);
            }
            self.current_input = s;
            self.cursor_chars = cc - 1;
            self.cursor_position = self.cursor_position - w;
            proof {
                let input1 = self.current_input@;
                assert(input1.take(cc0 - 1) =~= input0.take(cc0 - 1));
                lemma_encode_utf8_concat(input0.take(cc0 - 1), input0.skip(cc0));
                lemma_encode_utf8_prefix(input0, cc0);
                lemma_encode_utf8_concat(input0.take(cc0), input0.skip(cc0));
                self.lemma_cursor_at_char_boundary();
            }
        }
    }

    /// The cursor's byte offset always falls on a UTF-8 character boundary
    /// of the edited line's encoding.
    pub proof fn lemma_cursor_at_char_boundary(self)
        requires
            self.wf(),
        ensures
            is_char_boundary(encode_utf8(self.current_input@), self.cursor_position as int),
    {
        let s = self.current_input@;
        let cc = self.cursor_chars as int;
        assert(s =~= s.take(cc) + s.skip(cc));
        lemma_boundary_between_encodings(s.take(cc), s.skip(cc));
    }

    /// However many lines are appended, the history never outgrows its bound.
    pub proof fn lemma_history_bounded(self)
        requires
            self.wf(),
        ensures
            self.history@.len() <= HISTORY_CAPACITY,
    {
    }

    /// Appends one line to the history, evicting the oldest line if the
    /// buffer is full.
    pub fn add_history_entry(&mut self, entry: String)
        requires
            old(self).wf(),
        ensures
            final(self).wf(),
            final(self).hist_view() == push_evict(old(self).hist_view(), entry@),
            final(self).current_input@ == old(self).current_input@,
            final(self).cursor_position == old(self).cursor_position,
            final(self).cursor_chars == old(self).cursor_chars,
            final(self).pending_output@ == old(self).pending_output@,
    {
        self.history.push_back(entry);
        if self.history.len() > HISTORY_CAPACITY {
            self.history.pop_front();
            proof {
                let h = old(self).hist_view() + seq![entry@];
                assert(self.hist_view() =~= h.skip(1));
                assert(evict(h) =~= h.skip(1));
            }
        } else {
            proof {
                let h = old(self).hist_view() + seq![entry@];
                assert(self.hist_view() =~= h);
                assert(evict(h) =~= h);
            }
        }
    }

    /// Feeds one chunk of process output into the buffer: completed lines go
    /// to the history (evicting the oldest beyond the bound), the open tail
    /// stays pending until its newline arrives. Bytes are decoded as UTF-8
    /// with lossy replacement, never an error.
    pub fn append_output(&mut self, bytes: &[u8])
        requires
            old(self).wf(),
        ensures
            final(self).wf(),
            ({
                let step = output_step(
                    old(self).hist_view(),
                    old(self).pending_output@,
                    lossy_decode_of(bytes@),
                );
                final(self).hist_view() == step.0 && final(self).pending_output@ == step.1
            }),
            valid_utf8(bytes@) ==> lossy_decode_of(bytes@) == decode_utf8(bytes@),
            final(self).current_input@ == old(self).current_input@,
            final(self).cursor_position == old(self).cursor_position,
            final(self).cursor_chars == old(self).cursor_chars,
    {
        let decoded = lossy_decode(bytes);
        let mut stream_s = self.pending_output.clone();
        stream_s.append(decoded.as_str());
        let ghost stream = stream_s@;
        let ghost hist0 = old(self).hist_view();
        let n = stream_s.as_str().unicode_len();
        let mut cur = String::new();
        let mut i: usize = 0;
        proof {
            assert(stream.take(0) =~= Seq::<char>::empty());
            assert(hist0 + complete_lines(stream.take(0)) =~= hist0);
        }
        while i < n
            invariant
                i <= n,
                n == stream.len(),
                stream_s@ == stream,
                self.wf(),
                self.hist_view() == evict(hist0 + complete_lines(stream.take(i as int))),
                cur@ == line_tail(stream.take(i as int)),
                self.current_input@ == old(self).current_input@,
                self.cursor_position == old(self).cursor_position,
                self.cursor_chars == old(self).cursor_chars,
                self.pending_output@ == old(self).pending_output@,
            decreases n - i,
        {
            let c = stream_s.as_str().get_char(i);
            proof {
                assert(stream.take(i + 1) =~= stream.take(i as int) + seq![c]);
                lemma_lines_snoc(stream.take(i as int), c);
            }
            if c == '\n' {
                let ghost hist_before = self.hist_view();
                self.add_history_entry(cur);
                cur = String::new();
                proof {
                    lemma_evict_compose(
                        hist0 + complete_lines(stream.take(i as int)),
                        seq![line_tail(stream.take(i as int))],
                    );
                    assert((hist0 + complete_lines(stream.take(i as int))) + seq![
                        line_tail(stream.take(i as int)),
                    ] =~= hist0 + complete_lines(stream.take(i + 1)));
                    assert(hist_before + seq![line_tail(stream.take(i as int))] =~= evict(
                        hist0 + complete_lines(stream.take(i as int)),
                    ) + seq![line_tail(stream.take(i as int))]);
                }
            } else {
                let cs = char_to_string(c);
                cur.append(cs.as_str());
            }
            i = i + 1;
        }
        proof {
            assert(stream.take(n as int) =~= stream);
            assert(stream =~= old(self).pending_output@ + lossy_decode_of(bytes@));
        }
        self.pending_output = cur;
    }

    /// Applies one routed edit; an insert beyond the byte budget is a no-op.
    pub fn apply_edit(&mut self, op: EditOp)
        requires
            old(self).wf(),
        ensures
            final(self).wf(),
            edit_applied(*old(self), *final(self), op),
    {
        match op {
            EditOp::Insert(c) => {
                if self.current_input.as_str().len() <= usize::MAX - 4 {
                    self.add_char(c);
                }
            },
            EditOp::Backspace => {
                self.backspace();
            },
            EditOp::ClearInput => {
                self.clear_input();
            },
        }
    }

    /// Inserts a pasted text whole at the cursor; a paste the byte budget
    /// cannot take is dropped whole rather than split.
    pub fn insert_text(&mut self, s: &str)
        requires
            old(self).wf(),
        ensures
            final(self).wf(),
            paste_applied(*old(self), *final(self), s@),
    {
        let ghost in0 = self.current_input@;
        let ghost cc0 = self.cursor_chars as int;
        let ghost pos0 = self.cursor_position as int;
        let fits: bool = match crate::text::utf8_len_of_str(s) {
            Some(n) => {
                let input_len = self.current_input.as_str().len();
                input_len <= usize::MAX - 4 && n <= usize::MAX - 4 - input_len
            },
            None => false,
        };
        if !fits {
            return ;
        }
        let n = s.unicode_len();
        let mut i: usize = 0;
        proof {
            assert(s@.take(0) =~= Seq::<char>::empty());
            assert(in0.take(cc0) + s@.take(0) + in0.skip(cc0) =~= in0);
            assert(encode_utf8(Seq::<char>::empty()) =~= Seq::<u8>::empty());
        }
        while i < n
            invariant
                i <= n,
                n == s@.len(),
                self.wf(),
                encode_utf8(in0).len() + encode_utf8(s@).len() + 4 <= usize::MAX,
                self.current_input@ == in0.take(cc0) + s@.take(i as int) + in0.skip(cc0),
                self.cursor_chars == cc0 + i,
                self.cursor_position == pos0 + encode_utf8(s@.take(i as int)).len(),
                self.history@ == old(self).history@,
                self.pending_output@ == old(self).pending_output@,
                0 <= cc0 <= in0.len(),
                pos0 == encode_utf8(in0.take(cc0)).len(),
            decreases n - i,
        {
            let c = s.get_char(i);
            let ghost cur = self.current_input@;
            proof {
                assert(cur =~= in0.take(cc0) + s@.take(i as int) + in0.skip(cc0));
                lemma_encode_utf8_concat(in0.take(cc0) + s@.take(i as int), in0.skip(cc0));
                lemma_encode_utf8_concat(in0.take(cc0), s@.take(i as int));
                lemma_encode_utf8_prefix(s@, i as int);
                lemma_encode_utf8_prefix(in0, cc0);
                assert(in0 =~= in0.take(cc0) + in0.skip(cc0));
                assert(encode_utf8(cur).len() + 4 <= usize::MAX) by {
                    assert(encode_utf8(cur).len() == encode_utf8(in0.take(cc0)).len()
                        + encode_utf8(s@.take(i as int)).len() + encode_utf8(in0.skip(cc0)).len());
                };
            }
            self.add_char(c);
            proof {
                assert(cur.take(cc0 + i) =~= in0.take(cc0) + s@.take(i as int));
                assert(cur.skip(cc0 + i) =~= in0.skip(cc0));
                assert(s@.take(i + 1) =~= s@.take(i as int) + seq![c]);
                assert(self.current_input@ =~= in0.take(cc0) + s@.take(i + 1) + in0.skip(cc0));
                lemma_encode_utf8_concat(s@.take(i as int), seq![c]);
                lemma_encode_utf8_singleton(c);
            }
            i = i + 1;
        }
        proof {
            assert(s@.take(n as int) =~= s@);
        }
    }

    /// Takes the submitted line if it holds anything but whitespace: the
    /// text is handed back and the input line is cleared in the same step,
    /// so no state between submit and clear can be observed. A blank line
    /// submits nothing and changes nothing.
    pub fn submit_input(&mut self) -> (r: Option<String>)
        requires
            old(self).wf(),
        ensures
            final(self).wf(),
            is_blank(old(self).current_input@) ==> r == None::<String> && *final(self) == *old(
                self,
            ),
            !is_blank(old(self).current_input@) ==> {
                &&& r == Some(old(self).current_input)
                &&& final(self).current_input@ == Seq::<char>::empty()
                &&& final(self).cursor_position == 0
                &&& final(self).cursor_chars == 0
                &&& final(self).history@ == old(self).history@
                &&& final(self).pending_output@ == old(self).pending_output@
            },
    {
        let ghost input0 = self.current_input@;
        let n = self.current_input.as_str().unicode_len();
        let mut i: usize = 0;
        let mut found = false;
        while i < n
            invariant
                i <= n,
                n == input0.len(),
                self == old(self),
                self.current_input@ == input0,
                found ==> !is_blank(input0),
                !found ==> forall|j: int| 0 <= j < i ==> is_blank_char(#[trigger] input0[j]),
            decreases n - i,
        {
            let c = self.current_input.as_str().get_char(i);
            if !(c == ' ' || c == '\t' || c == '\r' || c == '\n') {
                found = true;
            }
            i = i + 1;
        }
        if found {
            let mut text = String::new();
            std::mem::swap(&mut text, &mut self.current_input);
            self.cursor_position = 0;
            self.cursor_chars = 0;
            proof {
                assert(self.current_input@.take(0) =~= Seq::<char>::empty());
            }
            Some(text)
        } else {
            assert(is_blank(input0));
            None
        }
    }

    /// An immutable copy of what a renderer needs: the history lines, the
    /// open output line, and the edited line with its cursor.
    pub fn snapshot(&self) -> (v: BufferView)
        ensures
            v.lines@.len() == self.history@.len(),
            forall|i: int| 0 <= i < self.history@.len() ==> v.lines@[i]@ == self.history@[i]@,
            v.current_input@ == self.current_input@,
            v.cursor_position == self.cursor_position,
            v.pending_output@ == self.pending_output@,
    {
        let mut lines: Vec<String> = Vec::new();
        let len = self.history.len();
        let mut i: usize = 0;
        while i < len
            invariant
                i <= len,
                len == self.history@.len(),
                lines@.len() == i,
                forall|j: int| 0 <= j < i ==> lines@[j]@ == self.history@[j]@,
            decreases len - i,
        {
            lines.push(self.history[i].clone());
            i = i + 1;
        }
        BufferView {
            lines,
            current_input: self.current_input.clone(),
            cursor_position: self.cursor_position,
            pending_output: self.pending_output.clone(),
        }
    }

    /// Appends an error line, marked so the renderer can style it apart.
    pub fn add_error(&mut self, error: String)
        requires
            old(self).wf(),
        ensures
            final(self).wf(),
            final(self).hist_view() == push_evict(old(self).hist_view(), "\u{274c} "@ + error@),
            final(self).current_input@ == old(self).current_input@,
            final(self).cursor_position == old(self).cursor_position,
            final(self).cursor_chars == old(self).cursor_chars,
            final(self).pending_output@ == old(self).pending_output@,
    {
        let mut line = "\u{274c} ".to_owned();
        line.append(error.as_str());
        self.add_history_entry(line);
    }
}

} // verus!
