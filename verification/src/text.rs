//! Text foundations: UTF-8 encoding facts, conversion helpers, and the
//! newline-splitting model used by the screen buffer.

use vstd::prelude::*;
use vstd::utf8::*;

verus! {

broadcast use vstd::utf8::group_utf8_lib;

/// The UTF-8 encoding of a concatenation is the concatenation of the
/// encodings.
pub proof fn lemma_encode_utf8_concat(a: Seq<char>, b: Seq<char>)
    ensures
        encode_utf8(a + b) == encode_utf8(a) + encode_utf8(b),
    decreases a.len(),
{
    if a.len() == 0 {
        assert(a + b =~= b);
        assert(encode_utf8(a) =~= Seq::<u8>::empty());
        assert(encode_utf8(a) + encode_utf8(b) =~= encode_utf8(b));
    } else {
        lemma_encode_utf8_concat(a.drop_first(), b);
        assert((a + b).drop_first() =~= a.drop_first() + b);
        assert((a + b)[0] == a[0]);
        assert(encode_utf8(a + b) == encode_scalar(a[0] as u32) + (encode_utf8(a.drop_first())
            + encode_utf8(b)));
        assert(encode_scalar(a[0] as u32) + (encode_utf8(a.drop_first()) + encode_utf8(b))
            =~= (encode_scalar(a[0] as u32) + encode_utf8(a.drop_first())) + encode_utf8(b));
    }
}

/// A single character encodes to exactly its scalar encoding.
pub proof fn lemma_encode_utf8_singleton(c: char)
    ensures
        encode_utf8(seq![c]) == encode_scalar(c as u32),
{
    assert(seq![c].drop_first() =~= Seq::<char>::empty());
    assert(encode_utf8(seq![c]) =~= encode_scalar(c as u32) + encode_utf8(Seq::<char>::empty()));
    assert(encode_scalar(c as u32) + Seq::<u8>::empty() =~= encode_scalar(c as u32));
}

/// Each character takes between one and four bytes, so the whole encoding is
/// bounded both ways by the character count.
pub proof fn lemma_encode_utf8_len(s: Seq<char>)
    ensures
        s.len() <= encode_utf8(s).len() <= 4 * s.len(),
    decreases s.len(),
{
    if s.len() > 0 {
        lemma_encode_utf8_len(s.drop_first());
        char_is_scalar(s[0]);
    }
}

/// The encoding of a prefix is a prefix of the encoding.
pub proof fn lemma_encode_utf8_prefix(s: Seq<char>, i: int)
    requires
        0 <= i <= s.len(),
    ensures
        encode_utf8(s.take(i)).len() <= encode_utf8(s).len(),
        encode_utf8(s) == encode_utf8(s.take(i)) + encode_utf8(s.skip(i)),
{
    assert(s =~= s.take(i) + s.skip(i));
    lemma_encode_utf8_concat(s.take(i), s.skip(i));
}

/// The first byte of a scalar's encoding is a leading byte, never a
/// continuation byte.
pub proof fn lemma_encode_scalar_first_byte(u: u32)
    requires
        is_scalar(u),
    ensures
        !is_continuation_byte(encode_scalar(u)[0]),
{
    if has_width_1_encoding(u) {
        assert(!is_continuation_byte(leading_byte_width_1(u))) by (bit_vector);
    } else if has_width_2_encoding(u) {
        assert(!is_continuation_byte(leading_byte_width_2(u))) by (bit_vector);
    } else if has_width_3_encoding(u) {
        assert(!is_continuation_byte(leading_byte_width_3(u))) by (bit_vector);
    } else {
        assert(!is_continuation_byte(leading_byte_width_4(u))) by (bit_vector);
    }
}

/// Where one character sequence's encoding ends and another's begins is a
/// character boundary of the combined byte sequence.
pub proof fn lemma_boundary_between_encodings(a: Seq<char>, b: Seq<char>)
    ensures
        is_char_boundary(encode_utf8(a + b), encode_utf8(a).len() as int),
{
    lemma_encode_utf8_concat(a, b);
    let bytes = encode_utf8(a + b);
    let i = encode_utf8(a).len() as int;
    assert(valid_utf8(bytes));
    if b.len() == 0 {
        assert(encode_utf8(b) =~= Seq::<u8>::empty());
        assert(i == bytes.len());
    } else {
        char_is_scalar(b[0]);
        lemma_encode_utf8_len(b);
        assert(encode_utf8(b)[0] == encode_scalar(b[0] as u32)[0]) by {
            assert(encode_utf8(b) == encode_scalar(b[0] as u32) + encode_utf8(b.drop_first()));
            char_is_scalar(b[0]);
            lemma_encode_scalar_len(b[0] as u32);
        }
        assert(bytes[i] == encode_utf8(b)[0]);
        lemma_encode_scalar_first_byte(b[0] as u32);
        assert(0 <= i < bytes.len()) by {
            lemma_encode_utf8_len(b);
        }
        is_char_boundary_iff_not_is_continuation_byte(bytes, i);
    }
}

/// A scalar's encoding is one to four bytes long.
pub proof fn lemma_encode_scalar_len(u: u32)
    requires
        is_scalar(u),
    ensures
        1 <= encode_scalar(u).len() <= 4,
{
}

/// The number of bytes `c` occupies in UTF-8.
pub fn char_utf8_len(c: char) -> (n: usize)
    ensures
        n == encode_scalar(c as u32).len(),
        1 <= n <= 4,
{
    proof {
        char_is_scalar(c);
    }
    let u = c as u32;
    if u < 0x80 {
        1
    } else if u < 0x800 {
        2
    } else if u < 0x10000 {
        3
    } else {
        4
    }
}

/// The UTF-8 encoding of one character, computed bit by bit and proved equal
/// to the specification-level encoding.
pub fn char_utf8_bytes(c: char) -> (v: Vec<u8>)
    ensures
        v@ == encode_scalar(c as u32),
{
    proof {
        char_is_scalar(c);
    }
    let u = c as u32;
    let mut v: Vec<u8> = Vec::new();
    if u < 0x80 {
        v.push(u as u8);
        proof {
            assert(u as u8 == leading_byte_width_1(u)) by (bit_vector)
                requires
                    u < 0x80,
            ;
            assert(v@ =~= encode_scalar(u));
        }
    } else if u < 0x800 {
        v.push((0xC0 | ((u >> 6) & 0x1F)) as u8);
        v.push((0x80 | (u & 0x3F)) as u8);
        proof {
            assert((0xC0 | ((u >> 6) & 0x1F)) as u8 == leading_byte_width_2(u) && (0x80 | (u
                & 0x3F)) as u8 == last_continuation_byte(u)) by (bit_vector);
            assert(v@ =~= encode_scalar(u));
        }
    } else if u < 0x10000 {
        v.push((0xE0 | ((u >> 12) & 0x0F)) as u8);
        v.push((0x80 | ((u >> 6) & 0x3F)) as u8);
        v.push((0x80 | (u & 0x3F)) as u8);
        proof {
            assert((0xE0 | ((u >> 12) & 0x0F)) as u8 == leading_byte_width_3(u) && (0x80 | ((u >> 6)
                & 0x3F)) as u8 == second_last_continuation_byte(u) && (0x80 | (u & 0x3F)) as u8
                == last_continuation_byte(u)) by (bit_vector);
            assert(v@ =~= encode_scalar(u));
        }
    } else {
        v.push((0xF0 | ((u >> 18) & 0x07)) as u8);
        v.push((0x80 | ((u >> 12) & 0x3F)) as u8);
        v.push((0x80 | ((u >> 6) & 0x3F)) as u8);
        v.push((0x80 | (u & 0x3F)) as u8);
        proof {
            assert((0xF0 | ((u >> 18) & 0x07)) as u8 == leading_byte_width_4(u) && (0x80 | ((u
                >> 12) & 0x3F)) as u8 == third_last_continuation_byte(u) && (0x80 | ((u >> 6)
                & 0x3F)) as u8 == second_last_continuation_byte(u) && (0x80 | (u & 0x3F)) as u8
                == last_continuation_byte(u)) by (bit_vector);
            assert(v@ =~= encode_scalar(u));
        }
    }
    v
}

/// The byte length of `s`'s UTF-8 encoding, summed character by character;
/// `None` when the sum would not fit the machine word (impossible for a real
/// string, but nothing here assumes that).
pub fn utf8_len_of_str(s: &str) -> (r: Option<usize>)
    ensures
        match r {
            Some(n) => n == encode_utf8(s@).len(),
            None => encode_utf8(s@).len() > usize::MAX,
        },
{
    let n = s.unicode_len();
    let mut acc: usize = 0;
    let mut i: usize = 0;
    proof {
        assert(s@.take(0) =~= Seq::<char>::empty());
    }
    while i < n
        invariant
            i <= n,
            n == s@.len(),
            acc == encode_utf8(s@.take(i as int)).len(),
        decreases n - i,
    {
        let c = s.get_char(i);
        let w = char_utf8_len(c);
        proof {
            assert(s@.take(i + 1) =~= s@.take(i as int) + seq![c]);
            lemma_encode_utf8_concat(s@.take(i as int), seq![c]);
            lemma_encode_utf8_singleton(c);
        }
        if w > usize::MAX - acc {
            proof {
                lemma_encode_utf8_prefix(s@, i + 1);
            }
            return None;
        }
        acc = acc + w;
        i = i + 1;
    }
    proof {
        assert(s@.take(n as int) =~= s@);
    }
    Some(acc)
}

/// Relies on `char::to_string`: the returned string holds exactly the one
/// character it was called on.
#[verifier::external_body]
pub fn char_to_string(c: char) -> (s: String)
    ensures
        s@ == seq![c],
{
    c.to_string()
}

/// What `String::from_utf8_lossy` returns on an arbitrary byte sequence:
/// a character sequence depending on the bytes alone.
pub uninterp spec fn lossy_decode_of(bytes: Seq<u8>) -> Seq<char>;

/// Relies on `String::from_utf8_lossy`: valid UTF-8 decodes to exactly its
/// characters; invalid sequences are replaced, depending on the bytes alone.
#[verifier::external_body]
pub fn lossy_decode(bytes: &[u8]) -> (r: String)
    ensures
        r@ == lossy_decode_of(bytes@),
        valid_utf8(bytes@) ==> r@ == decode_utf8(bytes@),
        bytes@.len() == 0 ==> r@.len() == 0,
{
    String::from_utf8_lossy(bytes).into_owned()
}

/// What follows the last newline of `s`: the still-open line.
pub open spec fn line_tail(s: Seq<char>) -> Seq<char>
    decreases s.len(),
{
    if s.len() == 0 {
        seq![]
    } else if s.last() == '\n' {
        seq![]
    } else {
        line_tail(s.drop_last()) + seq![s.last()]
    }
}

/// The newline-terminated lines of `s`, in order, without their newlines.
pub open spec fn complete_lines(s: Seq<char>) -> Seq<Seq<char>>
    decreases s.len(),
{
    if s.len() == 0 {
        seq![]
    } else if s.last() == '\n' {
        complete_lines(s.drop_last()) + seq![line_tail(s.drop_last())]
    } else {
        complete_lines(s.drop_last())
    }
}

/// Appending a character other than a newline extends the open line and
/// completes nothing; appending a newline closes the open line.
pub proof fn lemma_lines_snoc(s: Seq<char>, c: char)
    ensures
        c != '\n' ==> complete_lines(s + seq![c]) == complete_lines(s),
        c != '\n' ==> line_tail(s + seq![c]) == line_tail(s) + seq![c],
        c == '\n' ==> complete_lines(s + seq![c]) == complete_lines(s) + seq![line_tail(s)],
        c == '\n' ==> line_tail(s + seq![c]) == Seq::<char>::empty(),
{
    let t = s + seq![c];
    assert(t.drop_last() =~= s);
    assert(t.last() == c);
}

/// Splitting a stream fed in two chunks equals splitting it fed at once:
/// the completed lines and the open tail depend only on the concatenation.
pub proof fn lemma_lines_concat(a: Seq<char>, b: Seq<char>)
    ensures
        complete_lines(a + b) == complete_lines(a) + complete_lines(line_tail(a) + b),
        line_tail(a + b) == line_tail(line_tail(a) + b),
    decreases b.len(),
{
    if b.len() == 0 {
        assert(a + b =~= a);
        assert(line_tail(a) + b =~= line_tail(a));
        lemma_line_tail_idempotent(a);
        assert(complete_lines(a) + complete_lines(line_tail(a)) =~= complete_lines(a));
    } else {
        let b0 = b.drop_last();
        let c = b.last();
        lemma_lines_concat(a, b0);
        assert(a + b =~= (a + b0) + seq![c]);
        assert(line_tail(a) + b =~= (line_tail(a) + b0) + seq![c]);
        lemma_lines_snoc(a + b0, c);
        lemma_lines_snoc(line_tail(a) + b0, c);
        if c == '\n' {
            assert(complete_lines(a + b) == (complete_lines(a) + complete_lines(line_tail(a) + b0))
                + seq![line_tail(line_tail(a) + b0)]);
            assert((complete_lines(a) + complete_lines(line_tail(a) + b0)) + seq![
                line_tail(line_tail(a) + b0),
            ] =~= complete_lines(a) + (complete_lines(line_tail(a) + b0) + seq![
                line_tail(line_tail(a) + b0),
            ]));
        }
    }
}

/// The open tail has no newline in it, so it splits to itself.
pub proof fn lemma_line_tail_idempotent(s: Seq<char>)
    ensures
        complete_lines(line_tail(s)) == Seq::<Seq<char>>::empty(),
        line_tail(line_tail(s)) == line_tail(s),
    decreases s.len(),
{
    if s.len() == 0 {
    } else if s.last() == '\n' {
    } else {
        lemma_line_tail_idempotent(s.drop_last());
        let u = line_tail(s.drop_last());
        lemma_lines_snoc(u, s.last());
        assert(line_tail(s) =~= u + seq![s.last()]);
        assert(complete_lines(line_tail(s)) == complete_lines(u));
    }
}


} // verus!
