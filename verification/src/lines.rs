//! Newline accounting: how a stretch of text moves the line and column
//! counters.
//!
//! A newline sequence is `\r\n`, a lone `\r` or a lone `\n`; each counts as one
//! line break. Columns count bytes.

use crate::chars::{is_line_break, line_break};
use vstd::prelude::*;

verus! {

/// The byte at `i` is the last byte of a newline sequence of `t`: a line feed,
/// or a carriage return that no line feed follows.
pub open spec fn ends_line(t: Seq<u8>, i: int) -> bool {
    t[i] == '\n' as u8 || (t[i] == '\r' as u8 && !(i + 1 < t.len() && t[i + 1] == '\n' as u8))
}

/// The number of newline sequences of `t` that end among its first `upto`
/// bytes.
pub open spec fn line_ends_before(t: Seq<u8>, upto: int) -> nat
    decreases upto,
{
    if upto <= 0 {
        0
    } else {
        line_ends_before(t, upto - 1) + if ends_line(t, upto - 1) {
            1nat
        } else {
            0nat
        }
    }
}

/// The position just after the last newline byte among the first `upto` bytes
/// of `t`, or 0 where there is none.
pub open spec fn line_start_before(t: Seq<u8>, upto: int) -> int
    decreases upto,
{
    if upto <= 0 {
        0
    } else if is_line_break(t[upto - 1]) {
        upto
    } else {
        line_start_before(t, upto - 1)
    }
}

/// The number of newline sequences in `t`.
pub open spec fn newline_count(t: Seq<u8>) -> nat {
    line_ends_before(t, t.len() as int)
}

/// The length of what follows the last newline sequence of `t`; the length of
/// `t` where it holds none.
pub open spec fn trailing_len(t: Seq<u8>) -> nat {
    (t.len() - line_start_before(t, t.len() as int)) as nat
}

/// A place in the source: the byte offset, and the line and column that the
/// byte at that offset has. All three count from 0.
pub struct Position {
    pub offset: nat,
    pub line: nat,
    pub column: nat,
}

impl Position {
    /// The first byte of the source.
    pub open spec fn start() -> Position {
        Position { offset: 0, line: 0, column: 0 }
    }

    /// The place reached from `self` by consuming `text`: each newline
    /// sequence in it opens a line, and the column is the number of bytes
    /// since the last one.
    pub open spec fn after(self, text: Seq<u8>) -> Position {
        Position {
            offset: self.offset + text.len(),
            line: self.line + newline_count(text),
            column: if newline_count(text) > 0 {
                trailing_len(text)
            } else {
                self.column + text.len()
            },
        }
    }
}

/// The measures of a consumed stretch of text that move the cursor: its
/// length in bytes, the number of newline sequences in it, and the length of
/// what follows the last of them.
#[derive(Clone, Copy, Debug, PartialEq, Eq)]
pub struct Consumed {
    pub len: usize,
    pub newline_count: usize,
    pub trailing_len: usize,
}

impl Consumed {
    /// The three measures are those of `text`.
    pub open spec fn describes(self, text: Seq<u8>) -> bool {
        &&& self.len == text.len()
        &&& self.newline_count == newline_count(text)
        &&& self.trailing_len == trailing_len(text)
    }
}

/// Neither count exceeds the number of bytes looked at.
pub proof fn lemma_line_bounds(t: Seq<u8>, upto: int)
    requires
        0 <= upto,
    ensures
        line_ends_before(t, upto) <= upto,
        0 <= line_start_before(t, upto) <= upto,
    decreases upto,
{
    if upto > 0 {
        lemma_line_bounds(t, upto - 1);
    }
}

/// Text without a newline byte holds no newline sequence, and all of it
/// trails.
pub proof fn lemma_no_line_break(t: Seq<u8>, upto: int)
    requires
        0 <= upto <= t.len(),
        forall|i: int| 0 <= i < upto ==> !is_line_break(#[trigger] t[i]),
    ensures
        line_ends_before(t, upto) == 0,
        line_start_before(t, upto) == 0,
    decreases upto,
{
    if upto > 0 {
        lemma_no_line_break(t, upto - 1);
    }
}

/// The place of the byte at `offset` in `s`: its line is the number of
/// newline sequences before it, its column the number of bytes since the last
/// of them.
pub open spec fn position_at(s: Seq<u8>, offset: int) -> Position {
    Position {
        offset: offset as nat,
        line: newline_count(s.take(offset)),
        column: trailing_len(s.take(offset)),
    }
}

/// The offset lies between the carriage return and the line feed of one
/// newline sequence.
pub open spec fn splits_newline(s: Seq<u8>, offset: int) -> bool {
    0 < offset < s.len() && s[offset - 1] == '\r' as u8 && s[offset] == '\n' as u8
}

/// Text holds a newline sequence exactly where it holds a newline byte.
pub proof fn lemma_newline_iff_line_start(t: Seq<u8>, upto: int)
    requires
        0 <= upto <= t.len(),
    ensures
        line_start_before(t, upto) > 0 <==> (line_ends_before(t, upto) > 0 || splits_newline(
            t,
            upto,
        )),
    decreases upto,
{
    if upto > 0 {
        lemma_newline_iff_line_start(t, upto - 1);
        lemma_line_bounds(t, upto - 1);
    }
}

/// The count of newline sequences among the first `upto` bytes depends on
/// those bytes alone, and on whether a line feed follows a carriage return
/// that is the last of them.
pub proof fn lemma_line_ends_agree(q: Seq<u8>, r: Seq<u8>, upto: int)
    requires
        0 <= upto <= q.len(),
        upto <= r.len(),
        forall|i: int| 0 <= i < upto ==> q[i] == r[i],
        upto > 0 && q[upto - 1] == '\r' as u8 ==> ((upto < q.len() && q[upto] == '\n' as u8) == (
        upto < r.len() && r[upto] == '\n' as u8)),
    ensures
        line_ends_before(q, upto) == line_ends_before(r, upto),
        line_start_before(q, upto) == line_start_before(r, upto),
    decreases upto,
{
    if upto > 0 {
        lemma_line_ends_agree(q, r, upto - 1);
    }
}

/// The counts over a text are those over its first `a` bytes and those over
/// the rest, taken as a text of its own.
pub proof fn lemma_line_ends_split(q: Seq<u8>, a: int, upto: int)
    requires
        0 <= a <= upto <= q.len(),
    ensures
        line_ends_before(q, upto) == line_ends_before(q, a) + line_ends_before(
            q.subrange(a, q.len() as int),
            upto - a,
        ),
        line_start_before(q, upto) == if line_start_before(
            q.subrange(a, q.len() as int),
            upto - a,
        ) > 0 {
            a + line_start_before(q.subrange(a, q.len() as int), upto - a)
        } else {
            line_start_before(q, a)
        },
    decreases upto - a,
{
    let t = q.subrange(a, q.len() as int);
    if upto > a {
        lemma_line_ends_split(q, a, upto - 1);
        lemma_line_bounds(t, upto - 1 - a);
        assert(t[upto - 1 - a] == q[upto - 1]);
        if upto < q.len() {
            assert(t[upto - a] == q[upto]);
        }
    }
}

/// Consuming the text between two offsets leads from the place of the first
/// to the place of the second, unless the first splits a newline sequence.
pub proof fn lemma_position_after(s: Seq<u8>, a: int, b: int)
    requires
        0 <= a <= b <= s.len(),
        !splits_newline(s, a),
    ensures
        position_at(s, a).after(s.subrange(a, b)) == position_at(s, b),
{
    let p = s.take(a);
    let q = s.take(b);
    let t = s.subrange(a, b);
    assert(q.subrange(a, q.len() as int) =~= t);
    lemma_line_ends_split(q, a, b);
    lemma_line_ends_agree(q, p, a);
    lemma_newline_iff_line_start(t, t.len() as int);
    lemma_line_bounds(p, a);
    lemma_line_bounds(t, t.len() as int);
}

/// Measures the bytes of `bytes` from `from` up to `to`.
pub fn measure(bytes: &[u8], from: usize, to: usize) -> (c: Consumed)
    requires
        from <= to <= bytes@.len(),
    ensures
        c.describes(bytes@.subrange(from as int, to as int)),
{
    let ghost t = bytes@.subrange(from as int, to as int);
    let mut count: usize = 0;
    let mut line_start: usize = from;
    let mut i: usize = from;
    while i < to
        invariant
            from <= i <= to <= bytes@.len(),
            t == bytes@.subrange(from as int, to as int),
            count == line_ends_before(t, i - from),
            line_start == from + line_start_before(t, i - from),
            count <= i - from,
            from <= line_start <= i,
        decreases to - i,
    {
        let b = bytes[i];
        assert(t[i - from] == b);
        let followed = i + 1 < to && bytes[i + 1] == '\n' as u8;
        assert(followed == (i - from + 1 < t.len() && t[i - from + 1] == '\n' as u8));
        if b == '\n' as u8 || (b == '\r' as u8 && !followed) {
            count += 1;
        }
        if line_break(b) {
            line_start = i + 1;
        }
        i += 1;
    }
    Consumed { len: to - from, newline_count: count, trailing_len: to - line_start }
}

} // verus!
