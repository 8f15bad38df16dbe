//! Byte classes of the token grammar, and maximal runs of a class.
//!
//! The grammar is stated over the UTF-8 bytes of the source text. Every byte
//! that a rule names is ASCII, so a rule never matches inside a multi-byte
//! character.

use vstd::prelude::*;

verus! {

/// A decimal digit, `0` to `9`.
pub open spec fn is_digit(b: u8) -> bool {
    '0' as u8 <= b <= '9' as u8
}

/// An ASCII letter of either case.
pub open spec fn is_letter(b: u8) -> bool {
    ('a' as u8 <= b <= 'z' as u8) || ('A' as u8 <= b <= 'Z' as u8)
}

/// A byte that may follow the first byte of an identifier: a letter, a digit
/// or an underscore.
pub open spec fn is_word_byte(b: u8) -> bool {
    is_letter(b) || is_digit(b) || b == '_' as u8
}

/// Horizontal whitespace: a space or a tab.
pub open spec fn is_blank(b: u8) -> bool {
    b == ' ' as u8 || b == '\t' as u8
}

/// A byte of a newline sequence: carriage return or line feed.
pub open spec fn is_line_break(b: u8) -> bool {
    b == '\r' as u8 || b == '\n' as u8
}

/// One of the operator characters `- + / * % | & ! ~ = < >`.
pub open spec fn is_operator_byte(b: u8) -> bool {
    ||| b == '-' as u8
    ||| b == '+' as u8
    ||| b == '/' as u8
    ||| b == '*' as u8
    ||| b == '%' as u8
    ||| b == '|' as u8
    ||| b == '&' as u8
    ||| b == '!' as u8
    ||| b == '~' as u8
    ||| b == '=' as u8
    ||| b == '<' as u8
    ||| b == '>' as u8
}

/// The sets of bytes of which the grammar takes maximal runs.
#[derive(Clone, Copy, Debug, PartialEq, Eq)]
pub enum ByteClass {
    /// Decimal digits.
    Digit,
    /// Letters, digits and the underscore.
    Word,
    /// Spaces and tabs.
    Blank,
    /// Operator characters.
    Operator,
    /// Everything that is not part of a newline sequence.
    LineRest,
    /// The tick `'` that fences a raw string.
    Tick,
}

impl ByteClass {
    /// Membership of a byte in the class.
    pub open spec fn has(self, b: u8) -> bool {
        match self {
            ByteClass::Digit => is_digit(b),
            ByteClass::Word => is_word_byte(b),
            ByteClass::Blank => is_blank(b),
            ByteClass::Operator => is_operator_byte(b),
            ByteClass::LineRest => !is_line_break(b),
            ByteClass::Tick => b == '\'' as u8,
        }
    }

    /// Tests a byte for membership in the class.
    pub fn contains(self, b: u8) -> (r: bool)
        ensures
            r == self.has(b),
    {
        match self {
            ByteClass::Digit => digit(b),
            ByteClass::Word => word_byte(b),
            ByteClass::Blank => blank(b),
            ByteClass::Operator => operator_byte(b),
            ByteClass::LineRest => !line_break(b),
            ByteClass::Tick => b == '\'' as u8,
        }
    }
}

/// Tests a byte for [`is_digit`].
pub fn digit(b: u8) -> (r: bool)
    ensures
        r == is_digit(b),
{
    '0' as u8 <= b && b <= '9' as u8
}

/// Tests a byte for [`is_letter`].
pub fn letter(b: u8) -> (r: bool)
    ensures
        r == is_letter(b),
{
    ('a' as u8 <= b && b <= 'z' as u8) || ('A' as u8 <= b && b <= 'Z' as u8)
}

/// Tests a byte for [`is_word_byte`].
pub fn word_byte(b: u8) -> (r: bool)
    ensures
        r == is_word_byte(b),
{
    letter(b) || digit(b) || b == '_' as u8
}

/// Tests a byte for [`is_blank`].
pub fn blank(b: u8) -> (r: bool)
    ensures
        r == is_blank(b),
{
    b == ' ' as u8 || b == '\t' as u8
}

/// Tests a byte for [`is_line_break`].
pub fn line_break(b: u8) -> (r: bool)
    ensures
        r == is_line_break(b),
{
    b == '\r' as u8 || b == '\n' as u8
}

/// Tests a byte for [`is_operator_byte`].
pub fn operator_byte(b: u8) -> (r: bool)
    ensures
        r == is_operator_byte(b),
{
    b == '-' as u8 || b == '+' as u8 || b == '/' as u8 || b == '*' as u8 || b == '%' as u8 || b
        == '|' as u8 || b == '&' as u8 || b == '!' as u8 || b == '~' as u8 || b == '=' as u8 || b
        == '<' as u8 || b == '>' as u8
}

/// The end of the maximal run of `class` that starts at `from`: the first
/// position at or after `from` whose byte is outside the class, or the length
/// of `s` where there is none. It is `from` itself where no run starts.
pub open spec fn run_end(s: Seq<u8>, from: int, class: ByteClass) -> int
    decreases s.len() - from,
{
    if 0 <= from < s.len() && class.has(s[from]) {
        run_end(s, from + 1, class)
    } else {
        from
    }
}

/// [`run_end`] lies between `from` and the end of `s`, every byte before it
/// is in the class, and the byte at it, if any, is not.
pub proof fn lemma_run_end(s: Seq<u8>, from: int, class: ByteClass)
    requires
        0 <= from <= s.len(),
    ensures
        from <= run_end(s, from, class) <= s.len(),
        forall|i: int| from <= i < run_end(s, from, class) ==> class.has(#[trigger] s[i]),
        run_end(s, from, class) < s.len() ==> !class.has(s[run_end(s, from, class)]),
    decreases s.len() - from,
{
    if from < s.len() && class.has(s[from]) {
        lemma_run_end(s, from + 1, class);
    }
}

/// Finds the end of the maximal run of `class` that starts at `from`.
pub fn scan_run(bytes: &[u8], from: usize, class: ByteClass) -> (end: usize)
    requires
        from <= bytes@.len(),
    ensures
        end == run_end(bytes@, from as int, class),
        from <= end <= bytes@.len(),
        forall|i: int| from <= i < end ==> class.has(#[trigger] bytes@[i]),
        end < bytes@.len() ==> !class.has(bytes@[end as int]),
{
    let mut end: usize = from;
    while end < bytes.len() && class.contains(bytes[end])
        invariant
            from <= end <= bytes@.len(),
            run_end(bytes@, from as int, class) == run_end(bytes@, end as int, class),
            forall|i: int| from <= i < end ==> class.has(#[trigger] bytes@[i]),
        decreases bytes@.len() - end,
    {
        end += 1;
    }
    end
}

} // verus!
