//! The token grammar: which rule matches at a position of the source, and
//! how far.
//!
//! The rules are tried in a fixed order and the first that matches wins; a
//! rule takes the longest text that it can, but the rules do not compete for
//! the longest match among themselves. The order matters in three places: a
//! documentation comment is tried before a comment, a real number before an
//! integer, and a keyword before an identifier.

use crate::boundary::{lemma_boundary_after_ascii, lemma_boundary_at_ascii};
use crate::chars::{
    blank, digit, is_blank, is_digit, is_letter, is_line_break, is_operator_byte, letter,
    lemma_run_end, line_break, operator_byte, run_end, scan_run, ByteClass,
};
use crate::lines::{
    lemma_no_line_break, newline_count, splits_newline, trailing_len, Consumed,
};
use crate::literal::{
    lemma_raw_string_end, lemma_string_literal_end, lex_raw_string_literal, lex_string_literal,
    quoted_literal_end, raw_literal_end, RawState, StringStage,
};
use crate::token::TokenKind;
use vstd::prelude::*;
use vstd::string::StringSliceAdditionalSpecFns;
use vstd::utf8::{is_char_boundary, is_char_boundary_start_end_of_seq, valid_utf8};

verus! {

/// What the grammar finds at a position.
pub enum Lexeme {
    /// Text of `len` bytes that becomes a token of `kind`.
    Token { kind: TokenKind, len: nat },
    /// Whitespace or a comment of `len` bytes, which leaves no token.
    Skipped { len: nat },
    /// No rule matches.
    Unknown,
    /// A string literal opens with a delimiter of `opening` bytes and the
    /// input ends before it closes.
    Unterminated { opening: nat },
}

/// The length of the newline sequence that starts at `pos`: 2 for `\r\n`, 1 for
/// a lone `\r` or `\n`, 0 where none starts there.
pub open spec fn newline_len(s: Seq<u8>, pos: int) -> nat {
    if s[pos] == '\r' as u8 {
        if pos + 1 < s.len() && s[pos + 1] == '\n' as u8 {
            2
        } else {
            1
        }
    } else if s[pos] == '\n' as u8 {
        1
    } else {
        0
    }
}

/// The kind of the punctuation mark `b`, where it is one of
/// ``( ) [ ] { } , : @ . ` $``.
pub open spec fn punctuation_kind(b: u8) -> Option<TokenKind> {
    if b == '(' as u8 {
        Some(TokenKind::LParen)
    } else if b == ')' as u8 {
        Some(TokenKind::RParen)
    } else if b == '[' as u8 {
        Some(TokenKind::LSquare)
    } else if b == ']' as u8 {
        Some(TokenKind::RSquare)
    } else if b == '{' as u8 {
        Some(TokenKind::LCurly)
    } else if b == '}' as u8 {
        Some(TokenKind::RCurly)
    } else if b == ',' as u8 {
        Some(TokenKind::Comma)
    } else if b == ':' as u8 {
        Some(TokenKind::Colon)
    } else if b == '@' as u8 {
        Some(TokenKind::At)
    } else if b == '.' as u8 {
        Some(TokenKind::Period)
    } else if b == '`' as u8 {
        Some(TokenKind::BackTick)
    } else if b == '$' as u8 {
        Some(TokenKind::Dollar)
    } else {
        None
    }
}

/// The kind of the reserved word that `word` spells, if it spells one.
pub open spec fn keyword_kind(word: Seq<u8>) -> Option<TokenKind> {
    if word == "namespace".spec_bytes() {
        Some(TokenKind::KEY_Namespace)
    } else if word == "pub".spec_bytes() {
        Some(TokenKind::KEY_Pub)
    } else if word == "unsafe".spec_bytes() {
        Some(TokenKind::KEY_Unsafe)
    } else if word == "const".spec_bytes() {
        Some(TokenKind::KEY_Const)
    } else if word == "val".spec_bytes() {
        Some(TokenKind::KEY_Val)
    } else if word == "var".spec_bytes() {
        Some(TokenKind::KEY_Var)
    } else if word == "mut".spec_bytes() {
        Some(TokenKind::KEY_Mut)
    } else if word == "ref".spec_bytes() {
        Some(TokenKind::KEY_Ref)
    } else if word == "fn".spec_bytes() {
        Some(TokenKind::KEY_Fn)
    } else if word == "struct".spec_bytes() {
        Some(TokenKind::KEY_Struct)
    } else if word == "enum".spec_bytes() {
        Some(TokenKind::KEY_Enum)
    } else if word == "union".spec_bytes() {
        Some(TokenKind::KEY_Union)
    } else if word == "trait".spec_bytes() {
        Some(TokenKind::KEY_Trait)
    } else if word == "is".spec_bytes() {
        Some(TokenKind::KEY_Is)
    } else if word == "if".spec_bytes() {
        Some(TokenKind::KEY_If)
    } else if word == "else".spec_bytes() {
        Some(TokenKind::KEY_Else)
    } else if word == "loop".spec_bytes() {
        Some(TokenKind::KEY_Loop)
    } else if word == "while".spec_bytes() {
        Some(TokenKind::KEY_While)
    } else if word == "until".spec_bytes() {
        Some(TokenKind::KEY_Until)
    } else if word == "for".spec_bytes() {
        Some(TokenKind::KEY_For)
    } else if word == "in".spec_bytes() {
        Some(TokenKind::KEY_In)
    } else if word == "break".spec_bytes() {
        Some(TokenKind::KEY_Break)
    } else if word == "continue".spec_bytes() {
        Some(TokenKind::KEY_Continue)
    } else if word == "return".spec_bytes() {
        Some(TokenKind::KEY_Return)
    } else if word == "as".spec_bytes() {
        Some(TokenKind::KEY_As)
    } else if word == "alias".spec_bytes() {
        Some(TokenKind::KEY_Alias)
    } else if word == "type".spec_bytes() {
        Some(TokenKind::KEY_Type)
    } else {
        None
    }
}

/// The kind of a word: that of the keyword it spells, else an identifier.
pub open spec fn word_kind(word: Seq<u8>) -> TokenKind {
    match keyword_kind(word) {
        Some(kind) => kind,
        None => TokenKind::Identifier,
    }
}

/// A period and at least one digit follow the run of digits that ends at
/// `whole`, so that the run begins a real number literal.
pub open spec fn real_follows(s: Seq<u8>, whole: int) -> bool {
    whole + 1 < s.len() && s[whole] == '.' as u8 && is_digit(s[whole + 1])
}

/// A raw string literal opens at `pos`: the run of ticks there is not empty
/// and a quote follows it.
pub open spec fn raw_string_opens(s: Seq<u8>, pos: int) -> bool {
    let quote = run_end(s, pos, ByteClass::Tick);
    pos < quote < s.len() && s[quote] == '"' as u8
}

/// What the grammar finds at `pos`, a position before the end of `s`. The
/// rules, in the order in which they are tried:
///
/// 1. a newline sequence, `\r\n`, `\r` or `\n`, is a newline token;
/// 2. `#:` opens a documentation comment, which runs up to the next newline
///    sequence or the end of input and is a token;
/// 3. any other `#` opens a comment of the same extent, which is skipped;
/// 4. a run of spaces and tabs is skipped;
/// 5. a punctuation mark is a token of its own kind;
/// 6. a run of operator characters is one operator token;
/// 7. digits, a period and digits are a real number literal;
/// 8. other digits are an integer literal;
/// 9. a quote opens a string literal;
/// 10. ticks and a quote open a raw string literal;
/// 11. a letter, with the letters, digits and underscores after it, is a
///     keyword where it spells one, else an identifier;
/// 12. an underscore, a letter, and the letters, digits and underscores after
///     them are the identifier of a generic parameter;
/// 13. anything else is unknown.
#[verifier::opaque]
pub open spec fn lexeme_at(s: Seq<u8>, pos: int) -> Lexeme
    recommends
        0 <= pos < s.len(),
{
    let b = s[pos];
    if is_line_break(b) {
        Lexeme::Token { kind: TokenKind::NewLine, len: newline_len(s, pos) }
    } else if b == '#' as u8 {
        let len = (run_end(s, pos, ByteClass::LineRest) - pos) as nat;
        if pos + 1 < s.len() && s[pos + 1] == ':' as u8 {
            Lexeme::Token { kind: TokenKind::DocComment, len }
        } else {
            Lexeme::Skipped { len }
        }
    } else if is_blank(b) {
        Lexeme::Skipped { len: (run_end(s, pos, ByteClass::Blank) - pos) as nat }
    } else if punctuation_kind(b) is Some {
        Lexeme::Token { kind: punctuation_kind(b).unwrap(), len: 1 }
    } else if is_operator_byte(b) {
        Lexeme::Token {
            kind: TokenKind::Operator,
            len: (run_end(s, pos, ByteClass::Operator) - pos) as nat,
        }
    } else if is_digit(b) {
        let whole = run_end(s, pos, ByteClass::Digit);
        if real_follows(s, whole) {
            Lexeme::Token {
                kind: TokenKind::LIT_Real,
                len: (run_end(s, whole + 1, ByteClass::Digit) - pos) as nat,
            }
        } else {
            Lexeme::Token { kind: TokenKind::LIT_Int, len: (whole - pos) as nat }
        }
    } else if b == '"' as u8 {
        match quoted_literal_end(s, pos) {
            Some(end) => Lexeme::Token { kind: TokenKind::LIT_String, len: (end - pos) as nat },
            None => Lexeme::Unterminated { opening: 1 },
        }
    } else if raw_string_opens(s, pos) {
        match raw_literal_end(s, pos) {
            Some(end) => Lexeme::Token { kind: TokenKind::LIT_RawString, len: (end - pos) as nat },
            None => Lexeme::Unterminated {
                opening: (run_end(s, pos, ByteClass::Tick) + 1 - pos) as nat,
            },
        }
    } else if is_letter(b) {
        let end = run_end(s, pos + 1, ByteClass::Word);
        Lexeme::Token { kind: word_kind(s.subrange(pos, end)), len: (end - pos) as nat }
    } else if b == '_' as u8 && pos + 1 < s.len() && is_letter(s[pos + 1]) {
        Lexeme::Token {
            kind: TokenKind::IdentifierGeneric,
            len: (run_end(s, pos + 2, ByteClass::Word) - pos) as nat,
        }
    } else {
        Lexeme::Unknown
    }
}

/// The number of bytes that the lexeme takes from the source; for a literal
/// that does not close, those of its opening delimiter.
pub open spec fn lexeme_len(lexeme: Lexeme) -> nat {
    match lexeme {
        Lexeme::Token { kind, len } => len,
        Lexeme::Skipped { len } => len,
        Lexeme::Unknown => 0,
        Lexeme::Unterminated { opening } => opening,
    }
}

/// A lexeme is not empty and lies within the source, and no token that the
/// grammar finds is the end marker. The text of every lexeme but a newline
/// token and a string literal is free of newline bytes.
pub proof fn lemma_lexeme_extent(s: Seq<u8>, pos: int)
    requires
        0 <= pos < s.len(),
    ensures
        !(lexeme_at(s, pos) is Unknown) ==> 1 <= lexeme_len(lexeme_at(s, pos)) <= s.len() - pos,
        lexeme_at(s, pos) matches Lexeme::Skipped { len } ==> forall|i: int|
            pos <= i < pos + len ==> !is_line_break(#[trigger] s[i]),
        lexeme_at(s, pos) matches Lexeme::Token { kind, len } ==> (kind is NewLine || kind
            is LIT_String || kind is LIT_RawString || forall|i: int|
            pos <= i < pos + len ==> !is_line_break(#[trigger] s[i])),
        lexeme_at(s, pos) matches Lexeme::Token { kind, len } ==> !(kind is EOF),
{
    reveal(lexeme_at);
    lemma_run_end(s, pos, ByteClass::LineRest);
    lemma_run_end(s, pos, ByteClass::Blank);
    lemma_run_end(s, pos, ByteClass::Operator);
    lemma_run_end(s, pos, ByteClass::Digit);
    lemma_run_end(s, pos, ByteClass::Tick);
    lemma_run_end(s, pos + 1, ByteClass::Word);
    let whole = run_end(s, pos, ByteClass::Digit);
    if whole + 1 <= s.len() {
        lemma_run_end(s, whole + 1, ByteClass::Digit);
    }
    if pos + 2 <= s.len() {
        lemma_run_end(s, pos + 2, ByteClass::Word);
    }
    lemma_string_literal_end(s, pos, StringStage::Escaped);
    lemma_raw_string_end(s, pos, RawState::start());
}

/// In valid UTF-8 a lexeme that starts between two characters ends between
/// two characters.
pub proof fn lemma_lexeme_boundary(s: Seq<u8>, pos: int)
    requires
        valid_utf8(s),
        0 <= pos < s.len(),
        !(lexeme_at(s, pos) is Unknown),
    ensures
        is_char_boundary(s, pos + lexeme_len(lexeme_at(s, pos))),
{
    reveal(lexeme_at);
    lemma_lexeme_extent(s, pos);
    let end = pos + lexeme_len(lexeme_at(s, pos));
    let b = s[pos];
    if b == '#' as u8 {
        lemma_run_end(s, pos, ByteClass::LineRest);
        if end == s.len() {
            is_char_boundary_start_end_of_seq(s);
        } else {
            lemma_boundary_at_ascii(s, end);
        }
    } else {
        lemma_run_end(s, pos, ByteClass::Blank);
        lemma_run_end(s, pos, ByteClass::Operator);
        lemma_run_end(s, pos, ByteClass::Digit);
        lemma_run_end(s, pos, ByteClass::Tick);
        lemma_run_end(s, pos + 1, ByteClass::Word);
        let whole = run_end(s, pos, ByteClass::Digit);
        if whole + 1 <= s.len() {
            lemma_run_end(s, whole + 1, ByteClass::Digit);
        }
        if pos + 2 <= s.len() {
            lemma_run_end(s, pos + 2, ByteClass::Word);
        }
        lemma_string_literal_end(s, pos, StringStage::Escaped);
        lemma_raw_string_end(s, pos, RawState::start());
        assert(s[end - 1] < 0x80);
        lemma_boundary_after_ascii(s, end - 1);
    }
}

/// A lexeme that is consumed does not end between the carriage return and
/// the line feed of one newline sequence.
pub proof fn lemma_lexeme_unsplit(s: Seq<u8>, pos: int)
    requires
        0 <= pos < s.len(),
        lexeme_at(s, pos) is Token || lexeme_at(s, pos) is Skipped,
    ensures
        !splits_newline(s, pos + lexeme_len(lexeme_at(s, pos))),
{
    reveal(lexeme_at);
    lemma_lexeme_extent(s, pos);
    lemma_string_literal_end(s, pos, StringStage::Escaped);
    lemma_raw_string_end(s, pos, RawState::start());
}

/// What [`scan_lexeme`] found: a [`Lexeme`] with, for text that is consumed,
/// the measures that move the cursor.
#[derive(Clone, Copy, Debug, PartialEq, Eq)]
pub enum Scan {
    /// Text that becomes a token of the kind.
    Token(TokenKind, Consumed),
    /// Whitespace or a comment.
    Skipped(Consumed),
    /// No rule matches.
    Unknown,
    /// A string literal that does not close, with the length of its opening
    /// delimiter.
    Unterminated(usize),
}

impl View for Scan {
    type V = Lexeme;

    open spec fn view(&self) -> Lexeme {
        match self {
            Scan::Token(kind, consumed) => Lexeme::Token { kind: *kind, len: consumed.len as nat },
            Scan::Skipped(consumed) => Lexeme::Skipped { len: consumed.len as nat },
            Scan::Unknown => Lexeme::Unknown,
            Scan::Unterminated(opening) => Lexeme::Unterminated { opening: *opening as nat },
        }
    }
}

impl Scan {
    /// The measures that the scan carries are those of `text`.
    pub open spec fn measures(self, text: Seq<u8>) -> bool {
        match self {
            Scan::Token(_, consumed) => consumed.describes(text),
            Scan::Skipped(consumed) => consumed.describes(text),
            _ => true,
        }
    }

    /// The scan is what the grammar has at `pos` of `s`: the lexeme there,
    /// which lies within `s` and is not empty, with the measures of its text.
    pub open spec fn finds(self, s: Seq<u8>, pos: int) -> bool {
        &&& self@ == lexeme_at(s, pos)
        &&& self.measures(s.subrange(pos, pos + lexeme_len(self@)))
        &&& !(self is Unknown) ==> 1 <= lexeme_len(self@) <= s.len() - pos
    }
}

/// The measures of the bytes from `from` up to `to`, none of which is a
/// newline byte.
fn measure_plain(bytes: &[u8], from: usize, to: usize) -> (c: Consumed)
    requires
        from <= to <= bytes@.len(),
        forall|i: int| from <= i < to ==> !is_line_break(#[trigger] bytes@[i]),
    ensures
        c.describes(bytes@.subrange(from as int, to as int)),
        c.len == to - from,
{
    proof {
        let t = bytes@.subrange(from as int, to as int);
        assert forall|i: int| 0 <= i < t.len() implies !is_line_break(#[trigger] t[i]) by {
            assert(t[i] == bytes@[from + i]);
        }
        lemma_no_line_break(t, t.len() as int);
    }
    Consumed { len: to - from, newline_count: 0, trailing_len: to - from }
}

/// The measures of the newline sequence of `len` bytes at `from`.
fn measure_newline(bytes: &[u8], from: usize, len: usize) -> (c: Consumed)
    requires
        from < bytes@.len(),
        is_line_break(bytes@[from as int]),
        len == newline_len(bytes@, from as int),
    ensures
        c.describes(bytes@.subrange(from as int, from + len)),
        c.len == len,
{
    proof {
        let t = bytes@.subrange(from as int, from + len);
        assert(t[0] == bytes@[from as int]);
        if len == 2 {
            assert(t[1] == bytes@[from + 1]);
        }
        reveal_with_fuel(crate::lines::line_ends_before, 3);
        reveal_with_fuel(crate::lines::line_start_before, 3);
    }
    Consumed { len, newline_count: 1, trailing_len: 0 }
}

/// Whether the bytes from `from` up to `to` spell `word`.
fn spells(bytes: &[u8], from: usize, to: usize, word: &str) -> (r: bool)
    requires
        from <= to <= bytes@.len(),
    ensures
        r == (bytes@.subrange(from as int, to as int) == word.spec_bytes()),
{
    let letters = word.as_bytes();
    if letters.len() != to - from {
        return false;
    }
    let mut i: usize = 0;
    while i < letters.len()
        invariant
            from <= to <= bytes@.len(),
            letters@.len() == to - from,
            letters@ == word.spec_bytes(),
            0 <= i <= letters@.len(),
            forall|j: int| 0 <= j < i ==> bytes@[from + j] == letters@[j],
        decreases letters@.len() - i,
    {
        if bytes[from + i] != letters[i] {
            assert(bytes@.subrange(from as int, to as int)[i as int] != letters@[i as int]);
            return false;
        }
        i += 1;
    }
    assert(bytes@.subrange(from as int, to as int) =~= letters@);
    true
}

/// The kind of the punctuation mark `b`, if it is one.
pub fn punctuation(b: u8) -> (r: Option<TokenKind>)
    ensures
        r == punctuation_kind(b),
{
    if b == '(' as u8 {
        Some(TokenKind::LParen)
    } else if b == ')' as u8 {
        Some(TokenKind::RParen)
    } else if b == '[' as u8 {
        Some(TokenKind::LSquare)
    } else if b == ']' as u8 {
        Some(TokenKind::RSquare)
    } else if b == '{' as u8 {
        Some(TokenKind::LCurly)
    } else if b == '}' as u8 {
        Some(TokenKind::RCurly)
    } else if b == ',' as u8 {
        Some(TokenKind::Comma)
    } else if b == ':' as u8 {
        Some(TokenKind::Colon)
    } else if b == '@' as u8 {
        Some(TokenKind::At)
    } else if b == '.' as u8 {
        Some(TokenKind::Period)
    } else if b == '`' as u8 {
        Some(TokenKind::BackTick)
    } else if b == '$' as u8 {
        Some(TokenKind::Dollar)
    } else {
        None
    }
}

/// The kind of the word that the bytes from `from` up to `to` spell: that of
/// a keyword, else an identifier.
pub fn classify_word(bytes: &[u8], from: usize, to: usize) -> (kind: TokenKind)
    requires
        from <= to <= bytes@.len(),
    ensures
        kind == word_kind(bytes@.subrange(from as int, to as int)),
{
    if spells(bytes, from, to, "namespace") {
        TokenKind::KEY_Namespace
    } else if spells(bytes, from, to, "pub") {
        TokenKind::KEY_Pub
    } else if spells(bytes, from, to, "unsafe") {
        TokenKind::KEY_Unsafe
    } else if spells(bytes, from, to, "const") {
        TokenKind::KEY_Const
    } else if spells(bytes, from, to, "val") {
        TokenKind::KEY_Val
    } else if spells(bytes, from, to, "var") {
        TokenKind::KEY_Var
    } else if spells(bytes, from, to, "mut") {
        TokenKind::KEY_Mut
    } else if spells(bytes, from, to, "ref") {
        TokenKind::KEY_Ref
    } else if spells(bytes, from, to, "fn") {
        TokenKind::KEY_Fn
    } else if spells(bytes, from, to, "struct") {
        TokenKind::KEY_Struct
    } else if spells(bytes, from, to, "enum") {
        TokenKind::KEY_Enum
    } else if spells(bytes, from, to, "union") {
        TokenKind::KEY_Union
    } else if spells(bytes, from, to, "trait") {
        TokenKind::KEY_Trait
    } else if spells(bytes, from, to, "is") {
        TokenKind::KEY_Is
    } else if spells(bytes, from, to, "if") {
        TokenKind::KEY_If
    } else if spells(bytes, from, to, "else") {
        TokenKind::KEY_Else
    } else if spells(bytes, from, to, "loop") {
        TokenKind::KEY_Loop
    } else if spells(bytes, from, to, "while") {
        TokenKind::KEY_While
    } else if spells(bytes, from, to, "until") {
        TokenKind::KEY_Until
    } else if spells(bytes, from, to, "for") {
        TokenKind::KEY_For
    } else if spells(bytes, from, to, "in") {
        TokenKind::KEY_In
    } else if spells(bytes, from, to, "break") {
        TokenKind::KEY_Break
    } else if spells(bytes, from, to, "continue") {
        TokenKind::KEY_Continue
    } else if spells(bytes, from, to, "return") {
        TokenKind::KEY_Return
    } else if spells(bytes, from, to, "as") {
        TokenKind::KEY_As
    } else if spells(bytes, from, to, "alias") {
        TokenKind::KEY_Alias
    } else if spells(bytes, from, to, "type") {
        TokenKind::KEY_Type
    } else {
        TokenKind::Identifier
    }
}

/// The newline sequence at `pos`.
fn scan_newline(bytes: &[u8], pos: usize) -> (r: Scan)
    requires
        pos < bytes@.len(),
        is_line_break(bytes@[pos as int]),
    ensures
        r.finds(bytes@, pos as int),
{
    proof {
        reveal(lexeme_at);
    }
    let n: usize = if bytes[pos] == '\r' as u8 && pos + 1 < bytes.len() && bytes[pos + 1]
        == '\n' as u8 {
        2
    } else {
        1
    };
    Scan::Token(TokenKind::NewLine, measure_newline(bytes, pos, n))
}

/// The comment or documentation comment at `pos`: up to the next newline
/// sequence or the end of input.
fn scan_comment(bytes: &[u8], pos: usize) -> (r: Scan)
    requires
        pos < bytes@.len(),
        bytes@[pos as int] == '#' as u8,
    ensures
        r.finds(bytes@, pos as int),
{
    proof {
        reveal(lexeme_at);
    }
    let end = scan_run(bytes, pos, ByteClass::LineRest);
    let consumed = measure_plain(bytes, pos, end);
    if pos + 1 < bytes.len() && bytes[pos + 1] == ':' as u8 {
        Scan::Token(TokenKind::DocComment, consumed)
    } else {
        Scan::Skipped(consumed)
    }
}

/// The run of `class` at `pos`, as a token of `kind` or, without a kind, as
/// skipped text.
fn scan_class(bytes: &[u8], pos: usize, class: ByteClass, kind: Option<TokenKind>) -> (r: Scan)
    requires
        pos < bytes@.len(),
        class.has(bytes@[pos as int]),
        class is Blank || class is Operator,
    ensures
        r.measures(bytes@.subrange(pos as int, pos + lexeme_len(r@))),
        r@ == match kind {
            Some(kind) => Lexeme::Token {
                kind,
                len: (run_end(bytes@, pos as int, class) - pos) as nat,
            },
            None => Lexeme::Skipped { len: (run_end(bytes@, pos as int, class) - pos) as nat },
        },
        1 <= lexeme_len(r@) <= bytes@.len() - pos,
{
    let end = scan_run(bytes, pos, class);
    let consumed = measure_plain(bytes, pos, end);
    match kind {
        Some(kind) => Scan::Token(kind, consumed),
        None => Scan::Skipped(consumed),
    }
}

/// The number at `pos`: a real number where digits, a period and more digits
/// stand there, else an integer.
fn scan_number(bytes: &[u8], pos: usize) -> (r: Scan)
    requires
        pos < bytes@.len(),
        is_digit(bytes@[pos as int]),
    ensures
        r.finds(bytes@, pos as int),
{
    proof {
        reveal(lexeme_at);
    }
    let len = bytes.len();
    let whole = scan_run(bytes, pos, ByteClass::Digit);
    if whole < len && bytes[whole] == '.' as u8 && whole + 1 < len && digit(bytes[whole + 1]) {
        let end = scan_run(bytes, whole + 1, ByteClass::Digit);
        Scan::Token(TokenKind::LIT_Real, measure_plain(bytes, pos, end))
    } else {
        Scan::Token(TokenKind::LIT_Int, measure_plain(bytes, pos, whole))
    }
}

/// The quoted string literal at `pos`.
fn scan_string(bytes: &[u8], pos: usize) -> (r: Scan)
    requires
        pos < bytes@.len(),
        bytes@[pos as int] == '"' as u8,
    ensures
        r.finds(bytes@, pos as int),
{
    proof {
        reveal(lexeme_at);
    }
    proof {
        lemma_string_literal_end(bytes@, pos as int, StringStage::Escaped);
    }
    match lex_string_literal(bytes, pos) {
        Some(consumed) => Scan::Token(TokenKind::LIT_String, consumed),
        None => Scan::Unterminated(1),
    }
}

/// The raw string literal at `pos`, where ticks and a quote open one.
fn scan_raw_string(bytes: &[u8], pos: usize) -> (r: Scan)
    requires
        pos < bytes@.len(),
        bytes@[pos as int] == '\'' as u8,
    ensures
        r.finds(bytes@, pos as int),
{
    proof {
        reveal(lexeme_at);
    }
    proof {
        lemma_raw_string_end(bytes@, pos as int, RawState::start());
    }
    let quote = scan_run(bytes, pos, ByteClass::Tick);
    if quote < bytes.len() && bytes[quote] == '"' as u8 {
        match lex_raw_string_literal(bytes, pos) {
            Some(consumed) => Scan::Token(TokenKind::LIT_RawString, consumed),
            None => Scan::Unterminated(quote + 1 - pos),
        }
    } else {
        Scan::Unknown
    }
}

/// The keyword or identifier at `pos`.
fn scan_word(bytes: &[u8], pos: usize) -> (r: Scan)
    requires
        pos < bytes@.len(),
        is_letter(bytes@[pos as int]),
    ensures
        r.finds(bytes@, pos as int),
{
    proof {
        reveal(lexeme_at);
    }
    let len = bytes.len();
    let end = scan_run(bytes, pos + 1, ByteClass::Word);
    Scan::Token(classify_word(bytes, pos, end), measure_plain(bytes, pos, end))
}

/// The identifier of a generic parameter at `pos`, where a letter follows
/// the underscore there.
fn scan_generic(bytes: &[u8], pos: usize) -> (r: Scan)
    requires
        pos < bytes@.len(),
        bytes@[pos as int] == '_' as u8,
    ensures
        r.finds(bytes@, pos as int),
{
    proof {
        reveal(lexeme_at);
    }
    let len = bytes.len();
    if pos + 1 < len && letter(bytes[pos + 1]) {
        let end = scan_run(bytes, pos + 2, ByteClass::Word);
        Scan::Token(TokenKind::IdentifierGeneric, measure_plain(bytes, pos, end))
    } else {
        Scan::Unknown
    }
}

/// Finds what the grammar has at `pos`.
pub fn scan_lexeme(bytes: &[u8], pos: usize) -> (r: Scan)
    requires
        pos < bytes@.len(),
    ensures
        r.finds(bytes@, pos as int),
{
    proof {
        reveal(lexeme_at);
    }
    let b = bytes[pos];
    if line_break(b) {
        scan_newline(bytes, pos)
    } else if b == '#' as u8 {
        scan_comment(bytes, pos)
    } else if blank(b) {
        scan_class(bytes, pos, ByteClass::Blank, None)
    } else if let Some(kind) = punctuation(b) {
        Scan::Token(kind, measure_plain(bytes, pos, pos + 1))
    } else if operator_byte(b) {
        scan_class(bytes, pos, ByteClass::Operator, Some(TokenKind::Operator))
    } else if digit(b) {
        scan_number(bytes, pos)
    } else if b == '"' as u8 {
        scan_string(bytes, pos)
    } else if b == '\'' as u8 {
        scan_raw_string(bytes, pos)
    } else if letter(b) {
        scan_word(bytes, pos)
    } else if b == '_' as u8 {
        scan_generic(bytes, pos)
    } else {
        Scan::Unknown
    }
}

} // verus!
