use rune_lexer::boundary::slice_text;
use rune_lexer::chars::{blank, digit, letter, line_break, operator_byte, scan_run, word_byte, ByteClass};
use rune_lexer::decimal::decimal_string;
use rune_lexer::grammar::{classify_word, punctuation, scan_lexeme, Scan};
use rune_lexer::lines::{measure, Consumed};
use rune_lexer::literal::{lex_raw_string_literal, lex_string_literal, RawScanner, RawStage, StringStage};
use rune_lexer::token::TokenKind;

fn consumed(len: usize, newline_count: usize, trailing_len: usize) -> Consumed {
    Consumed { len, newline_count, trailing_len }
}

#[test]
fn byte_classes() {
    for b in 0..=255u8 {
        let c = b as char;
        assert_eq!(digit(b), c.is_ascii_digit());
        assert_eq!(letter(b), c.is_ascii_alphabetic());
        assert_eq!(word_byte(b), c.is_ascii_alphanumeric() || c == '_');
        assert_eq!(blank(b), c == ' ' || c == '\t');
        assert_eq!(line_break(b), c == '\r' || c == '\n');
        assert_eq!(operator_byte(b), b < 128 && "-+/*%|&!~=<>".contains(c));
        assert_eq!(ByteClass::Digit.contains(b), digit(b));
        assert_eq!(ByteClass::Word.contains(b), word_byte(b));
        assert_eq!(ByteClass::Blank.contains(b), blank(b));
        assert_eq!(ByteClass::Operator.contains(b), operator_byte(b));
        assert_eq!(ByteClass::LineRest.contains(b), !line_break(b));
        assert_eq!(ByteClass::Tick.contains(b), c == '\'');
    }
}

#[test]
fn punctuation_marks() {
    let marks = [
        ('(', TokenKind::LParen),
        (')', TokenKind::RParen),
        ('[', TokenKind::LSquare),
        (']', TokenKind::RSquare),
        ('{', TokenKind::LCurly),
        ('}', TokenKind::RCurly),
        (',', TokenKind::Comma),
        (':', TokenKind::Colon),
        ('@', TokenKind::At),
        ('.', TokenKind::Period),
        ('`', TokenKind::BackTick),
        ('$', TokenKind::Dollar),
    ];
    for b in 0..=255u8 {
        let expected = marks.iter().find(|(c, _)| *c as u32 == b as u32).map(|(_, k)| *k);
        assert_eq!(punctuation(b), expected);
    }
}

#[test]
fn runs_are_maximal() {
    assert_eq!(scan_run(b"123abc", 0, ByteClass::Digit), 3);
    assert_eq!(scan_run(b"123abc", 1, ByteClass::Digit), 3);
    assert_eq!(scan_run(b"123abc", 3, ByteClass::Digit), 3);
    assert_eq!(scan_run(b"123abc", 3, ByteClass::Word), 6);
    assert_eq!(scan_run(b"123abc", 6, ByteClass::Word), 6);
    assert_eq!(scan_run(b"", 0, ByteClass::Blank), 0);
    assert_eq!(scan_run(b"# x\r\ny", 0, ByteClass::LineRest), 3);
    assert_eq!(scan_run(b"'''\"", 0, ByteClass::Tick), 3);
}

#[test]
fn measures_count_newline_sequences_and_what_trails() {
    assert_eq!(measure(b"abc", 0, 3), consumed(3, 0, 3));
    assert_eq!(measure(b"abc", 1, 1), consumed(0, 0, 0));
    assert_eq!(measure(b"a\r\nb\rc", 0, 6), consumed(6, 2, 1));
    assert_eq!(measure(b"a\r", 0, 2), consumed(2, 1, 0));
    assert_eq!(measure(b"a\r\n", 0, 2), consumed(2, 1, 0));
    assert_eq!(measure(b"\n\r\r\n\n", 0, 5), consumed(5, 4, 0));
    assert_eq!(measure(b"xx\nabc\ndefg", 1, 11), consumed(10, 2, 4));
}

#[test]
fn quoted_string_scanner() {
    assert_eq!(lex_string_literal(b"\"abc\" rest", 0), Some(consumed(5, 0, 5)));
    assert_eq!(lex_string_literal(b"x\"a\"", 1), Some(consumed(3, 0, 3)));
    assert_eq!(lex_string_literal(b"\"\"", 0), Some(consumed(2, 0, 2)));
    assert_eq!(lex_string_literal(b"\"a\nbc\"", 0), Some(consumed(6, 1, 3)));
    assert_eq!(lex_string_literal(b"\"a\\\"b\"c", 0), Some(consumed(6, 0, 6)));
    assert_eq!(lex_string_literal(b"\"a\\\\\"b\"", 0), Some(consumed(5, 0, 5)));
    assert_eq!(lex_string_literal(b"\"abc", 0), None);
    assert_eq!(lex_string_literal(b"\"abc\\\"", 0), None);
    assert_eq!(lex_string_literal(b"\"", 0), None);
    assert_eq!(lex_string_literal(b"\"", 1), None);
    assert_eq!(lex_string_literal(b"ab\"", 0), Some(consumed(3, 0, 3)));
}

#[test]
fn quoted_string_machine_steps() {
    assert_eq!(StringStage::Escaped.step(b'"'), StringStage::Plain);
    assert_eq!(StringStage::Escaped.step(b'\\'), StringStage::Plain);
    assert_eq!(StringStage::Plain.step(b'\\'), StringStage::Escaped);
    assert_eq!(StringStage::Plain.step(b'"'), StringStage::Closed);
    assert_eq!(StringStage::Plain.step(b'a'), StringStage::Plain);
    assert_eq!(StringStage::Closed.step(b'a'), StringStage::Closed);
    assert!(StringStage::Closed.is_closed());
    assert!(!StringStage::Plain.is_closed());
    assert!(!StringStage::Escaped.is_closed());
}

#[test]
fn raw_string_scanner() {
    assert_eq!(lex_raw_string_literal(b"'\"a\"'", 0), Some(consumed(5, 0, 5)));
    assert_eq!(lex_raw_string_literal(b"'\"a\"'b", 0), Some(consumed(5, 0, 5)));
    assert_eq!(lex_raw_string_literal(b"x''\"a\"'b\"''", 1), Some(consumed(10, 0, 10)));
    assert_eq!(lex_raw_string_literal(b"'\"a\nb\n\"'", 0), Some(consumed(8, 2, 2)));
    assert_eq!(lex_raw_string_literal(b"'\"\"'", 0), Some(consumed(4, 0, 4)));
    assert_eq!(lex_raw_string_literal(b"''\"a\"'", 0), None);
    assert_eq!(lex_raw_string_literal(b"'\"a\"\"'", 0), None);
    assert_eq!(lex_raw_string_literal(b"'''", 0), None);
    assert_eq!(lex_raw_string_literal(b"", 0), None);
    assert_eq!(lex_raw_string_literal(b"\"a\"'", 0), None);
}

#[test]
fn raw_string_machine_steps() {
    let start = RawScanner::new();
    assert_eq!(start, RawScanner { stage: RawStage::Opening, fence: 0, ticks: 0 });
    let one = start.step(b'\'');
    assert_eq!(one, RawScanner { stage: RawStage::Opening, fence: 1, ticks: 0 });
    let two = one.step(b'\'');
    assert_eq!(two, RawScanner { stage: RawStage::Opening, fence: 2, ticks: 0 });
    let body = two.step(b'"');
    assert_eq!(body, RawScanner { stage: RawStage::Body, fence: 2, ticks: 0 });
    assert_eq!(body.step(b'\''), body);
    assert_eq!(body.step(b'x'), body);
    let closing = body.step(b'"');
    assert_eq!(closing, RawScanner { stage: RawStage::Closing, fence: 2, ticks: 0 });
    let half = closing.step(b'\'');
    assert_eq!(half, RawScanner { stage: RawStage::Closing, fence: 2, ticks: 1 });
    assert_eq!(half.step(b'x'), RawScanner { stage: RawStage::Body, fence: 2, ticks: 0 });
    assert_eq!(half.step(b'"'), RawScanner { stage: RawStage::Body, fence: 2, ticks: 0 });
    let closed = half.step(b'\'');
    assert_eq!(closed, RawScanner { stage: RawStage::Closed, fence: 2, ticks: 2 });
    assert_eq!(closed.step(b'x'), closed);
    assert!(closed.is_closed());
    assert!(!half.is_closed());
}

#[test]
fn words_are_classified() {
    assert_eq!(classify_word(b"var", 0, 3), TokenKind::KEY_Var);
    assert_eq!(classify_word(b"variable", 0, 8), TokenKind::Identifier);
    assert_eq!(classify_word(b"variable", 0, 3), TokenKind::KEY_Var);
    assert_eq!(classify_word(b" fn(", 1, 3), TokenKind::KEY_Fn);
    assert_eq!(classify_word(b"continue", 0, 8), TokenKind::KEY_Continue);
    assert_eq!(classify_word(b"Continue", 0, 8), TokenKind::Identifier);
    assert_eq!(classify_word(b"", 0, 0), TokenKind::Identifier);
}

#[test]
fn lexemes_by_rule() {
    assert_eq!(scan_lexeme(b"\r\nx", 0), Scan::Token(TokenKind::NewLine, consumed(2, 1, 0)));
    assert_eq!(scan_lexeme(b"\rx", 0), Scan::Token(TokenKind::NewLine, consumed(1, 1, 0)));
    assert_eq!(scan_lexeme(b"\n\n", 0), Scan::Token(TokenKind::NewLine, consumed(1, 1, 0)));
    assert_eq!(scan_lexeme(b"#: doc\n", 0), Scan::Token(TokenKind::DocComment, consumed(6, 0, 6)));
    assert_eq!(scan_lexeme(b"# doc\n", 0), Scan::Skipped(consumed(5, 0, 5)));
    assert_eq!(scan_lexeme(b"x \t y", 1), Scan::Skipped(consumed(3, 0, 3)));
    assert_eq!(scan_lexeme(b"((", 0), Scan::Token(TokenKind::LParen, consumed(1, 0, 1)));
    assert_eq!(scan_lexeme(b"+=:", 0), Scan::Token(TokenKind::Operator, consumed(2, 0, 2)));
    assert_eq!(scan_lexeme(b"12.5x", 0), Scan::Token(TokenKind::LIT_Real, consumed(4, 0, 4)));
    assert_eq!(scan_lexeme(b"12.x", 0), Scan::Token(TokenKind::LIT_Int, consumed(2, 0, 2)));
    assert_eq!(scan_lexeme(b"12", 0), Scan::Token(TokenKind::LIT_Int, consumed(2, 0, 2)));
    assert_eq!(scan_lexeme(b"1.", 0), Scan::Token(TokenKind::LIT_Int, consumed(1, 0, 1)));
    assert_eq!(scan_lexeme(b"\"a\nb\"", 0), Scan::Token(TokenKind::LIT_String, consumed(5, 1, 2)));
    assert_eq!(scan_lexeme(b"\"a", 0), Scan::Unterminated(1));
    assert_eq!(scan_lexeme(b"''\"a\"''", 0), Scan::Token(TokenKind::LIT_RawString, consumed(7, 0, 7)));
    assert_eq!(scan_lexeme(b"''\"a\"'", 0), Scan::Unterminated(3));
    assert_eq!(scan_lexeme(b"''a", 0), Scan::Unknown);
    assert_eq!(scan_lexeme(b"while1 ", 0), Scan::Token(TokenKind::Identifier, consumed(6, 0, 6)));
    assert_eq!(scan_lexeme(b"while ", 0), Scan::Token(TokenKind::KEY_While, consumed(5, 0, 5)));
    assert_eq!(scan_lexeme(b"_T1 ", 0), Scan::Token(TokenKind::IdentifierGeneric, consumed(3, 0, 3)));
    assert_eq!(scan_lexeme(b"_", 0), Scan::Unknown);
    assert_eq!(scan_lexeme(b"_9", 0), Scan::Unknown);
    assert_eq!(scan_lexeme(b"\0", 0), Scan::Unknown);
    assert_eq!(scan_lexeme(b"\xc3\xa9", 0), Scan::Unknown);
}

#[test]
fn text_is_sliced_at_byte_offsets() {
    assert_eq!(slice_text("héllo", 1, 3), "é");
    assert_eq!(slice_text("héllo", 0, 6), "héllo");
    assert_eq!(slice_text("héllo", 3, 3), "");
    assert_eq!(slice_text("héllo", 3, 5), "ll");
}

#[test]
fn decimal_numerals() {
    assert_eq!(decimal_string(0), "0");
    assert_eq!(decimal_string(7), "7");
    assert_eq!(decimal_string(10), "10");
    assert_eq!(decimal_string(909), "909");
    assert_eq!(decimal_string(1234567890), "1234567890");
    assert_eq!(decimal_string(u128::MAX), "340282366920938463463374607431768211455");
}
