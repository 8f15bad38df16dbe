use rune_lexer::lexer::{lex_str, LexError, Lexer};
use rune_lexer::source_span::SourceSpan;
use rune_lexer::token::Token;

fn span<'a>(text: &'a str, offset: usize, len: usize, line: usize, column: usize) -> SourceSpan<'a> {
    SourceSpan {
        span: &text[offset..offset + len],
        full_source_text: text,
        byte_offset: offset,
        line,
        column,
    }
}

fn lexed(text: &str) -> Vec<Token<'_>> {
    lex_str(text).unwrap().into_iter().collect()
}

#[test]
fn empty_input_gives_only_the_end_marker() {
    assert_eq!(lexed(""), vec![Token::EOF]);
    assert_eq!(lexed(" \t "), vec![Token::EOF]);
    assert_eq!(lexed("# nothing here"), vec![Token::EOF]);
}

#[test]
fn lexer_run_from_the_start_is_lex_str() {
    let text = "var x = 1";
    assert_eq!(Lexer::new(text).lex(), lex_str(text));
}

#[test]
fn keyword_and_identifier_boundary() {
    let text = "var";
    assert_eq!(lexed(text), vec![Token::KEY_Var(span(text, 0, 3, 0, 0)), Token::EOF]);
    let text = "variable";
    assert_eq!(lexed(text), vec![Token::Identifier(span(text, 0, 8, 0, 0)), Token::EOF]);
    let text = "va";
    assert_eq!(lexed(text), vec![Token::Identifier(span(text, 0, 2, 0, 0)), Token::EOF]);
    let text = "Var";
    assert_eq!(lexed(text), vec![Token::Identifier(span(text, 0, 3, 0, 0)), Token::EOF]);
    let text = "var_";
    assert_eq!(lexed(text), vec![Token::Identifier(span(text, 0, 4, 0, 0)), Token::EOF]);
}

#[test]
fn every_keyword_has_its_token() {
    let table: Vec<(&str, fn(SourceSpan<'static>) -> Token<'static>)> = vec![
        ("namespace", Token::KEY_Namespace),
        ("pub", Token::KEY_Pub),
        ("unsafe", Token::KEY_Unsafe),
        ("const", Token::KEY_Const),
        ("val", Token::KEY_Val),
        ("var", Token::KEY_Var),
        ("mut", Token::KEY_Mut),
        ("ref", Token::KEY_Ref),
        ("fn", Token::KEY_Fn),
        ("struct", Token::KEY_Struct),
        ("enum", Token::KEY_Enum),
        ("union", Token::KEY_Union),
        ("trait", Token::KEY_Trait),
        ("is", Token::KEY_Is),
        ("if", Token::KEY_If),
        ("else", Token::KEY_Else),
        ("loop", Token::KEY_Loop),
        ("while", Token::KEY_While),
        ("until", Token::KEY_Until),
        ("for", Token::KEY_For),
        ("in", Token::KEY_In),
        ("break", Token::KEY_Break),
        ("continue", Token::KEY_Continue),
        ("return", Token::KEY_Return),
        ("as", Token::KEY_As),
        ("alias", Token::KEY_Alias),
        ("type", Token::KEY_Type),
    ];
    for (word, make) in table {
        assert_eq!(lexed(word), vec![make(span(word, 0, word.len(), 0, 0)), Token::EOF]);
    }
}

#[test]
fn real_literal_is_one_token() {
    let text = "12.3";
    assert_eq!(lexed(text), vec![Token::LIT_Real(span(text, 0, 4, 0, 0)), Token::EOF]);
}

#[test]
fn period_without_digits_after_it_ends_an_integer() {
    let text = "12.";
    assert_eq!(
        lexed(text),
        vec![Token::LIT_Int(span(text, 0, 2, 0, 0)), Token::Period(span(text, 2, 1, 0, 2)), Token::EOF]
    );
    let text = "12.3.4";
    assert_eq!(
        lexed(text),
        vec![
            Token::LIT_Real(span(text, 0, 4, 0, 0)),
            Token::Period(span(text, 4, 1, 0, 4)),
            Token::LIT_Int(span(text, 5, 1, 0, 5)),
            Token::EOF
        ]
    );
    let text = "7.x";
    assert_eq!(
        lexed(text),
        vec![
            Token::LIT_Int(span(text, 0, 1, 0, 0)),
            Token::Period(span(text, 1, 1, 0, 1)),
            Token::Identifier(span(text, 2, 1, 0, 2)),
            Token::EOF
        ]
    );
}

#[test]
fn each_newline_sequence_is_one_token() {
    let text = "a\r\nb\rc\nd\n\n";
    assert_eq!(
        lexed(text),
        vec![
            Token::Identifier(span(text, 0, 1, 0, 0)),
            Token::NewLine(span(text, 1, 2, 0, 1)),
            Token::Identifier(span(text, 3, 1, 1, 0)),
            Token::NewLine(span(text, 4, 1, 1, 1)),
            Token::Identifier(span(text, 5, 1, 2, 0)),
            Token::NewLine(span(text, 6, 1, 2, 1)),
            Token::Identifier(span(text, 7, 1, 3, 0)),
            Token::NewLine(span(text, 8, 1, 3, 1)),
            Token::NewLine(span(text, 9, 1, 4, 0)),
            Token::EOF
        ]
    );
}

#[test]
fn identifier_after_three_newlines_is_on_line_three() {
    let text = "var\n \n   \n hello";
    let tokens = lexed(text);
    assert_eq!(tokens[4], Token::Identifier(span(text, 11, 5, 3, 1)));
    let newlines = tokens.iter().filter(|t| matches!(t, Token::NewLine(_))).count();
    assert_eq!(newlines, 3);
}

#[test]
fn unknown_byte_is_reported() {
    assert_eq!(lex_str("\0"), Err(LexError::UnknownText { line: 1, column: 0 }));
    assert_eq!(lex_str("a\n  ?"), Err(LexError::UnknownText { line: 2, column: 2 }));
    assert_eq!(lex_str("var x ^ y"), Err(LexError::UnknownText { line: 1, column: 6 }));
    assert_eq!(lex_str("x;"), Err(LexError::UnknownText { line: 1, column: 1 }));
}

#[test]
fn text_outside_ascii_is_unknown_but_passes_in_comments_and_strings() {
    assert_eq!(lex_str("é"), Err(LexError::UnknownText { line: 1, column: 0 }));
    assert_eq!(lex_str("aé"), Err(LexError::UnknownText { line: 1, column: 1 }));
    let text = "# é\nx";
    assert_eq!(
        lexed(text),
        vec![Token::NewLine(span(text, 4, 1, 0, 4)), Token::Identifier(span(text, 5, 1, 1, 0)), Token::EOF]
    );
    let text = "#: é";
    assert_eq!(lexed(text), vec![Token::DocComment(span(text, 0, 5, 0, 0)), Token::EOF]);
    let text = "\"é\"x";
    assert_eq!(
        lexed(text),
        vec![Token::LIT_String(span(text, 0, 4, 0, 0)), Token::Identifier(span(text, 4, 1, 0, 4)), Token::EOF]
    );
    let text = "'\"日本\"'x";
    assert_eq!(
        lexed(text),
        vec![Token::LIT_RawString(span(text, 0, 10, 0, 0)), Token::Identifier(span(text, 10, 1, 0, 10)), Token::EOF]
    );
    let text = "\"\\é\"";
    assert_eq!(lexed(text), vec![Token::LIT_String(span(text, 0, 5, 0, 0)), Token::EOF]);
}

#[test]
fn unterminated_string_is_reported_with_its_opening() {
    let text = "x \"abc";
    assert_eq!(lex_str(text), Err(LexError::UnterminatedStringLiteral(span(text, 2, 1, 0, 2))));
    let text = "\"";
    assert_eq!(lex_str(text), Err(LexError::UnterminatedStringLiteral(span(text, 0, 1, 0, 0))));
    let text = "a\n\"abc\\\"";
    assert_eq!(lex_str(text), Err(LexError::UnterminatedStringLiteral(span(text, 2, 1, 1, 0))));
}

#[test]
fn unterminated_raw_string_is_reported_with_its_fence() {
    let text = "''\"abc\"'";
    assert_eq!(lex_str(text), Err(LexError::UnterminatedStringLiteral(span(text, 0, 3, 0, 0))));
    let text = " '\"";
    assert_eq!(lex_str(text), Err(LexError::UnterminatedStringLiteral(span(text, 1, 2, 0, 1))));
}

#[test]
fn quote_after_a_quote_does_not_open_the_closing_fence() {
    let text = "'\"a\"\"'";
    assert_eq!(lex_str(text), Err(LexError::UnterminatedStringLiteral(span(text, 0, 2, 0, 0))));
    let text = "'\"a\"\"'b\"'";
    assert_eq!(lexed(text), vec![Token::LIT_RawString(span(text, 0, 9, 0, 0)), Token::EOF]);
}

#[test]
fn tick_without_quote_is_unknown() {
    assert_eq!(lex_str("'a"), Err(LexError::UnknownText { line: 1, column: 0 }));
    assert_eq!(lex_str("''"), Err(LexError::UnknownText { line: 1, column: 0 }));
}

#[test]
fn generic_identifier_needs_a_letter_after_the_underscore() {
    let text = "_a1_b";
    assert_eq!(lexed(text), vec![Token::IdentifierGeneric(span(text, 0, 5, 0, 0)), Token::EOF]);
    assert_eq!(lex_str("_"), Err(LexError::UnknownText { line: 1, column: 0 }));
    assert_eq!(lex_str("_1"), Err(LexError::UnknownText { line: 1, column: 0 }));
    assert_eq!(lex_str("__a"), Err(LexError::UnknownText { line: 1, column: 0 }));
}

#[test]
fn string_over_several_lines_moves_line_and_column() {
    let text = "\"a\nbc\"d";
    assert_eq!(
        lexed(text),
        vec![Token::LIT_String(span(text, 0, 6, 0, 0)), Token::Identifier(span(text, 6, 1, 1, 3)), Token::EOF]
    );
    let text = "x \"a\r\nb\r\" c";
    assert_eq!(
        lexed(text),
        vec![
            Token::Identifier(span(text, 0, 1, 0, 0)),
            Token::LIT_String(span(text, 2, 7, 0, 2)),
            Token::Identifier(span(text, 10, 1, 2, 2)),
            Token::EOF
        ]
    );
    let text = "'\"\n\n\"'y";
    assert_eq!(
        lexed(text),
        vec![Token::LIT_RawString(span(text, 0, 6, 0, 0)), Token::Identifier(span(text, 6, 1, 2, 2)), Token::EOF]
    );
}

#[test]
fn escaped_quote_does_not_close_but_escaped_backslash_lets_the_quote_close() {
    let text = "var\"Suddenly there's \\\"a string!\"hello";
    let tokens = lexed(text);
    assert_eq!(tokens[1], Token::LIT_String(span(text, 3, 30, 0, 3)));
    assert_eq!(tokens[1].source_span().unwrap().span, "\"Suddenly there's \\\"a string!\"");
    assert_eq!(tokens[2], Token::Identifier(span(text, 33, 5, 0, 33)));
    let text = "\"a\\\\\"b";
    assert_eq!(
        lexed(text),
        vec![Token::LIT_String(span(text, 0, 5, 0, 0)), Token::Identifier(span(text, 5, 1, 0, 5)), Token::EOF]
    );
}

#[test]
fn fence_of_two_ticks_is_not_closed_by_one() {
    let text = "''\"a\"'b\"''c";
    assert_eq!(
        lexed(text),
        vec![Token::LIT_RawString(span(text, 0, 10, 0, 0)), Token::Identifier(span(text, 10, 1, 0, 10)), Token::EOF]
    );
    let text = "'''\"x\"''y\"'''";
    assert_eq!(lexed(text), vec![Token::LIT_RawString(span(text, 0, 13, 0, 0)), Token::EOF]);
}

#[test]
fn comment_kinds() {
    let text = "a # x";
    assert_eq!(lexed(text), vec![Token::Identifier(span(text, 0, 1, 0, 0)), Token::EOF]);
    let text = "#:";
    assert_eq!(lexed(text), vec![Token::DocComment(span(text, 0, 2, 0, 0)), Token::EOF]);
    let text = "#";
    assert_eq!(lexed(text), vec![Token::EOF]);
    let text = "# a #: b\r\n#: c # d\r";
    assert_eq!(
        lexed(text),
        vec![
            Token::NewLine(span(text, 8, 2, 0, 8)),
            Token::DocComment(span(text, 10, 8, 1, 0)),
            Token::NewLine(span(text, 18, 1, 1, 8)),
            Token::EOF
        ]
    );
}

#[test]
fn operator_takes_the_whole_run_and_punctuation_stays_single() {
    let text = "a<=b";
    assert_eq!(
        lexed(text),
        vec![
            Token::Identifier(span(text, 0, 1, 0, 0)),
            Token::Operator(span(text, 1, 2, 0, 1)),
            Token::Identifier(span(text, 3, 1, 0, 3)),
            Token::EOF
        ]
    );
    let text = "->::..";
    assert_eq!(
        lexed(text),
        vec![
            Token::Operator(span(text, 0, 2, 0, 0)),
            Token::Colon(span(text, 2, 1, 0, 2)),
            Token::Colon(span(text, 3, 1, 0, 3)),
            Token::Period(span(text, 4, 1, 0, 4)),
            Token::Period(span(text, 5, 1, 0, 5)),
            Token::EOF
        ]
    );
}
