use rune_lexer::lexer::{lex_str, LexError};
use rune_lexer::parser::ParseError;
use rune_lexer::source_span::SourceSpan;
use rune_lexer::token::{Token, TokenKind};

fn sample_span() -> SourceSpan<'static> {
    let text = "a\n\n    var x";
    SourceSpan { span: &text[7..10], full_source_text: text, byte_offset: 7, line: 2, column: 4 }
}

#[test]
fn token_as_text() {
    assert_eq!(Token::KEY_Var(sample_span()).to_string(), "KEY_Var: [2:4]  \tvar");
    assert_eq!(Token::Identifier(sample_span()).to_string(), "Identifier: [2:4]  \tvar");
    assert_eq!(Token::LIT_RawString(sample_span()).to_string(), "LIT_RawString: [2:4]  \tvar");
    assert_eq!(Token::EOF.to_string(), "EOF");
    let tokens = lex_str("x\n  12.5").unwrap();
    assert_eq!(tokens[2].to_string(), "LIT_Real: [1:2]  \t12.5");
}

#[test]
fn token_text_names_the_variant() {
    let tokens = lex_str("namespace _T + 1 \"s\" '\"r\"' #: d\n( ) [ ] { } , : @ . ` $").unwrap();
    for token in tokens.iter() {
        let debug = format!("{:?}", token);
        let name = debug.split('(').next().unwrap();
        assert_eq!(token.kind().label(), name);
        assert!(token.to_string().starts_with(name));
    }
}

#[test]
fn kinds_and_spans_of_tokens() {
    let span = sample_span();
    assert_eq!(Token::new(TokenKind::KEY_Var, span), Token::KEY_Var(span));
    assert_eq!(Token::new(TokenKind::Unknown, span), Token::Unknown(span));
    assert_eq!(Token::new(TokenKind::Reserved, span), Token::Reserved(span));
    assert_eq!(Token::new(TokenKind::Dollar, span), Token::Dollar(span));
    assert_eq!(Token::new(TokenKind::EOF, span), Token::EOF);
    assert_eq!(Token::KEY_Type(span).kind(), TokenKind::KEY_Type);
    assert_eq!(Token::EOF.kind(), TokenKind::EOF);
    assert_eq!(Token::Operator(span).source_span(), Some(span));
    assert_eq!(Token::EOF.source_span(), None);
    assert_eq!(span.text(), "var");
    assert_eq!(TokenKind::LIT_Int.label(), "LIT_Int");
    assert_eq!(TokenKind::EOF.label(), "EOF");
}

#[test]
fn lex_error_as_text() {
    assert_eq!(
        LexError::UnknownText { line: 12, column: 0 }.to_string(),
        "Error: unknown text at line 12 column 0"
    );
    assert_eq!(
        LexError::UnterminatedStringLiteral(sample_span()).to_string(),
        "Error: unterminated string literal at line 3 column 4"
    );
    assert_eq!(lex_str("a\n ?").unwrap_err().to_string(), "Error: unknown text at line 2 column 1");
}

#[test]
fn parse_error_as_text() {
    let with_span = ParseError { message: "Expected expression.".to_string(), source: Some(sample_span()) };
    assert_eq!(with_span.to_string(), "Parse Error [3:4]: Expected expression.");
    let without = ParseError { message: "Expected expression.".to_string(), source: None };
    assert_eq!(without.to_string(), "Parse Error: Expected expression.");
    let edge = SourceSpan { span: "", full_source_text: "", byte_offset: 0, line: usize::MAX, column: 0 };
    let at_limit = ParseError { message: String::new(), source: Some(edge) };
    let expected = format!("Parse Error [{}:0]: ", usize::MAX as u128 + 1);
    assert_eq!(at_limit.to_string(), expected);
}
