use rune_lexer::lexer::{lex_str, LexError};
use rune_lexer::token::Token;

const PROGRAM: &str = "namespace demo # a sample\r\n#: adds two numbers\npub fn add(_T a, _T b) {\n\treturn a + b * 12.5 - 7\n}\nval s = \"line one\nline \\\"two\\\"\" @\n''\"raw \"' text\"''\n";

fn is_skipped(gap: &str) -> bool {
    let mut rest = gap;
    while !rest.is_empty() {
        if rest.starts_with(' ') || rest.starts_with('\t') {
            rest = &rest[1..];
        } else if rest.starts_with('#') && !rest.starts_with("#:") {
            let end = rest.find(|c| c == '\r' || c == '\n').unwrap_or(rest.len());
            rest = &rest[end..];
        } else {
            return false;
        }
    }
    true
}

#[test]
fn tokens_are_ordered_and_end_with_eof() {
    let tokens = lex_str("var a = b + 12.5 # done").unwrap();
    assert_eq!(tokens[tokens.len() - 1], Token::EOF);
    let mut previous_end = 0;
    let mut previous_offset = None;
    for token in tokens.iter().take(tokens.len() - 1) {
        let span = token.source_span().unwrap();
        assert_ne!(*token, Token::EOF);
        assert!(!span.span.is_empty());
        assert!(span.byte_offset >= previous_end);
        if let Some(offset) = previous_offset {
            assert!(span.byte_offset > offset);
        }
        previous_offset = Some(span.byte_offset);
        previous_end = span.byte_offset + span.span.len();
    }
}

#[test]
fn only_whitespace_and_comments_lie_between_tokens() {
    let tokens = lex_str(PROGRAM).unwrap();
    let mut previous_end = 0;
    for token in tokens.iter() {
        match token.source_span() {
            Some(span) => {
                assert!(is_skipped(&PROGRAM[previous_end..span.byte_offset]));
                assert_eq!(&PROGRAM[span.byte_offset..span.byte_offset + span.span.len()], span.span);
                previous_end = span.byte_offset + span.span.len();
            }
            None => assert!(is_skipped(&PROGRAM[previous_end..])),
        }
    }
}

#[test]
fn lexemes_put_together_give_the_source_back() {
    let tokens = lex_str(PROGRAM).unwrap();
    let mut rebuilt = String::new();
    let mut previous_end = 0;
    for token in tokens.iter() {
        if let Some(span) = token.source_span() {
            rebuilt.push_str(&span.full_source_text[previous_end..span.byte_offset]);
            rebuilt.push_str(span.span);
            previous_end = span.byte_offset + span.span.len();
        }
    }
    rebuilt.push_str(&PROGRAM[previous_end..]);
    assert_eq!(rebuilt, PROGRAM);
}

#[test]
fn lexing_twice_gives_the_same_tokens() {
    assert_eq!(lex_str(PROGRAM), lex_str(PROGRAM));
    let copy = String::from(PROGRAM);
    assert_eq!(lex_str(PROGRAM), lex_str(&copy[..]));
    assert_eq!(lex_str("a ?"), lex_str("a ?"));
    assert_eq!(lex_str("a ?"), Err(LexError::UnknownText { line: 1, column: 2 }));
}

#[test]
fn lines_and_columns_are_those_of_the_offsets() {
    let tokens = lex_str(PROGRAM).unwrap();
    for token in tokens.iter() {
        if let Some(span) = token.source_span() {
            let before = &PROGRAM.as_bytes()[..span.byte_offset];
            let mut line = 0;
            let mut line_start = 0;
            for (i, b) in before.iter().enumerate() {
                if *b == b'\n' || (*b == b'\r' && before.get(i + 1) != Some(&b'\n')) {
                    line += 1;
                }
                if *b == b'\n' || *b == b'\r' {
                    line_start = i + 1;
                }
            }
            assert_eq!(span.line, line);
            assert_eq!(span.column, span.byte_offset - line_start);
        }
    }
}
