use rune_lexer::source_span::SourceSpan;

#[test]
fn test_merged() {
    let text = "Hello there, how are\n you doing?";
    let span1 = SourceSpan {
        span: &text[0..22],
        full_source_text: text,
        byte_offset: 0,
        line: 0,
        column: 0,
    };
    let span2 = SourceSpan {
        span: &text[23..32],
        full_source_text: text,
        byte_offset: 23,
        line: 1,
        column: 2,
    };

    let span_merged1 = SourceSpan::new_merged(&span1, &span2);
    let span_merged2 = SourceSpan::new_merged(&span2, &span1);

    assert_eq!(span_merged1.span, text);
    assert_eq!(span_merged1.full_source_text, text);
    assert_eq!(span_merged1.byte_offset, 0);
    assert_eq!(span_merged1.line, 0);
    assert_eq!(span_merged1.column, 0);

    assert_eq!(span_merged2.span, text);
    assert_eq!(span_merged2.full_source_text, text);
    assert_eq!(span_merged2.byte_offset, 0);
    assert_eq!(span_merged2.line, 0);
    assert_eq!(span_merged2.column, 0);
}

fn part(text: &str, from: usize, to: usize, line: usize, column: usize) -> SourceSpan<'_> {
    SourceSpan { span: &text[from..to], full_source_text: text, byte_offset: from, line, column }
}

#[test]
fn merged_span_takes_the_position_of_the_one_that_starts_first() {
    let text = "ab\ncd\nef";
    let early = part(text, 1, 4, 0, 1);
    let late = part(text, 6, 8, 2, 0);
    let expected = part(text, 1, 8, 0, 1);
    assert_eq!(SourceSpan::new_merged(&early, &late), expected);
    assert_eq!(SourceSpan::new_merged(&late, &early), expected);
}

#[test]
fn merged_span_of_nested_and_overlapping_spans() {
    let text = "héllo wörld";
    let outer = part(text, 0, 13, 0, 0);
    let inner = part(text, 3, 5, 0, 3);
    assert_eq!(SourceSpan::new_merged(&outer, &inner), outer);
    assert_eq!(SourceSpan::new_merged(&inner, &outer), outer);
    let left = part(text, 1, 7, 0, 1);
    let right = part(text, 4, 10, 0, 4);
    assert_eq!(SourceSpan::new_merged(&left, &right), part(text, 1, 10, 0, 1));
    assert_eq!(SourceSpan::new_merged(&left, &left), left);
}

#[test]
fn merged_span_of_two_that_start_together_is_placed_as_the_first() {
    let text = "abcdef";
    let short = part(text, 2, 3, 5, 6);
    let long = part(text, 2, 6, 7, 8);
    assert_eq!(SourceSpan::new_merged(&short, &long), part(text, 2, 6, 5, 6));
    assert_eq!(SourceSpan::new_merged(&long, &short), part(text, 2, 6, 7, 8));
    let empty = part(text, 6, 6, 0, 6);
    assert_eq!(SourceSpan::new_merged(&empty, &empty), empty);
}

#[test]
fn merged_tokens_of_one_source() {
    let text = "val x = 12.5\n";
    let tokens = rune_lexer::lexer::lex_str(text).unwrap();
    let first = tokens[0].source_span().unwrap();
    let last = tokens[3].source_span().unwrap();
    assert!(first.full_source_text == last.full_source_text);
    let whole = SourceSpan::new_merged(&last, &first);
    assert_eq!(whole.text(), "val x = 12.5");
    assert_eq!((whole.byte_offset, whole.line, whole.column), (0, 0, 0));
}
