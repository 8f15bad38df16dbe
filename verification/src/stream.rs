//! What holds of every token sequence that the lexer returns: the tokens
//! come in the order of the source, nothing but whitespace and comments lies
//! between them, the lexemes put together give the source back, every token
//! carries the line and column of its offset, and the same text always gives
//! the same tokens.

use crate::grammar::{
    lemma_lexeme_extent, lemma_lexeme_unsplit, lexeme_at, lexeme_len, Lexeme,
};
use crate::lexer::{
    kept, lemma_kept_push, lexes_to, segments_from, span_at, tokens_of, LexError, LexErrorView,
    Segment,
};
use crate::lines::{lemma_position_after, position_at, splits_newline, Position};
use crate::source_span::SpanView;
use crate::token::{Token, TokenView};
use std::collections::VecDeque;
use vstd::prelude::*;
use vstd::string::StringSliceAdditionalSpecFns;

verus! {

/// The end of the whitespace and comments that start at `pos`: the place of
/// the next token, or the end of input. It is `pos` where neither starts
/// there.
pub open spec fn trivia_end(s: Seq<u8>, pos: int) -> int
    decreases s.len() - pos,
    via trivia_end_decreases
{
    if 0 <= pos < s.len() {
        match lexeme_at(s, pos) {
            Lexeme::Skipped { len } => trivia_end(s, pos + len),
            _ => pos,
        }
    } else {
        pos
    }
}

#[via_fn]
proof fn trivia_end_decreases(s: Seq<u8>, pos: int) {
    if 0 <= pos < s.len() {
        lemma_lexeme_extent(s, pos);
    }
}

/// The span is a part of `s` that is not empty, at the offset that it gives.
pub open spec fn cut_from(span: SpanView, s: Seq<u8>) -> bool {
    &&& span.source == s
    &&& span.text.len() > 0
    &&& span.end() <= s.len()
    &&& span.text == s.subrange(span.byte_offset as int, span.end() as int)
}

/// Where the token before the `i`-th ends; `from` for the first.
pub open spec fn end_before(tokens: Seq<TokenView>, i: int, from: nat) -> nat {
    if i <= 0 {
        from
    } else {
        tokens[i - 1].span.unwrap().end()
    }
}

/// The `i`-th of `tokens` is a part of `s` and starts where the whitespace
/// and comments end that follow the token before it, or that follow `from`
/// where it is the first.
pub open spec fn placed(tokens: Seq<TokenView>, s: Seq<u8>, from: nat, i: int) -> bool {
    &&& !(tokens[i].kind is EOF)
    &&& tokens[i].span is Some
    &&& cut_from(tokens[i].span.unwrap(), s)
    &&& tokens[i].span.unwrap().byte_offset == trivia_end(s, end_before(tokens, i, from) as int)
}

/// `tokens` are what a lexer that starts at `from` finds in `s`: each is
/// [`placed`], and only whitespace and comments follow the last.
pub open spec fn in_order(tokens: Seq<TokenView>, s: Seq<u8>, from: nat) -> bool {
    &&& forall|i: int| 0 <= i < tokens.len() ==> #[trigger] placed(tokens, s, from, i)
    &&& trivia_end(s, end_before(tokens, tokens.len() as int, from) as int) == s.len()
}

/// `tokens` is a token sequence of `s`: its last token, and no other, is the
/// end marker, and those before it are in the order of the source with
/// nothing but whitespace and comments between them.
pub open spec fn is_token_stream(tokens: Seq<TokenView>, s: Seq<u8>) -> bool {
    &&& tokens.len() > 0
    &&& tokens.last() == TokenView::eof()
    &&& in_order(tokens.drop_last(), s, 0)
}

/// Whitespace and comments are skipped forwards, never past the end.
pub proof fn lemma_trivia_end_bounds(s: Seq<u8>, pos: int)
    requires
        0 <= pos <= s.len(),
    ensures
        pos <= trivia_end(s, pos) <= s.len(),
    decreases s.len() - pos,
{
    if pos < s.len() {
        lemma_lexeme_extent(s, pos);
        match lexeme_at(s, pos) {
            Lexeme::Skipped { len } => {
                lemma_trivia_end_bounds(s, pos + len);
            },
            _ => {},
        }
    }
}

/// The tokens of two runs of segments are those of the first followed by
/// those of the second.
pub proof fn lemma_kept_add(a: Seq<Segment>, b: Seq<Segment>)
    ensures
        kept(a + b) == kept(a) + kept(b),
    decreases b.len(),
{
    if b.len() == 0 {
        assert(a + b =~= a);
        assert(kept(a) + kept(b) =~= kept(a));
    } else {
        lemma_kept_add(a, b.drop_last());
        assert((a + b).drop_last() =~= a + b.drop_last());
        assert((a + b).last() == b.last());
        match b.last().kind {
            Some(kind) => {
                let token = TokenView::spanned(kind, b.last().span);
                assert((kept(a) + kept(b.drop_last())).push(token) =~= kept(a) + kept(
                    b.drop_last(),
                ).push(token));
            },
            None => {},
        }
    }
}

/// The tokens that the lexer finds from `at` on are in the order of the
/// source, and none starts before `at`.
pub proof fn lemma_tokens_in_order(s: Seq<u8>, at: Position)
    requires
        at.offset <= s.len(),
    ensures
        segments_from(s, at) matches Ok(segments) ==> in_order(kept(segments), s, at.offset),
    decreases s.len() - at.offset,
{
    if at.offset < s.len() {
        lemma_lexeme_extent(s, at.offset as int);
        match lexeme_at(s, at.offset as int) {
            Lexeme::Token { kind, len } => {
                let first = Segment { kind: Some(kind), span: span_at(s, at, len) };
                let next = at.after(first.span.text);
                lemma_tokens_in_order(s, next);
                match segments_from(s, next) {
                    Ok(rest) => {
                        let token = TokenView::spanned(kind, first.span);
                        lemma_kept_add(seq![first], rest);
                        lemma_kept_push(Seq::empty(), first);
                        assert(seq![first] =~= Seq::<Segment>::empty().push(first));
                        assert(kept(seq![first]) =~= seq![token]);
                        let tokens = seq![token] + kept(rest);
                        assert(kept(seq![first] + rest) == tokens);
                        assert forall|i: int| 0 <= i < tokens.len() implies #[trigger] placed(
                            tokens,
                            s,
                            at.offset,
                            i,
                        ) by {
                            if i > 0 {
                                assert(placed(kept(rest), s, next.offset, i - 1));
                                assert(tokens[i] == kept(rest)[i - 1]);
                                assert(end_before(tokens, i, at.offset) == end_before(
                                    kept(rest),
                                    i - 1,
                                    next.offset,
                                ));
                            }
                        }
                        assert(end_before(tokens, tokens.len() as int, at.offset) == end_before(
                            kept(rest),
                            kept(rest).len() as int,
                            next.offset,
                        ));
                    },
                    Err(_) => {},
                }
            },
            Lexeme::Skipped { len } => {
                let first = Segment { kind: None, span: span_at(s, at, len) };
                let next = at.after(first.span.text);
                lemma_tokens_in_order(s, next);
                match segments_from(s, next) {
                    Ok(rest) => {
                        lemma_kept_add(seq![first], rest);
                        lemma_kept_push(Seq::empty(), first);
                        assert(seq![first] =~= Seq::<Segment>::empty().push(first));
                        assert(kept(seq![first]) =~= Seq::<TokenView>::empty());
                        assert(kept(seq![first] + rest) =~= kept(rest));
                        let tokens = kept(rest);
                        assert forall|i: int| 0 <= i < tokens.len() implies #[trigger] placed(
                            tokens,
                            s,
                            at.offset,
                            i,
                        ) by {
                            assert(placed(tokens, s, next.offset, i));
                        }
                    },
                    Err(_) => {},
                }
            },
            _ => {},
        }
    }
}

/// Every token sequence that the lexer returns ends with the end marker, and
/// its other tokens are in the order of the source, with nothing but
/// whitespace and comments before, between and after them.
pub proof fn lemma_tokens_of_stream(s: Seq<u8>)
    ensures
        tokens_of(s) matches Ok(tokens) ==> is_token_stream(tokens, s),
{
    lemma_tokens_in_order(s, Position::start());
    match segments_from(s, Position::start()) {
        Ok(segments) => {
            assert(kept(segments).push(TokenView::eof()).drop_last() =~= kept(segments));
        },
        Err(_) => {},
    }
}

/// In a token sequence every token ends before the next one starts: the
/// byte offsets increase strictly and no two tokens overlap.
pub proof fn lemma_stream_increasing(tokens: Seq<TokenView>, s: Seq<u8>, i: int, j: int)
    requires
        is_token_stream(tokens, s),
        0 <= i < j < tokens.len() - 1,
    ensures
        tokens[i].span.unwrap().byte_offset < tokens[i].span.unwrap().end(),
        tokens[i].span.unwrap().end() <= tokens[j].span.unwrap().byte_offset,
    decreases j - i,
{
    let body = tokens.drop_last();
    assert(body[i] == tokens[i] && body[j] == tokens[j]);
    assert(body[j - 1] == tokens[j - 1]);
    assert(placed(body, s, 0, i) && placed(body, s, 0, j) && placed(body, s, 0, j - 1));
    lemma_trivia_end_bounds(s, end_before(body, j, 0) as int);
    if i < j - 1 {
        lemma_stream_increasing(tokens, s, i, j - 1);
    }
}

/// The texts of `segments`, one after the other.
pub open spec fn joined(segments: Seq<Segment>) -> Seq<u8>
    decreases segments.len(),
{
    if segments.len() == 0 {
        Seq::empty()
    } else {
        joined(segments.drop_last()) + segments.last().span.text
    }
}

/// The text of a segment followed by the joined texts of others is the
/// joined text of all of them.
pub proof fn lemma_joined_front(first: Segment, rest: Seq<Segment>)
    ensures
        joined(seq![first] + rest) == first.span.text + joined(rest),
    decreases rest.len(),
{
    if rest.len() == 0 {
        assert(seq![first] + rest =~= seq![first]);
        assert(seq![first].drop_last() =~= Seq::<Segment>::empty());
        assert(joined(seq![first].drop_last()) =~= Seq::<u8>::empty());
        assert(joined(seq![first]) =~= first.span.text);
        assert(first.span.text + joined(rest) =~= first.span.text);
    } else {
        lemma_joined_front(first, rest.drop_last());
        assert((seq![first] + rest).drop_last() =~= seq![first] + rest.drop_last());
        assert((seq![first] + rest).last() == rest.last());
        assert((first.span.text + joined(rest.drop_last())) + rest.last().span.text
            =~= first.span.text + (joined(rest.drop_last()) + rest.last().span.text));
    }
}

/// The lexemes found from `at` on, put together, are the source from `at`
/// on.
pub proof fn lemma_segments_join(s: Seq<u8>, at: Position)
    requires
        at.offset <= s.len(),
    ensures
        segments_from(s, at) matches Ok(segments) ==> joined(segments) == s.subrange(
            at.offset as int,
            s.len() as int,
        ),
    decreases s.len() - at.offset,
{
    if at.offset < s.len() {
        lemma_lexeme_extent(s, at.offset as int);
        let len = crate::grammar::lexeme_len(lexeme_at(s, at.offset as int));
        let kind = match lexeme_at(s, at.offset as int) {
            Lexeme::Token { kind, len } => Some(kind),
            _ => None,
        };
        if lexeme_at(s, at.offset as int) is Token || lexeme_at(s, at.offset as int) is Skipped {
            let first = Segment { kind, span: span_at(s, at, len) };
            let next = at.after(first.span.text);
            lemma_segments_join(s, next);
            match segments_from(s, next) {
                Ok(rest) => {
                    lemma_joined_front(first, rest);
                    assert(first.span.text + s.subrange(next.offset as int, s.len() as int)
                        =~= s.subrange(at.offset as int, s.len() as int));
                },
                Err(_) => {},
            }
        }
    } else {
        assert(s.subrange(at.offset as int, s.len() as int) =~= Seq::<u8>::empty());
    }
}

/// Round trip: where the lexer succeeds, the texts of all the lexemes of a
/// source, those that became tokens and those that were discarded, give the
/// source back when they are put together in order.
pub proof fn lemma_round_trip(s: Seq<u8>)
    ensures
        segments_from(s, Position::start()) matches Ok(segments) ==> joined(segments) == s,
{
    lemma_segments_join(s, Position::start());
    assert(s.subrange(0, s.len() as int) =~= s);
}

/// Lexing is a function of the text: two runs on texts that hold the same
/// characters end alike, in tokens or errors that stand for the same.
pub proof fn lemma_lex_deterministic<'a, 'b>(
    first_text: &'a str,
    first: Result<VecDeque<Token<'a>>, LexError<'a>>,
    second_text: &'b str,
    second: Result<VecDeque<Token<'b>>, LexError<'b>>,
)
    requires
        lexes_to(first_text, first),
        lexes_to(second_text, second),
        first_text@ == second_text@,
    ensures
        match (first, second) {
            (Ok(a), Ok(b)) => a.deep_view() == b.deep_view(),
            (Err(a), Err(b)) => a@ == b@,
            _ => false,
        },
{
}

/// The line and column of the span are those of its offset in its source.
pub open spec fn well_placed(span: SpanView) -> bool {
    &&& span.byte_offset <= span.source.len()
    &&& span.line == position_at(span.source, span.byte_offset as int).line
    &&& span.column == position_at(span.source, span.byte_offset as int).column
}

/// Every token but the end marker has a span that is [`well_placed`].
pub open spec fn all_well_placed(tokens: Seq<TokenView>) -> bool {
    forall|i: int|
        0 <= i < tokens.len() ==> match (#[trigger] tokens[i]).span {
            Some(span) => well_placed(span),
            None => true,
        }
}

/// Tokens keep the spans of their segments, so what holds of every span of
/// the segments holds of every span of the tokens.
pub proof fn lemma_kept_spans(segments: Seq<Segment>, holds: spec_fn(SpanView) -> bool)
    requires
        forall|i: int| 0 <= i < segments.len() ==> holds((#[trigger] segments[i]).span),
    ensures
        forall|i: int|
            0 <= i < kept(segments).len() ==> (#[trigger] kept(segments)[i]).span is Some && holds(
                kept(segments)[i].span.unwrap(),
            ),
    decreases segments.len(),
{
    if segments.len() > 0 {
        assert forall|i: int| 0 <= i < segments.drop_last().len() implies holds(
            (#[trigger] segments.drop_last()[i]).span,
        ) by {
            assert(segments.drop_last()[i] == segments[i]);
        }
        lemma_kept_spans(segments.drop_last(), holds);
    }
}

/// Where the lexer starts at the true place of an offset, every lexeme that
/// it finds, and the error that stops it, carries the true line and column of
/// its own offset.
pub proof fn lemma_segments_well_placed(s: Seq<u8>, at: Position)
    requires
        at.offset <= s.len(),
        at == position_at(s, at.offset as int),
        !splits_newline(s, at.offset as int),
    ensures
        match segments_from(s, at) {
            Ok(segments) => forall|i: int|
                0 <= i < segments.len() ==> well_placed((#[trigger] segments[i]).span),
            Err(LexErrorView::UnknownText { line, column }) => exists|offset: int|
                0 <= offset < s.len() && lexeme_at(s, offset) is Unknown && line == #[trigger] position_at(
                    s,
                    offset,
                ).line + 1 && column == position_at(s, offset).column,
            Err(LexErrorView::UnterminatedStringLiteral(span)) => well_placed(span),
        },
    decreases s.len() - at.offset,
{
    if at.offset < s.len() {
        let pos = at.offset as int;
        lemma_lexeme_extent(s, pos);
        let lexeme = lexeme_at(s, pos);
        if lexeme is Token || lexeme is Skipped {
            let len = lexeme_len(lexeme);
            let kind = match lexeme {
                Lexeme::Token { kind, len } => Some(kind),
                _ => None,
            };
            let first = Segment { kind, span: span_at(s, at, len) };
            let next = at.after(first.span.text);
            lemma_position_after(s, pos, pos + len);
            lemma_lexeme_unsplit(s, pos);
            lemma_segments_well_placed(s, next);
            match segments_from(s, next) {
                Ok(rest) => {
                    let segments = seq![first] + rest;
                    assert forall|i: int| 0 <= i < segments.len() implies well_placed(
                        (#[trigger] segments[i]).span,
                    ) by {
                        if i > 0 {
                            assert(segments[i] == rest[i - 1]);
                        }
                    }
                },
                Err(_) => {},
            }
        } else if lexeme is Unknown {
            assert(at.line + 1 == position_at(s, pos).line + 1);
        }
    }
}

/// Every token of a token sequence that the lexer returns carries the line
/// and column of its offset: the number of newline sequences before it, and
/// the number of bytes between the last of them and it.
pub proof fn lemma_tokens_well_placed(s: Seq<u8>)
    ensures
        tokens_of(s) matches Ok(tokens) ==> all_well_placed(tokens),
{
    assert(s.take(0) =~= Seq::<u8>::empty());
    lemma_segments_well_placed(s, Position::start());
    match segments_from(s, Position::start()) {
        Ok(segments) => {
            lemma_kept_spans(segments, |span: SpanView| well_placed(span));
            let tokens = kept(segments).push(TokenView::eof());
            assert forall|i: int| 0 <= i < tokens.len() implies match (#[trigger] tokens[i]).span {
                Some(span) => well_placed(span),
                None => true,
            } by {
                if i < kept(segments).len() {
                    assert(tokens[i] == kept(segments)[i]);
                }
            }
        },
        Err(_) => {},
    }
}

} // verus!
