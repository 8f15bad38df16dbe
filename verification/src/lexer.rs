//! The lexer: source text in, the sequence of its tokens out.
//!
//! The source is cut into lexemes from left to right, each chosen by the
//! grammar at the place where the one before it ended. Whitespace and
//! comments are consumed and leave no token; every other lexeme becomes a
//! token, and an end marker closes the sequence. Every newline sequence
//! becomes a token of its own: consecutive line breaks are not merged.

use crate::boundary::slice_text;
use crate::decimal::{decimal, decimal_string};
use crate::grammar::{
    lemma_lexeme_boundary, lemma_lexeme_extent, lexeme_at, scan_lexeme, Lexeme, Scan,
};
use crate::lines::{lemma_line_bounds, Consumed, Position};
use crate::source_span::{SourceSpan, SpanView};
use crate::stream::{
    all_well_placed, is_token_stream, lemma_tokens_of_stream, lemma_tokens_well_placed,
};
use crate::token::{Token, TokenKind, TokenView};
use std::collections::VecDeque;
use vstd::prelude::*;
use vstd::string::{StringExecFns, StringSliceAdditionalSpecFns};
use vstd::utf8::{
    encode_utf8_valid_utf8, is_char_boundary, is_char_boundary_start_end_of_seq, valid_utf8,
};

verus! {

/// Why a source text has no token sequence.
#[derive(Eq, PartialEq, Copy, Clone, Debug)]
pub enum LexError<'a> {
    /// No rule of the grammar matches the text at this place. The line counts
    /// from 1, the column from 0.
    UnknownText { line: usize, column: usize },
    /// A string literal or raw string literal is still open where the input
    /// ends. The span is that of its opening delimiter.
    UnterminatedStringLiteral(SourceSpan<'a>),
}

/// What a [`LexError`] stands for.
pub enum LexErrorView {
    UnknownText { line: nat, column: nat },
    UnterminatedStringLiteral(SpanView),
}

impl<'a> View for LexError<'a> {
    type V = LexErrorView;

    open spec fn view(&self) -> LexErrorView {
        match self {
            LexError::UnknownText { line, column } => LexErrorView::UnknownText {
                line: *line as nat,
                column: *column as nat,
            },
            LexError::UnterminatedStringLiteral(span) => LexErrorView::UnterminatedStringLiteral(
                span@,
            ),
        }
    }
}

impl<'a> LexError<'a> {
    /// The span that the error carries, if any, lies in its source as it says.
    pub open spec fn wf(&self) -> bool {
        match self {
            LexError::UnknownText { .. } => true,
            LexError::UnterminatedStringLiteral(span) => span.wf(),
        }
    }

    /// The error as a line of text, with the line counted from 1 and the
    /// column from 0.
    pub open spec fn rendered(&self) -> Seq<char> {
        match self {
            LexError::UnknownText { line, column } => "Error: unknown text at line "@ + decimal(
                *line as nat,
            ) + " column "@ + decimal(*column as nat),
            LexError::UnterminatedStringLiteral(span) =>
                "Error: unterminated string literal at line "@ + decimal(span.line as nat + 1)
                    + " column "@ + decimal(span.column as nat),
        }
    }

    /// Writes the error as a line of text.
    pub fn to_string(&self) -> (r: String)
        ensures
            r@ == self.rendered(),
    {
        match self {
            LexError::UnknownText { line, column } => {
                let mut r = "Error: unknown text at line ".to_owned();
                r.append(decimal_string(*line as u128).as_str());
                r.append(" column ");
                r.append(decimal_string(*column as u128).as_str());
                r
            },
            LexError::UnterminatedStringLiteral(span) => {
                let mut r = "Error: unterminated string literal at line ".to_owned();
                r.append(decimal_string(span.line as u128 + 1).as_str());
                r.append(" column ");
                r.append(decimal_string(span.column as u128).as_str());
                r
            },
        }
    }
}

/// One lexeme of a source: its span, and the kind of the token that it
/// becomes. Whitespace and comments have no kind.
pub struct Segment {
    pub kind: Option<TokenKind>,
    pub span: SpanView,
}

/// The span of the `len` bytes of `s` at `at`.
pub open spec fn span_at(s: Seq<u8>, at: Position, len: nat) -> SpanView {
    SpanView {
        text: s.subrange(at.offset as int, (at.offset + len) as int),
        source: s,
        byte_offset: at.offset,
        line: at.line,
        column: at.column,
    }
}

/// `first` followed by the segments of `rest`, or the error of `rest`.
pub open spec fn segment_then(first: Segment, rest: Result<Seq<Segment>, LexErrorView>) -> Result<
    Seq<Segment>,
    LexErrorView,
> {
    match rest {
        Ok(segments) => Ok(seq![first] + segments),
        Err(error) => Err(error),
    }
}

/// The lexemes of `s` from `at` to the end of input, in order, or the first
/// error met on the way.
pub open spec fn segments_from(s: Seq<u8>, at: Position) -> Result<Seq<Segment>, LexErrorView>
    decreases s.len() - at.offset,
    via segments_from_decreases
{
    if at.offset >= s.len() {
        Ok(Seq::empty())
    } else {
        match lexeme_at(s, at.offset as int) {
            Lexeme::Token { kind, len } => segment_then(
                Segment { kind: Some(kind), span: span_at(s, at, len) },
                segments_from(s, at.after(span_at(s, at, len).text)),
            ),
            Lexeme::Skipped { len } => segment_then(
                Segment { kind: None, span: span_at(s, at, len) },
                segments_from(s, at.after(span_at(s, at, len).text)),
            ),
            Lexeme::Unknown => Err(
                LexErrorView::UnknownText { line: at.line + 1, column: at.column },
            ),
            Lexeme::Unterminated { opening } => Err(
                LexErrorView::UnterminatedStringLiteral(span_at(s, at, opening)),
            ),
        }
    }
}

#[via_fn]
proof fn segments_from_decreases(s: Seq<u8>, at: Position) {
    if at.offset < s.len() {
        lemma_lexeme_extent(s, at.offset as int);
    }
}

/// The tokens that `segments` leave: one for each that has a kind, in order.
pub open spec fn kept(segments: Seq<Segment>) -> Seq<TokenView>
    decreases segments.len(),
{
    if segments.len() == 0 {
        Seq::empty()
    } else {
        let before = kept(segments.drop_last());
        match segments.last().kind {
            Some(kind) => before.push(TokenView::spanned(kind, segments.last().span)),
            None => before,
        }
    }
}

/// The token sequence of the source `s`: the tokens that its lexemes leave,
/// closed by the end marker; or the error that stops the lexer.
pub open spec fn tokens_of(s: Seq<u8>) -> Result<Seq<TokenView>, LexErrorView> {
    match segments_from(s, Position::start()) {
        Ok(segments) => Ok(kept(segments).push(TokenView::eof())),
        Err(error) => Err(error),
    }
}

/// `done` followed by the segments of `rest`, or the error of `rest`.
pub open spec fn segments_then(done: Seq<Segment>, rest: Result<Seq<Segment>, LexErrorView>)
    -> Result<Seq<Segment>, LexErrorView> {
    match rest {
        Ok(segments) => Ok(done + segments),
        Err(error) => Err(error),
    }
}

/// Nothing followed by segments is those segments.
pub proof fn lemma_segments_then_none(rest: Result<Seq<Segment>, LexErrorView>)
    ensures
        segments_then(Seq::empty(), rest) == rest,
{
    match rest {
        Ok(segments) => {
            assert(Seq::<Segment>::empty() + segments =~= segments);
        },
        Err(_) => {},
    }
}

/// A segment may be moved from the front of what follows to the end of what
/// is done.
pub proof fn lemma_segments_then_next(
    done: Seq<Segment>,
    next: Segment,
    rest: Result<Seq<Segment>, LexErrorView>,
)
    ensures
        segments_then(done, segment_then(next, rest)) == segments_then(done.push(next), rest),
{
    match rest {
        Ok(segments) => {
            assert(done + (seq![next] + segments) =~= done.push(next) + segments);
        },
        Err(_) => {},
    }
}

/// Adding a segment at the end adds its token, if it leaves one.
pub proof fn lemma_kept_push(segments: Seq<Segment>, last: Segment)
    ensures
        kept(segments.push(last)) == match last.kind {
            Some(kind) => kept(segments).push(TokenView::spanned(kind, last.span)),
            None => kept(segments),
        },
{
    assert(segments.push(last).drop_last() =~= segments);
}

/// The state of a lexing run: the source, the place that the run has
/// reached, and the tokens found so far.
pub struct Lexer<'a> {
    full_text: &'a str,
    full_len: usize,
    current_byte_offset: usize,
    current_line: usize,
    current_column: usize,
    tokens: VecDeque<Token<'a>>,
}

impl<'a> Lexer<'a> {
    /// The bytes of the source.
    pub closed spec fn source(&self) -> Seq<u8> {
        self.full_text.spec_bytes()
    }

    /// The place that the run has reached.
    pub closed spec fn position(&self) -> Position {
        Position {
            offset: self.current_byte_offset as nat,
            line: self.current_line as nat,
            column: self.current_column as nat,
        }
    }

    /// The tokens found so far.
    pub closed spec fn emitted(&self) -> Seq<TokenView> {
        self.tokens.deep_view()
    }

    /// The place reached lies in the source, between two characters, and the
    /// tokens found so far lie in the source as they say.
    pub closed spec fn wf(&self) -> bool {
        &&& self.full_len == self.source().len()
        &&& self.current_byte_offset <= self.full_len
        &&& self.current_line <= self.current_byte_offset
        &&& self.current_column <= self.current_byte_offset
        &&& is_char_boundary(self.source(), self.current_byte_offset as int)
        &&& forall|i: int| 0 <= i < self.tokens@.len() ==> (#[trigger] self.tokens@[i]).wf()
    }

    /// A run at the start of `text`.
    pub fn new(text: &'a str) -> (lexer: Lexer<'a>)
        ensures
            lexer.wf(),
            lexer.source() == text.spec_bytes(),
            lexer.position() == Position::start(),
            lexer.emitted() == Seq::<TokenView>::empty(),
    {
        let lexer = Lexer {
            full_text: text,
            full_len: text.as_bytes().len(),
            current_byte_offset: 0,
            current_line: 0,
            current_column: 0,
            tokens: VecDeque::new(),
        };
        proof {
            encode_utf8_valid_utf8(text@);
            is_char_boundary_start_end_of_seq(text.spec_bytes());
            assert(lexer.tokens.deep_view() =~= Seq::<TokenView>::empty());
        }
        lexer
    }

    /// The span of the `len` bytes at the place reached.
    fn span_here(&self, len: usize) -> (span: SourceSpan<'a>)
        requires
            self.wf(),
            self.current_byte_offset + len <= self.source().len(),
            is_char_boundary(self.source(), self.current_byte_offset + len),
        ensures
            span@ == span_at(self.source(), self.position(), len as nat),
            span.wf(),
    {
        let from = self.current_byte_offset;
        SourceSpan {
            span: slice_text(self.full_text, from, from + len),
            full_source_text: self.full_text,
            byte_offset: from,
            line: self.current_line,
            column: self.current_column,
        }
    }

    /// Moves the place reached over text with the measures `consumed`.
    fn advance(&mut self, consumed: Consumed, Ghost(text): Ghost<Seq<u8>>)
        requires
            old(self).wf(),
            consumed.describes(text),
            old(self).current_byte_offset + consumed.len <= old(self).source().len(),
            is_char_boundary(old(self).source(), old(self).current_byte_offset + consumed.len),
        ensures
            final(self).wf(),
            final(self).full_text == old(self).full_text,
            final(self).full_len == old(self).full_len,
            final(self).tokens == old(self).tokens,
            final(self).position() == old(self).position().after(text),
    {
        proof {
            lemma_line_bounds(text, text.len() as int);
        }
        self.current_line = self.current_line + consumed.newline_count;
        if consumed.newline_count > 0 {
            self.current_column = consumed.trailing_len;
        } else {
            self.current_column = self.current_column + consumed.len;
        }
        self.current_byte_offset = self.current_byte_offset + consumed.len;
    }

    /// Runs the lexer from the place reached to the end of input. Returns
    /// the tokens found before, then those of the lexemes met, then the end
    /// marker; or the first error met.
    pub fn lex(self) -> (r: Result<VecDeque<Token<'a>>, LexError<'a>>)
        requires
            self.wf(),
        ensures
            match r {
                Ok(tokens) => {
                    &&& segments_from(self.source(), self.position()) matches Ok(segments)
                    &&& tokens.deep_view() == (self.emitted() + kept(segments)).push(
                        TokenView::eof(),
                    )
                    &&& forall|i: int| 0 <= i < tokens@.len() ==> (#[trigger] tokens@[i]).wf()
                },
                Err(error) => {
                    &&& segments_from(self.source(), self.position()) == Err::<
                        Seq<Segment>,
                        LexErrorView,
                    >(error@)
                    &&& error.wf()
                },
            },
    {
        let mut run = self;
        let text = run.full_text;
        let bytes = text.as_bytes();
        let ghost s = run.source();
        let ghost start = run.position();
        let ghost before = run.emitted();
        let ghost mut done: Seq<Segment> = Seq::empty();
        proof {
            encode_utf8_valid_utf8(text@);
            assert(before + kept(done) =~= before);
            lemma_segments_then_none(segments_from(s, start));
        }
        loop
            invariant
                s == self.source(),
                start == self.position(),
                before == self.emitted(),
                run.wf(),
                run.full_text == text,
                bytes@ == s,
                s == text.spec_bytes(),
                valid_utf8(s),
                segments_from(s, start) == segments_then(done, segments_from(s, run.position())),
                run.tokens.deep_view() == before + kept(done),
            decreases s.len() - run.current_byte_offset,
        {
            let at = run.current_byte_offset;
            if at >= run.full_len {
                let ghost found = run.tokens.deep_view();
                run.tokens.push_back(Token::EOF);
                proof {
                    assert(done + Seq::<Segment>::empty() =~= done);
                    assert(run.tokens.deep_view() =~= found.push(TokenView::eof()));
                }
                return Ok(run.tokens);
            }
            let ghost here = run.position();
            match scan_lexeme(bytes, at) {
                Scan::Token(kind, consumed) => {
                    let ghost lexeme_text = s.subrange(at as int, at + consumed.len);
                    let ghost segment = Segment {
                        kind: Some(kind),
                        span: span_at(s, here, consumed.len as nat),
                    };
                    proof {
                        lemma_lexeme_boundary(s, at as int);
                        lemma_lexeme_extent(s, at as int);
                    }
                    let span = run.span_here(consumed.len);
                    let token = Token::new(kind, span);
                    let ghost found = run.tokens.deep_view();
                    run.tokens.push_back(token);
                    run.advance(consumed, Ghost(lexeme_text));
                    proof {
                        assert(token@ == TokenView::spanned(kind, segment.span));
                        assert(run.tokens.deep_view() =~= found.push(token@));
                        lemma_kept_push(done, segment);
                        assert(before + kept(done.push(segment)) =~= (before + kept(done)).push(
                            token@,
                        ));
                        lemma_segments_then_next(done, segment, segments_from(s, run.position()));
                        done = done.push(segment);
                    }
                },
                Scan::Skipped(consumed) => {
                    let ghost lexeme_text = s.subrange(at as int, at + consumed.len);
                    let ghost segment = Segment {
                        kind: None,
                        span: span_at(s, here, consumed.len as nat),
                    };
                    proof {
                        lemma_lexeme_boundary(s, at as int);
                    }
                    run.advance(consumed, Ghost(lexeme_text));
                    proof {
                        lemma_kept_push(done, segment);
                        lemma_segments_then_next(done, segment, segments_from(s, run.position()));
                        done = done.push(segment);
                    }
                },
                Scan::Unknown => {
                    return Err(
                        LexError::UnknownText {
                            line: run.current_line + 1,
                            column: run.current_column,
                        },
                    );
                },
                Scan::Unterminated(opening) => {
                    proof {
                        lemma_lexeme_boundary(s, at as int);
                    }
                    return Err(LexError::UnterminatedStringLiteral(run.span_here(opening)));
                },
            }
        }
    }
}

/// `r` is what lexing `text` gives: the tokens stand for the token sequence
/// of the text, each over a slice of it; or the error stands for the one that
/// stops the lexer.
pub open spec fn lexes_to<'a>(
    text: &'a str,
    r: Result<VecDeque<Token<'a>>, LexError<'a>>,
) -> bool {
    match r {
        Ok(tokens) => {
            &&& tokens_of(text.spec_bytes()) == Ok::<Seq<TokenView>, LexErrorView>(
                tokens.deep_view(),
            )
            &&& forall|i: int| 0 <= i < tokens@.len() ==> (#[trigger] tokens@[i]).wf()
        },
        Err(error) => {
            &&& tokens_of(text.spec_bytes()) == Err::<Seq<TokenView>, LexErrorView>(error@)
            &&& error.wf()
        },
    }
}

/// Lexes `text` into its tokens.
///
/// On success the tokens are those of [`tokens_of`], each over a slice of
/// `text`: they come in the order of the source, nothing but whitespace and
/// comments lies between them, the last of them, and no other, is the end
/// marker, and each carries the line and column of its offset. The lexer
/// fails where no rule matches the text at the place it has reached, and
/// where a string literal is still open at the end of input.
pub fn lex_str<'a>(text: &'a str) -> (r: Result<VecDeque<Token<'a>>, LexError<'a>>)
    ensures
        lexes_to(text, r),
        r matches Ok(tokens) ==> is_token_stream(tokens.deep_view(), text.spec_bytes()),
        r matches Ok(tokens) ==> all_well_placed(tokens.deep_view()),
{
    let lexer = Lexer::new(text);
    let r = lexer.lex();
    proof {
        match segments_from(text.spec_bytes(), Position::start()) {
            Ok(segments) => {
                assert(Seq::<TokenView>::empty() + kept(segments) =~= kept(segments));
            },
            Err(_) => {},
        }
        lemma_tokens_of_stream(text.spec_bytes());
        lemma_tokens_well_placed(text.spec_bytes());
    }
    r
}

} // verus!
