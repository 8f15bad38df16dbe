//! A first parser over the token sequence. It knows integer and real number
//! literals; the other nodes of a parse tree are declared and not parsed yet.

pub mod declaration;
pub mod expression;
pub mod infix_op_call;
pub mod lit_integer;
pub mod lit_real;
pub mod namespace;

use crate::decimal::{decimal, decimal_string};
use crate::parser::namespace::Namespace;
use crate::source_span::SourceSpan;
use crate::token::Token;
use vstd::prelude::*;
use vstd::string::StringExecFns;

verus! {

/// A parse tree: empty, or the namespace at its root.
#[derive(Eq, PartialEq, Copy, Clone, Debug)]
pub enum ParseTree<'a> {
    Empty,
    Root(Namespace<'a>),
}

/// Why a parse failed: what was expected, and the span of the token that was
/// found in its place, where there was one and it has a span.
#[derive(Clone, Debug)]
pub struct ParseError<'a> {
    pub message: String,
    pub source: Option<SourceSpan<'a>>,
}

impl<'a> ParseError<'a> {
    /// The error as a line of text: the message, after the line, counted from
    /// 1, and the column of the span where the error has one.
    pub open spec fn rendered(&self) -> Seq<char> {
        match self.source {
            Some(ss) => "Parse Error ["@ + decimal(ss.line as nat + 1) + ":"@ + decimal(
                ss.column as nat,
            ) + "]: "@ + self.message@,
            None => "Parse Error: "@ + self.message@,
        }
    }

    /// Writes the error as a line of text.
    pub fn to_string(&self) -> (r: String)
        ensures
            r@ == self.rendered(),
    {
        if let Some(ss) = self.source {
            let mut r = "Parse Error [".to_owned();
            r.append(decimal_string(ss.line as u128 + 1).as_str());
            r.append(":");
            r.append(decimal_string(ss.column as u128).as_str());
            r.append("]: ");
            r.append(self.message.as_str());
            r
        } else {
            let mut r = "Parse Error: ".to_owned();
            r.append(self.message.as_str());
            r
        }
    }
}

/// A node and the tokens that follow it, or the error.
pub type ParseResult<'a, T> = Result<(T, &'a [Token<'a>]), ParseError<'a>>;

/// The span of the first of `tokens`; none where there is no token or the
/// first is the end marker.
pub open spec fn first_span<'a>(tokens: Seq<Token<'a>>) -> Option<SourceSpan<'a>> {
    if tokens.len() > 0 {
        tokens[0].span_of()
    } else {
        None
    }
}

/// `r` is the outcome of parsing `tokens` for a node that they start with as
/// `leading` says, or else with the complaint `expectation`: the node and the
/// tokens after those it takes, or the complaint with the span of the first
/// token.
pub open spec fn parses_as<'a, T>(
    tokens: Seq<Token<'a>>,
    leading: Option<(T, nat)>,
    expectation: Seq<char>,
    r: ParseResult<'a, T>,
) -> bool {
    match r {
        Ok((node, rest)) => {
            &&& leading matches Some((found, taken))
            &&& node == found
            &&& taken <= tokens.len()
            &&& rest@ == tokens.subrange(taken as int, tokens.len() as int)
        },
        Err(error) => {
            &&& leading is None
            &&& error.message@ == expectation
            &&& error.source == first_span(tokens)
        },
    }
}

/// A node of the parse tree that can be parsed from the start of a token
/// slice.
pub trait Parseable<'a>: Sized {
    /// The node that `tokens` start with, and the number of tokens that it
    /// takes; none where they start with no such node.
    spec fn leading(tokens: Seq<Token<'a>>) -> Option<(Self, nat)>;

    /// The message of the error that says that no such node was found.
    spec fn expectation() -> Seq<char>;

    /// Parses the node that `tokens` start with.
    fn parse(tokens: &'a [Token<'a>]) -> (r: ParseResult<'a, Self>)
        ensures
            parses_as(tokens@, Self::leading(tokens@), Self::expectation(), r),
    ;
}

/// The error that says `message` about the first of `tokens`.
pub fn expected<'a>(message: &str, tokens: &[Token<'a>]) -> (error: ParseError<'a>)
    ensures
        error.message@ == message@,
        error.source == first_span(tokens@),
{
    let source = if tokens.len() > 0 {
        tokens[0].source_span()
    } else {
        None
    };
    ParseError { message: message.to_owned(), source }
}

} // verus!
