//! Real number literals.

use crate::parser::{expected, ParseResult, Parseable};
use crate::source_span::SourceSpan;
use crate::token::Token;
use vstd::prelude::*;
use vstd::slice::slice_subrange;

verus! {

/// A real number literal: its text and where it stands.
#[derive(Eq, PartialEq, Copy, Clone, Debug)]
pub struct LitReal<'a> {
    pub text: &'a str,
    pub source: SourceSpan<'a>,
}

impl<'a> Parseable<'a> for LitReal<'a> {
    /// One real number literal token makes the node.
    open spec fn leading(tokens: Seq<Token<'a>>) -> Option<(Self, nat)> {
        if tokens.len() > 0 && tokens[0] is LIT_Real {
            let span = tokens[0]->LIT_Real_0;
            Some((LitReal { text: span.span, source: span }, 1nat))
        } else {
            None
        }
    }

    open spec fn expectation() -> Seq<char> {
        "Expected real number literal."@
    }

    fn parse(tokens: &'a [Token<'a>]) -> (r: ParseResult<'a, Self>) {
        if tokens.len() > 0 {
            if let Token::LIT_Real(s) = tokens[0] {
                return Ok(
                    (LitReal { text: s.span, source: s }, slice_subrange(tokens, 1, tokens.len())),
                );
            }
        }
        Err(expected("Expected real number literal.", tokens))
    }
}

} // verus!
