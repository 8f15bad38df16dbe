//! Integer literals.

use crate::parser::{expected, ParseResult, Parseable};
use crate::source_span::SourceSpan;
use crate::token::Token;
use vstd::prelude::*;
use vstd::slice::slice_subrange;

verus! {

/// An integer literal: its text and where it stands.
#[derive(Eq, PartialEq, Copy, Clone, Debug)]
pub struct LitInteger<'a> {
    pub text: &'a str,
    pub source: SourceSpan<'a>,
}

impl<'a> Parseable<'a> for LitInteger<'a> {
    /// One integer literal token makes the node.
    open spec fn leading(tokens: Seq<Token<'a>>) -> Option<(Self, nat)> {
        if tokens.len() > 0 && tokens[0] is LIT_Int {
            let span = tokens[0]->LIT_Int_0;
            Some((LitInteger { text: span.span, source: span }, 1nat))
        } else {
            None
        }
    }

    open spec fn expectation() -> Seq<char> {
        "Expected integer literal."@
    }

    fn parse(tokens: &'a [Token<'a>]) -> (r: ParseResult<'a, Self>) {
        if tokens.len() > 0 {
            if let Token::LIT_Int(s) = tokens[0] {
                return Ok(
                    (LitInteger { text: s.span, source: s }, slice_subrange(tokens, 1, tokens.len())),
                );
            }
        }
        Err(expected("Expected integer literal.", tokens))
    }
}

} // verus!
