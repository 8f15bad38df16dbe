//! Calls of infix operators.

use crate::parser::lit_real::LitReal;
use crate::parser::{expected, parses_as, ParseResult, Parseable};
use crate::source_span::SourceSpan;
use crate::token::Token;
use vstd::prelude::*;
use vstd::slice::slice_subrange;

verus! {

/// A call of an infix operator: its text and where it stands.
#[derive(Eq, PartialEq, Copy, Clone, Debug)]
pub struct InfixOpCall<'a> {
    pub text: &'a str,
    pub source: SourceSpan<'a>,
}

/// Parses what stands where a call of an infix operator may start. So far
/// that is a real number literal, the simplest operand; the node returned
/// is that literal.
pub fn parse_infix_op_call<'a>(tokens: &'a [Token<'a>]) -> (r: ParseResult<'a, LitReal<'a>>)
    ensures
        parses_as(tokens@, LitReal::leading(tokens@), LitReal::expectation(), r),
{
    if tokens.len() > 0 {
        if let Token::LIT_Real(s) = tokens[0] {
            return Ok(
                (LitReal { text: s.span, source: s }, slice_subrange(tokens, 1, tokens.len())),
            );
        }
    }
    Err(expected("Expected real number literal.", tokens))
}

} // verus!
