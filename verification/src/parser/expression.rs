//! Expressions: so far an integer literal or a real number literal.

use crate::parser::lit_integer::LitInteger;
use crate::parser::lit_real::LitReal;
use crate::parser::{expected, ParseResult, Parseable};
use crate::token::Token;
use vstd::prelude::*;

verus! {

/// An expression.
#[derive(Eq, PartialEq, Copy, Clone, Debug)]
pub enum Expression<'a> {
    LitInteger(LitInteger<'a>),
    LitReal(LitReal<'a>),
}

impl<'a> Parseable<'a> for Expression<'a> {
    /// An integer literal makes an expression; where none stands first, a
    /// real number literal does.
    open spec fn leading(tokens: Seq<Token<'a>>) -> Option<(Self, nat)> {
        match LitInteger::leading(tokens) {
            Some((literal, taken)) => Some((Expression::LitInteger(literal), taken)),
            None => match LitReal::leading(tokens) {
                Some((literal, taken)) => Some((Expression::LitReal(literal), taken)),
                None => None,
            },
        }
    }

    open spec fn expectation() -> Seq<char> {
        "Expected expression."@
    }

    fn parse(tokens: &'a [Token<'a>]) -> (r: ParseResult<'a, Self>) {
        if let Ok((lit_int, rem_tokens)) = LitInteger::parse(tokens) {
            return Ok((Expression::LitInteger(lit_int), rem_tokens));
        } else if let Ok((lit_real, rem_tokens)) = LitReal::parse(tokens) {
            return Ok((Expression::LitReal(lit_real), rem_tokens));
        } else {
            return Err(expected("Expected expression.", tokens));
        }
    }
}

} // verus!
