//! Declarations.

use crate::parser::namespace::Namespace;
use vstd::prelude::*;

verus! {

/// What can be declared.
#[derive(Eq, PartialEq, Copy, Clone, Debug)]
pub enum Declaration<'a> {
    Namespace(Namespace<'a>),
}

} // verus!
