//! Namespaces: the declarations that stand together under one name.

use crate::parser::declaration::Declaration;
use vstd::prelude::*;

verus! {

/// A namespace and its declarations.
#[derive(Eq, PartialEq, Copy, Clone, Debug)]
pub struct Namespace<'a> {
    decls: &'a [Declaration<'a>],
}

} // verus!
