use vstd::prelude::*;

verus! {

/// A position in a script: a zero-based line and a zero-based column.
#[derive(Debug, Clone, Copy, PartialEq, Eq, Structural)]
pub struct Location {
    pub line: usize,
    pub column: usize,
}

} // verus!
