//! Where a piece of syntax stands, and what stands for the syntax itself.

use vstd::prelude::*;

verus! {

/// The place of a construct in the source text, as the number under which
/// the front end keeps the construct's span. The extraction never looks
/// behind it: a diagnostic carries the position of the construct it is
/// about, so that the front end can point at the span.
#[derive(Clone, Copy, Debug, PartialEq, Eq, Structural)]
pub struct SourcePosition {
    /// The number that the front end gave the span.
    pub index: usize,
}

/// Stands for a node of the original syntax tree. The extraction never looks
/// behind it: it hands each one on to the description unchanged, so that the
/// caller can find the tree node again.
#[derive(Clone, Copy, Debug, PartialEq, Eq, Structural)]
pub struct SyntaxHandle {
    /// The number that the front end gave the node.
    pub index: usize,
}

} // verus!
