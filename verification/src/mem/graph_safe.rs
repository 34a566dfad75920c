//! Which values may be bound into a captured graph.

use vstd::prelude::*;

verus! {

/// A value whose device memory does not move while a graph refers to it. An
/// arena is not one.
pub trait GraphSafe {

}

} // verus!
