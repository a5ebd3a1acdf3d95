//! Singly-linked list data structures with verified ownership discipline.
//!
//! Three variants are provided, in increasing order of sophistication:
//! - [`simple`]: a stack of `i32` values with exclusive ownership of its chain;
//! - [`generic`]: the same stack generalized over the element type, with
//!   consuming, borrowing, and mutably borrowing iteration;
//! - [`persistent`]: a reference-counted list whose structural operations
//!   never mutate existing nodes, so lists may share suffixes.

pub mod generic;
pub mod persistent;
pub mod simple;

use vstd::prelude::*;

verus! {

/// Sum of two counts; the caller guarantees the sum fits in a machine word.
pub fn add(left: usize, right: usize) -> (r: usize)
    requires
        left + right <= usize::MAX,
    ensures
        r == left + right,
{
    left + right
}

} // verus!
