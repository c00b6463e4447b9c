//! A fixed-capacity vector and a draining cursor over a range of it.
//!
//! The cursor removes a contiguous range from the vector, hands the removed
//! elements out from either end, and on discard restores the vector: the range
//! is gone, the tail follows the head, and every removed element that was not
//! handed out is dropped exactly once.
use vstd::prelude::*;

pub mod drain;
pub mod stack_vec;

pub use drain::Drain;
pub use stack_vec::StackVec;

verus! {

} // verus!
