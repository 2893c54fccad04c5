//! The allocation-failure descriptor: the one error of the duplication
//! contract, carrying the size and alignment of the request that failed.

use vstd::prelude::*;

verus! {

/// Describes an allocation request that could not be satisfied: the number of
/// bytes requested and the required alignment of the storage.
#[derive(Clone, Copy, Debug, PartialEq, Eq, Structural)]
pub struct AllocError {
    pub size: usize,
    pub align: usize,
}

impl AllocError {
    /// Builds the descriptor of a failed request of `size` bytes with
    /// alignment `align`.
    pub fn new(size: usize, align: usize) -> (r: AllocError)
        ensures
            r == (AllocError { size, align }),
    {
        AllocError { size, align }
    }
}

} // verus!
