//! The duplication contract: fallible cloning with allocation failure
//! reported as a value.

use vstd::prelude::*;
use crate::error::AllocError;

verus! {

/// Tries to clone; returns an error instead of panicking when allocation
/// fails.
///
/// On success the result is a duplicate of the source, as `clones_to` defines
/// it for the implementing type; a value whose duplication needs no
/// allocation (`infallible`) is owed a successful result.
pub trait TryClone: Sized {
    /// What counts as a duplicate of `self`: observable equality under the
    /// type's own notion of a value.
    spec fn clones_to(self, c: Self) -> bool;

    /// Holds for values whose duplication performs no allocation, so that
    /// `try_clone` and `try_clone_from` cannot fail on them.
    spec fn infallible(self) -> bool;

    fn try_clone(&self) -> (r: Result<Self, AllocError>)
        ensures
            r matches Ok(c) ==> (*self).clones_to(c),
            (*self).infallible() ==> r is Ok,
    ;

    /// Performs copy-assignment from `source`.
    ///
    /// `a.try_clone_from(&b)` leaves `a` a duplicate of `b`, like
    /// `a = b.try_clone()?`, but an implementation may reuse the resources of
    /// `a` to avoid unnecessary allocations.
    fn try_clone_from(&mut self, source: &Self) -> (r: Result<(), AllocError>)
        ensures
            r is Ok ==> (*source).clones_to(*final(self)),
            (*source).infallible() ==> r is Ok,
    {
        match source.try_clone() {
            Ok(c) => {
                *self = c;
                Ok(())
            },
            Err(e) => Err(e),
        }
    }
}

} // verus!
