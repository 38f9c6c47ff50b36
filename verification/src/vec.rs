//! What can go wrong between `Vec` and DLPack.

use vstd::prelude::*;

use std::sync::PoisonError;
use vstd::std_specs::convert::FromSpecImpl;

verus! {

/// The reasons why a `Vec` cannot be shared as a DLPack tensor.
#[derive(Clone, Copy, Debug, PartialEq, Eq, Structural)]
pub enum DLPackVecError {
    /// A thread panicked while it held the lock of the data.
    LockPoisoned,
}

impl<G> From<PoisonError<G>> for DLPackVecError {
    fn from(error: PoisonError<G>) -> (r: DLPackVecError) {
        DLPackVecError::LockPoisoned
    }
}

impl<G> FromSpecImpl<PoisonError<G>> for DLPackVecError {
    open spec fn obeys_from_spec() -> bool {
        true
    }

    open spec fn from_spec(error: PoisonError<G>) -> DLPackVecError {
        DLPackVecError::LockPoisoned
    }
}

} // verus!
