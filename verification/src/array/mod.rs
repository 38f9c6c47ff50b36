//! What can go wrong between ndarray's arrays and DLPack, and the parts of the
//! conversions.

use vstd::prelude::*;

use std::sync::PoisonError;
use vstd::std_specs::convert::FromSpecImpl;

pub mod index;
pub mod layout;
pub mod sync;

verus! {

/// The reasons why an array cannot be shared as a DLPack tensor.
#[derive(Clone, Copy, Debug, PartialEq, Eq, Structural)]
pub enum DLPackNDarrayError {
    /// A thread panicked while it held the lock of the data.
    LockPoisoned,
}

impl<G> From<PoisonError<G>> for DLPackNDarrayError {
    fn from(error: PoisonError<G>) -> (r: DLPackNDarrayError) {
        DLPackNDarrayError::LockPoisoned
    }
}

impl<G> FromSpecImpl<PoisonError<G>> for DLPackNDarrayError {
    open spec fn obeys_from_spec() -> bool {
        true
    }

    open spec fn from_spec(error: PoisonError<G>) -> DLPackNDarrayError {
        DLPackNDarrayError::LockPoisoned
    }
}

} // verus!
