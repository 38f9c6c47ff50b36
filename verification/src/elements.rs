//! What a conversion may do with the elements of a `Vec`: count them.

use vstd::prelude::*;

verus! {

/// A slice, of which only the elements and their number are of interest. No other
/// type is one.
pub trait Elements {
    /// The type of the elements.
    type Item;

    /// The elements in order.
    spec fn elements(&self) -> Seq<Self::Item>;

    /// Returns the number of elements.
    fn count(&self) -> (count: usize)
        ensures
            count == self.elements().len(),
    ;
}

impl<T> Elements for [T] {
    type Item = T;

    open spec fn elements(&self) -> Seq<T> {
        self@
    }

    fn count(&self) -> (count: usize) {
        self.len()
    }
}

} // verus!
