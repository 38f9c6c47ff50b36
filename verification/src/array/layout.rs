//! The layout and the elements of ndarray's owned arrays.
//!
//! The type `A` is `Array<T, D>`: it dereferences to `ArrayRef<T, D>`, and
//! `ArrayRef<T, D>` has it as its owned form.

use vstd::prelude::*;

use ndarray::{ArrayRef, Dimension, LayoutRef};
use std::borrow::ToOwned;
use std::ops::{Deref, DerefMut, Index};

use crate::array::index::{
    element_count, element_offset, is_row_major, logical_position, stride_values, valid_index,
};
use crate::guard::target;

verus! {

/// ndarray's reference to an array's elements and layout.
#[verifier::external_type_specification]
#[verifier::external_body]
#[verifier::reject_recursive_types(A)]
#[verifier::reject_recursive_types(D)]
pub struct ExArrayRef<A, D>(ndarray::ArrayRef<A, D>);

/// ndarray's reference to an array's memory and layout.
#[verifier::external_type_specification]
#[verifier::external_body]
#[verifier::reject_recursive_types(A)]
#[verifier::reject_recursive_types(D)]
pub struct ExRawRef<A, D>(ndarray::RawRef<A, D>);

/// ndarray's reference to an array's layout.
#[verifier::external_type_specification]
#[verifier::external_body]
#[verifier::reject_recursive_types(A)]
#[verifier::reject_recursive_types(D)]
pub struct ExLayoutRef<A, D>(ndarray::LayoutRef<A, D>);

/// `LayoutRef::shape` is declared so that [`shape_of`] can speak of what it
/// returns. Nothing is claimed of it here.
pub assume_specification<A, D: Dimension>[ LayoutRef::<A, D>::shape ](
    layout: &LayoutRef<A, D>,
) -> (shape: &[usize]);

/// `LayoutRef::strides` is declared so that [`strides_of`] can speak of what it
/// returns. Nothing is claimed of it here.
pub assume_specification<A, D: Dimension>[ LayoutRef::<A, D>::strides ](
    layout: &LayoutRef<A, D>,
) -> (strides: &[isize]);

/// The length of each axis of `array`.
pub closed spec fn shape_of<A, T, D>(array: &A) -> Seq<usize> where
    A: Deref<Target = ArrayRef<T, D>> + 'static,
    ArrayRef<T, D>: ToOwned<Owned = A>,
    D: Dimension,
 {
    let layout = target(target(target(array)));
    (choose|shape: &[usize]| call_ensures(LayoutRef::<T, D>::shape, (layout,), shape))@
}

/// The distance, in elements, between neighbours along each axis of `array`.
pub closed spec fn strides_of<A, T, D>(array: &A) -> Seq<isize> where
    A: Deref<Target = ArrayRef<T, D>> + 'static,
    ArrayRef<T, D>: ToOwned<Owned = A>,
    D: Dimension,
 {
    let layout = target(target(target(array)));
    (choose|strides: &[isize]| call_ensures(LayoutRef::<T, D>::strides, (layout,), strides))@
}

/// What holds of the layout of every array: each axis has one stride, and no axis
/// has more positions than an `isize` can count.
pub open spec fn is_layout(shape: Seq<usize>, strides: Seq<isize>) -> bool {
    &&& strides.len() == shape.len()
    &&& forall|k: int| 0 <= k < shape.len() ==> #[trigger] shape[k] <= isize::MAX
}

/// `container[index]` can be `element`.
pub open spec fn indexes_to<P: Index<I> + ?Sized, I>(
    container: &P,
    index: I,
    element: &P::Output,
) -> bool {
    call_ensures(P::index, (container, index), element)
}

/// ndarray's index `dim` has the positions of `index`, one for each axis.
pub open spec fn has_positions<D: Dimension>(dim: &D, index: Seq<usize>) -> bool {
    forall|k: usize|
        #![trigger index[k as int]]
        k < index.len() ==> indexes_to::<D, usize>(dim, k, &index[k as int])
}

/// `element` is what ndarray finds in `array` at `index`.
pub open spec fn stands_at<A, T, D>(array: &A, index: Seq<usize>, element: &T) -> bool where
    A: Deref<Target = ArrayRef<T, D>> + 'static,
    ArrayRef<T, D>: ToOwned<Owned = A>,
    D: Dimension,
 {
    exists|dim: D| #[trigger]
        has_positions(&dim, index) && indexes_to::<ArrayRef<T, D>, D>(target(array), dim, element)
}

/// The element of `array` at `index`.
pub closed spec fn element_at<A, T, D>(array: &A, index: Seq<usize>) -> T where
    A: Deref<Target = ArrayRef<T, D>> + 'static,
    ArrayRef<T, D>: ToOwned<Owned = A>,
    D: Dimension,
 {
    *choose|element: &T| stands_at(array, index, element)
}

/// `LayoutRef::shape`, reached from an owned array: the same array gives the same
/// axis lengths each time, and ndarray makes no array with an axis that an `isize`
/// cannot count.
#[verifier::external_body]
pub(crate) fn array_shape<A, T, D>(array: &A) -> (shape: &[usize]) where
    A: Deref<Target = ArrayRef<T, D>> + 'static,
    ArrayRef<T, D>: ToOwned<Owned = A>,
    D: Dimension + 'static,
    T: 'static,

    ensures
        shape@ == shape_of(array),
        forall|k: int| 0 <= k < shape@.len() ==> #[trigger] shape@[k] <= isize::MAX,
{
    array.deref().shape()
}

/// `LayoutRef::strides`, reached from an owned array: the same array gives the same
/// strides each time, one per axis.
#[verifier::external_body]
pub(crate) fn array_strides<A, T, D>(array: &A) -> (strides: &[isize]) where
    A: Deref<Target = ArrayRef<T, D>> + 'static,
    ArrayRef<T, D>: ToOwned<Owned = A>,
    D: Dimension + 'static,
    T: 'static,

    ensures
        strides@ == strides_of(array),
        strides@.len() == shape_of(array).len(),
{
    array.deref().strides()
}

/// `ArrayRef::iter_mut`, reached from an owned array and collected: it visits every
/// element once, in logical order. What is left in an element is what stands at
/// its index from then on. Neither the call nor what is written to the elements
/// changes the layout of the array.
#[verifier::external_body]
pub(crate) fn array_elements_mut<A, T, D>(array: &mut A) -> (elements: Vec<&mut T>) where
    A: DerefMut<Target = ArrayRef<T, D>> + 'static,
    ArrayRef<T, D>: ToOwned<Owned = A>,
    D: Dimension + 'static,
    T: 'static,

    ensures
        elements@.len() == element_count(shape_of(old(array))),
        forall|index: Seq<usize>|
            valid_index(shape_of(old(array)), index) ==> #[trigger] element_at(old(array), index)
                == *elements@[logical_position(shape_of(old(array)), index)],
        forall|index: Seq<usize>|
            valid_index(shape_of(old(array)), index) ==> #[trigger] element_at(final(array), index)
                == *final(elements@[logical_position(shape_of(old(array)), index)]),
        shape_of(final(array)) == shape_of(old(array)),
        strides_of(final(array)) == strides_of(old(array)),
{
    array.deref_mut().iter_mut().collect()
}

/// `ArrayRef::as_slice_mut`, reached from an owned array: where the elements stand
/// in memory in logical order and without gaps it gives access to all of them, and
/// otherwise to none. The slice starts at the first element, so the strides lead
/// from its start to each element. What is left in an element is what stands at
/// its index from then on. Neither the call nor what is written to the elements
/// changes the layout of the array, and where there is no access the array is left
/// as it was.
#[verifier::external_body]
pub(crate) fn array_slice_mut<A, T, D>(array: &mut A) -> (slice: Option<&mut [T]>) where
    A: DerefMut<Target = ArrayRef<T, D>> + 'static,
    ArrayRef<T, D>: ToOwned<Owned = A>,
    D: Dimension + 'static,
    T: 'static,

    ensures
        slice is Some <==> is_row_major(
            shape_of(old(array)),
            stride_values(strides_of(old(array))),
        ),
        slice matches Some(elements) ==> {
            let shape = shape_of(old(array));
            let strides = stride_values(strides_of(old(array)));
            &&& elements@.len() == element_count(shape)
            &&& forall|index: Seq<usize>|
                valid_index(shape, index) ==> #[trigger] element_at(old(array), index)
                    == elements@[element_offset(strides, index)]
            &&& forall|index: Seq<usize>|
                valid_index(shape, index) ==> #[trigger] element_at(final(array), index)
                    == final(elements)@[element_offset(strides, index)]
        },
        slice is None ==> *final(array) == *old(array),
        shape_of(final(array)) == shape_of(old(array)),
        strides_of(final(array)) == strides_of(old(array)),
{
    array.deref_mut().as_slice_mut()
}

} // verus!
