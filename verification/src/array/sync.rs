//! Conversions from `Arc<Mutex<Array<T, D>>>` and `Arc<RwLock<Array<T, D>>>` to
//! [`DLPackTensor`]. The data is shared, not copied, and its lock is held until
//! the tensor is dropped.

use vstd::prelude::*;

use guardian::{ArcMutexGuardian, ArcRwLockWriteGuardian};
use ndarray::{ArrayRef, Dimension};
use std::borrow::ToOwned;
use std::ops::{Deref, DerefMut};
use std::sync::{Arc, Mutex, PoisonError, RwLock};

use crate::array::index::{
    element_count, element_offset, is_row_major, logical_position, stride_values, valid_index,
};
use crate::array::layout::{
    array_elements_mut, array_shape, array_slice_mut, array_strides, element_at, is_layout,
    shape_of, strides_of,
};
use crate::array::DLPackNDarrayError;
use crate::data_type::GetDLPackDataType;
use crate::guard::Guard;
use crate::sys::{
    cpu_description, shared, DLDataType, DLManagedTensorVersioned, DLTensor, TensorDescription,
};
use crate::tensor::{DLPackTensor, DLPackTensorRefMut};

verus! {

/// The context of a tensor over an array: the guard of its lock.
pub struct ArrayContext<G> {
    pub guard: G,
}

/// Axis lengths as DLPack counts them.
pub open spec fn dlpack_shape(shape: Seq<usize>) -> Seq<i64> {
    shape.map_values(|length: usize| length as i64)
}

/// Strides as DLPack counts them.
pub open spec fn dlpack_strides(strides: Seq<isize>) -> Seq<i64> {
    strides.map_values(|stride: isize| stride as i64)
}

/// The description of an array of the given layout.
pub open spec fn array_description(
    shape: Seq<usize>,
    strides: Seq<isize>,
    dtype: DLDataType,
) -> TensorDescription {
    cpu_description(dtype, dlpack_shape(shape), dlpack_strides(strides))
}

/// The tensor describes the array that its guard protects, whose layout DLPack can
/// express.
pub open spec fn describes_array<G, A, T, D>(
    tensor: DLPackTensor<ArrayContext<G>>,
    dtype: DLDataType,
) -> bool where
    G: Guard<Value = A>,
    A: Deref<Target = ArrayRef<T, D>> + 'static,
    ArrayRef<T, D>: ToOwned<Owned = A>,
    T: 'static,
    D: Dimension + 'static,
 {
    let array = &tensor.context().guard.contents();
    &&& tensor.managed()@ == shared(array_description(shape_of(array), strides_of(array), dtype))
    &&& is_layout(shape_of(array), strides_of(array))
}

/// The tensor holds `lock` and describes the array that the lock protects.
pub open spec fn shares_array<G, A, T, D>(
    tensor: DLPackTensor<ArrayContext<G>>,
    lock: G::Lock,
    dtype: DLDataType,
) -> bool where
    G: Guard<Value = A>,
    A: Deref<Target = ArrayRef<T, D>> + 'static,
    ArrayRef<T, D>: ToOwned<Owned = A>,
    T: 'static,
    D: Dimension + 'static,
 {
    &&& tensor.context().guard.holds(lock)
    &&& describes_array(tensor, dtype)
}

/// What becomes of an attempt to take the lock of an array: a tensor that keeps
/// the guard and describes the array, or an error where the lock is poisoned.
pub open spec fn array_outcome<G, A, T, D>(
    lock: Result<G, PoisonError<G>>,
    dtype: DLDataType,
    outcome: Result<DLPackTensor<ArrayContext<G>>, DLPackNDarrayError>,
) -> bool where
    G: Guard<Value = A>,
    A: Deref<Target = ArrayRef<T, D>> + 'static,
    ArrayRef<T, D>: ToOwned<Owned = A>,
    T: 'static,
    D: Dimension + 'static,
 {
    match lock {
        Ok(guard) => {
            &&& outcome matches Ok(tensor)
            &&& tensor.context().guard == guard
            &&& describes_array(tensor, dtype)
        },
        Err(_) => outcome matches Err(error) && error == DLPackNDarrayError::LockPoisoned,
    }
}

/// Converts axis lengths to those of DLPack. A length that is too large for them
/// wraps around.
pub fn convert_shape(shape: &[usize]) -> (converted: Vec<i64>)
    ensures
        converted@ == dlpack_shape(shape@),
{
    let mut converted: Vec<i64> = Vec::new();
    for i in 0..shape.len()
        invariant
            converted@ == dlpack_shape(shape@.take(i as int)),
    {
        converted.push(#[verifier::truncate] (shape[i] as i64));
        assert(shape@.take(i + 1) == shape@.take(i as int).push(shape@[i as int]));
        assert(converted@ == dlpack_shape(shape@.take(i + 1)));
    }
    assert(shape@.take(shape@.len() as int) == shape@);
    converted
}

/// Converts strides to those of DLPack.
pub fn convert_strides(strides: &[isize]) -> (converted: Vec<i64>)
    ensures
        converted@ == dlpack_strides(strides@),
{
    let mut converted: Vec<i64> = Vec::new();
    for i in 0..strides.len()
        invariant
            converted@ == dlpack_strides(strides@.take(i as int)),
    {
        converted.push(strides[i] as i64);
        assert(strides@.take(i + 1) == strides@.take(i as int).push(strides@[i as int]));
        assert(converted@ == dlpack_strides(strides@.take(i + 1)));
    }
    assert(strides@.take(strides@.len() as int) == strides@);
    converted
}

/// Describes an array of the given layout.
pub fn describe(shape: &[usize], strides: &[isize], dtype: DLDataType) -> (dl_tensor: DLTensor)
    ensures
        dl_tensor@ == array_description(shape@, strides@, dtype),
{
    DLTensor::cpu(dtype, convert_shape(shape), convert_strides(strides))
}

/// Turns the guard of an array into a tensor whose elements have the data type
/// `dtype`, unless the lock is poisoned.
pub fn from_lock<G, A, T, D>(
    lock: Result<G, PoisonError<G>>,
    dtype: DLDataType,
) -> (outcome: Result<DLPackTensor<ArrayContext<G>>, DLPackNDarrayError>) where
    G: Guard<Value = A>,
    A: Deref<Target = ArrayRef<T, D>> + 'static,
    ArrayRef<T, D>: ToOwned<Owned = A>,
    T: 'static,
    D: Dimension + 'static,

    ensures
        array_outcome(lock, dtype, outcome),
        lock is Ok <==> outcome is Ok,
        lock matches Ok(guard) ==> outcome->Ok_0.context().guard == guard,
{
    match lock {
        Ok(guard) => {
            let array = guard.value();
            let dl_tensor = describe(array_shape(array), array_strides(array), dtype);
            let managed = DLManagedTensorVersioned::shared(dl_tensor);
            Ok(DLPackTensor::new(managed, ArrayContext { guard }))
        },
        Err(error) => Err(DLPackNDarrayError::from(error)),
    }
}

/// Takes a lock for writing and turns the array it protects into a tensor whose
/// elements have the data type `dtype`. The array stays as it was when the lock was
/// taken; until then other threads may change it, so what it was before is left
/// open.
///
/// The call waits until the lock is free. It does not return, or it panics, where
/// the calling thread holds the lock already, for reading or for writing, as it
/// does through another tensor.
pub fn from_rwlock<A, T, D>(array: Arc<RwLock<A>>, dtype: DLDataType) -> (outcome: Result<
    DLPackTensor<ArrayContext<ArcRwLockWriteGuardian<A>>>,
    DLPackNDarrayError,
>) where
    A: Deref<Target = ArrayRef<T, D>> + 'static,
    ArrayRef<T, D>: ToOwned<Owned = A>,
    T: 'static,
    D: Dimension + 'static,

    ensures
        exists|lock|
            call_ensures(ArcRwLockWriteGuardian::<A>::take, (array,), lock) && #[trigger] array_outcome(
                lock,
                dtype,
                outcome,
            ),
        outcome matches Ok(tensor) ==> shares_array(tensor, array, dtype),
{
    let lock = ArcRwLockWriteGuardian::take(array);
    from_lock(lock, dtype)
}

impl<A, T, D> DLPackTensor<ArrayContext<ArcRwLockWriteGuardian<A>>> where
    A: Deref<Target = ArrayRef<T, D>> + 'static,
    ArrayRef<T, D>: ToOwned<Owned = A>,
    T: GetDLPackDataType + 'static,
    D: Dimension + 'static,
 {
    /// Takes a lock for writing and turns the array it protects into a tensor. The
    /// array stays as it was when the lock was taken; until then other threads may
    /// change it, so what it was before is left open.
    ///
    /// The call waits until the lock is free. It does not return, or it panics,
    /// where the calling thread holds the lock already, for reading or for writing,
    /// as it does through another tensor.
    pub fn try_from(array: Arc<RwLock<A>>) -> (outcome: Result<Self, DLPackNDarrayError>)
        ensures
            exists|lock|
                call_ensures(ArcRwLockWriteGuardian::<A>::take, (array,), lock) && #[trigger] array_outcome(
                    lock,
                    T::data_type(),
                    outcome,
                ),
            outcome matches Ok(tensor) ==> shares_array(tensor, array, T::data_type()),
    {
        from_rwlock(array, T::get_dlpack_data_type())
    }
}

/// Takes a mutex and turns the array it protects into a tensor whose elements
/// have the data type `dtype`. The array stays as it was when the mutex was taken;
/// until then other threads may change it, so what it was before is left open.
///
/// The call waits until the mutex is free. It does not return, or it panics, where
/// the calling thread holds the mutex already, as it does through another tensor.
pub fn from_mutex<A, T, D>(array: Arc<Mutex<A>>, dtype: DLDataType) -> (outcome: Result<
    DLPackTensor<ArrayContext<ArcMutexGuardian<A>>>,
    DLPackNDarrayError,
>) where
    A: Deref<Target = ArrayRef<T, D>> + 'static,
    ArrayRef<T, D>: ToOwned<Owned = A>,
    T: 'static,
    D: Dimension + 'static,

    ensures
        exists|lock|
            call_ensures(ArcMutexGuardian::<A>::take, (array,), lock) && #[trigger] array_outcome(
                lock,
                dtype,
                outcome,
            ),
        outcome matches Ok(tensor) ==> shares_array(tensor, array, dtype),
{
    let lock = ArcMutexGuardian::take(array);
    from_lock(lock, dtype)
}

impl<A, T, D> DLPackTensor<ArrayContext<ArcMutexGuardian<A>>> where
    A: Deref<Target = ArrayRef<T, D>> + 'static,
    ArrayRef<T, D>: ToOwned<Owned = A>,
    T: GetDLPackDataType + 'static,
    D: Dimension + 'static,
 {
    /// Takes a mutex and turns the array it protects into a tensor. The array stays as it
    /// was when the mutex was taken; until then other threads may change it, so
    /// what it was before is left open.
    ///
    /// The call waits until the mutex is free. It does not return, or it panics,
    /// where the calling thread holds the mutex already, as it does through another
    /// tensor.
    pub fn try_from(array: Arc<Mutex<A>>) -> (outcome: Result<Self, DLPackNDarrayError>)
        ensures
            exists|lock|
                call_ensures(ArcMutexGuardian::<A>::take, (array,), lock) && #[trigger] array_outcome(
                    lock,
                    T::data_type(),
                    outcome,
                ),
            outcome matches Ok(tensor) ==> shares_array(tensor, array, T::data_type()),
    {
        from_mutex(array, T::get_dlpack_data_type())
    }
}

impl<G, A, T, D> DLPackTensor<ArrayContext<G>> where
    G: Guard<Value = A>,
    A: DerefMut<Target = ArrayRef<T, D>> + 'static,
    ArrayRef<T, D>: ToOwned<Owned = A>,
    T: 'static,
    D: Dimension + 'static,
 {
    /// Borrows the description and the elements of the array, each by a reference of
    /// its own, in logical order: the last position of their indices varies the
    /// fastest, however they stand in memory. What is written to the elements is
    /// what the lock protects from then on. The lock stays held and the description
    /// stays right.
    pub fn as_mut(&mut self) -> (borrowed: DLPackTensorRefMut<'_, Vec<&mut T>>)
        ensures
            ({
                let before = &old(self).context().guard.contents();
                let after = &final(self).context().guard.contents();
                let shape = shape_of(before);
                &&& borrowed.data@.len() == element_count(shape)
                &&& forall|index: Seq<usize>|
                    valid_index(shape, index) ==> #[trigger] element_at(before, index)
                        == *borrowed.data@[logical_position(shape, index)]
                &&& forall|index: Seq<usize>|
                    valid_index(shape, index) ==> #[trigger] element_at(after, index)
                        == *final(borrowed.data@[logical_position(shape, index)])
                &&& shape_of(after) == shape
                &&& strides_of(after) == strides_of(before)
            }),
            *borrowed.dl_tensor == old(self).managed().dl_tensor,
            final(self).managed() == old(self).managed(),
            forall|dtype: DLDataType| #[trigger]
                describes_array(*final(self), dtype) == describes_array(*old(self), dtype),
            forall|lock: G::Lock| #[trigger]
                final(self).context().guard.holds(lock) == old(self).context().guard.holds(lock),
    {
        let (dl_tensor, context) = self.parts_mut();
        DLPackTensorRefMut { dl_tensor, data: array_elements_mut(context.guard.value_mut()) }
    }

    /// Borrows the description and the memory of an array whose elements stand in
    /// memory in logical order and without gaps: the strides lead from the start
    /// of the memory to each element. What is written to the memory is what the lock
    /// protects from then on. The lock stays held and the description stays right.
    /// An array whose elements stand otherwise is left alone.
    pub fn as_mut_slice(&mut self) -> (borrowed: Option<DLPackTensorRefMut<'_, &mut [T]>>)
        ensures
            ({
                let before = &old(self).context().guard.contents();
                let after = &final(self).context().guard.contents();
                let shape = shape_of(before);
                let strides = stride_values(strides_of(before));
                &&& borrowed is Some <==> is_row_major(shape, strides)
                &&& borrowed matches Some(borrowed) ==> {
                    &&& *borrowed.dl_tensor == old(self).managed().dl_tensor
                    &&& borrowed.data@.len() == element_count(shape)
                    &&& forall|index: Seq<usize>|
                        valid_index(shape, index) ==> #[trigger] element_at(before, index)
                            == borrowed.data@[element_offset(strides, index)]
                    &&& forall|index: Seq<usize>|
                        valid_index(shape, index) ==> #[trigger] element_at(after, index)
                            == final(borrowed.data)@[element_offset(strides, index)]
                }
                &&& borrowed is None ==> after == before
                &&& shape_of(after) == shape
                &&& strides_of(after) == strides_of(before)
            }),
            final(self).managed() == old(self).managed(),
            forall|dtype: DLDataType| #[trigger]
                describes_array(*final(self), dtype) == describes_array(*old(self), dtype),
            forall|lock: G::Lock| #[trigger]
                final(self).context().guard.holds(lock) == old(self).context().guard.holds(lock),
    {
        let (dl_tensor, context) = self.parts_mut();
        match array_slice_mut(context.guard.value_mut()) {
            Some(data) => Some(DLPackTensorRefMut { dl_tensor, data }),
            None => None,
        }
    }
}

} // verus!
