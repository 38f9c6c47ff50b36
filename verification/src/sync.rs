//! Conversions from `Arc<Mutex<Vec<T>>>` and `Arc<RwLock<Vec<T>>>` to
//! [`DLPackTensor`]. The data is shared, not copied, and its lock is held until
//! the tensor is dropped.
//!
//! The type `V` is `Vec<T>`, which dereferences to `[T]`. The conversions know it only
//! as a type that can be read in that way, so they have no means to write to what
//! a lock protects, however they take it: the elements, their order and their number
//! are left to the tensor as they were found.

use vstd::prelude::*;

use guardian::{ArcMutexGuardian, ArcRwLockWriteGuardian};
use std::ops::Deref;
use std::sync::{Arc, Mutex, PoisonError, RwLock};
use vstd::std_specs::convert::TryFromSpecImpl;
use vstd::std_specs::vec::VecAdditionalSpecFns;

use crate::data_type::GetDLPackDataType;
use crate::elements::Elements;
use crate::guard::Guard;
use crate::sys::{
    cpu_description, shared, DLDataType, DLManagedTensorVersioned, DLTensor, TensorDescription,
};
use crate::tensor::{DLPackTensor, DLPackTensorRefMut};
use crate::vec::DLPackVecError;

verus! {

/// The context of a tensor over a `Vec`: the guard of its lock.
pub struct VecContext<G> {
    pub guard: G,
}

/// The description of a `Vec` of `len` elements: one axis, without gaps.
pub open spec fn vec_description(len: nat, dtype: DLDataType) -> TensorDescription {
    cpu_description(dtype, seq![len as i64], seq![1i64])
}

/// Dereferencing `vec` gives its elements, as it does for every `Vec`.
pub open spec fn shows_elements<V>(vec: &V) -> bool where
    V: Deref + VecAdditionalSpecFns<<<V as Deref>::Target as Elements>::Item>,
    <V as Deref>::Target: Elements,
 {
    forall|slice: &<V as Deref>::Target| #[trigger]
        call_ensures(V::deref, (vec,), slice) ==> slice.elements() == vec@
}

/// The tensor describes the `Vec` that its guard protects.
pub open spec fn describes_vec<G, V>(
    tensor: DLPackTensor<VecContext<G>>,
    dtype: DLDataType,
) -> bool where
    G: Guard<Value = V>,
    V: Deref + VecAdditionalSpecFns<<<V as Deref>::Target as Elements>::Item>,
    <V as Deref>::Target: Elements,
 {
    let vec = tensor.context().guard.contents();
    shows_elements(&vec) ==> tensor.managed()@ == shared(vec_description(vec@.len(), dtype))
}

/// The tensor holds `lock` and describes the `Vec` that the lock protects.
pub open spec fn shares_vec<G, V>(
    tensor: DLPackTensor<VecContext<G>>,
    lock: G::Lock,
    dtype: DLDataType,
) -> bool where
    G: Guard<Value = V>,
    V: Deref + VecAdditionalSpecFns<<<V as Deref>::Target as Elements>::Item>,
    <V as Deref>::Target: Elements,
 {
    &&& tensor.context().guard.holds(lock)
    &&& describes_vec(tensor, dtype)
}

/// What becomes of an attempt to take the lock of a `Vec`: a tensor that keeps
/// the guard and describes the `Vec`, or an error where the lock is poisoned.
pub open spec fn vec_outcome<G, V>(
    lock: Result<G, PoisonError<G>>,
    dtype: DLDataType,
    outcome: Result<DLPackTensor<VecContext<G>>, DLPackVecError>,
) -> bool where
    G: Guard<Value = V>,
    V: Deref + VecAdditionalSpecFns<<<V as Deref>::Target as Elements>::Item>,
    <V as Deref>::Target: Elements,
 {
    match lock {
        Ok(guard) => {
            &&& outcome matches Ok(tensor)
            &&& tensor.context().guard == guard
            &&& describes_vec(tensor, dtype)
        },
        Err(_) => outcome matches Err(error) && error == DLPackVecError::LockPoisoned,
    }
}

/// Describes a `Vec` of `len` elements. A length that is too large for DLPack wraps
/// around.
pub fn describe(len: usize, dtype: DLDataType) -> (dl_tensor: DLTensor)
    ensures
        dl_tensor@ == vec_description(len as nat, dtype),
{
    let shape: i64 = #[verifier::truncate] (len as i64);
    let dl_tensor = DLTensor::cpu(dtype, vec![shape], vec![1i64]);
    assert(dl_tensor@ == vec_description(len as nat, dtype));
    dl_tensor
}

/// Turns the guard of a `Vec` into a tensor whose elements have the data type
/// `dtype`, unless the lock is poisoned.
pub fn from_lock<G, V>(lock: Result<G, PoisonError<G>>, dtype: DLDataType) -> (outcome: Result<
    DLPackTensor<VecContext<G>>,
    DLPackVecError,
>) where
    G: Guard<Value = V>,
    V: Deref + VecAdditionalSpecFns<<<V as Deref>::Target as Elements>::Item>,
    <V as Deref>::Target: Elements,

    ensures
        vec_outcome(lock, dtype, outcome),
        lock is Ok <==> outcome is Ok,
        lock matches Ok(guard) ==> outcome->Ok_0.context().guard == guard,
{
    match lock {
        Ok(guard) => {
            let dl_tensor = describe(guard.value().deref().count(), dtype);
            let managed = DLManagedTensorVersioned::shared(dl_tensor);
            Ok(DLPackTensor::new(managed, VecContext { guard }))
        },
        Err(error) => Err(DLPackVecError::from(error)),
    }
}

/// Takes a mutex and turns the `Vec` it protects into a tensor whose elements
/// have the data type `dtype`. The `Vec` stays as it was when the mutex was taken;
/// until then other threads may change it, so what it was before is left open.
///
/// The call waits until the mutex is free. It does not return, or it panics, where
/// the calling thread holds the mutex already, as it does through another tensor.
pub fn from_mutex<V>(array: Arc<Mutex<V>>, dtype: DLDataType) -> (outcome: Result<
    DLPackTensor<VecContext<ArcMutexGuardian<V>>>,
    DLPackVecError,
>) where
    V: Deref + VecAdditionalSpecFns<<<V as Deref>::Target as Elements>::Item> + 'static,
    <V as Deref>::Target: Elements,

    ensures
        exists|lock|
            call_ensures(ArcMutexGuardian::<V>::take, (array,), lock) && #[trigger] vec_outcome(
                lock,
                dtype,
                outcome,
            ),
        outcome matches Ok(tensor) ==> shares_vec(tensor, array, dtype),
{
    let lock = ArcMutexGuardian::take(array);
    from_lock(lock, dtype)
}

/// Takes a lock for writing and turns the `Vec` it protects into a tensor whose
/// elements have the data type `dtype`. The `Vec` stays as it was when the lock was
/// taken; until then other threads may change it, so what it was before is left
/// open.
///
/// The call waits until the lock is free. It does not return, or it panics, where
/// the calling thread holds the lock already, for reading or for writing, as it
/// does through another tensor.
pub fn from_rwlock<V>(array: Arc<RwLock<V>>, dtype: DLDataType) -> (outcome: Result<
    DLPackTensor<VecContext<ArcRwLockWriteGuardian<V>>>,
    DLPackVecError,
>) where
    V: Deref + VecAdditionalSpecFns<<<V as Deref>::Target as Elements>::Item> + 'static,
    <V as Deref>::Target: Elements,

    ensures
        exists|lock|
            call_ensures(ArcRwLockWriteGuardian::<V>::take, (array,), lock)
                && #[trigger] vec_outcome(lock, dtype, outcome),
        outcome matches Ok(tensor) ==> shares_vec(tensor, array, dtype),
{
    let lock = ArcRwLockWriteGuardian::take(array);
    from_lock(lock, dtype)
}

impl<V> TryFrom<Arc<Mutex<V>>> for DLPackTensor<VecContext<ArcMutexGuardian<V>>> where
    V: Deref + VecAdditionalSpecFns<<<V as Deref>::Target as Elements>::Item> + 'static,
    <V as Deref>::Target: Elements,
    <<V as Deref>::Target as Elements>::Item: GetDLPackDataType,
 {
    type Error = DLPackVecError;

    /// Takes a mutex and turns the `Vec` it protects into a tensor. The `Vec` stays as it
    /// was when the mutex was taken; until then other threads may change it, so
    /// what it was before is left open.
    ///
    /// The call waits until the mutex is free. It does not return, or it panics,
    /// where the calling thread holds the mutex already, as it does through another
    /// tensor.
    fn try_from(array: Arc<Mutex<V>>) -> (outcome: Result<Self, DLPackVecError>)
        ensures
            exists|lock|
                call_ensures(ArcMutexGuardian::<V>::take, (array,), lock)
                    && #[trigger] vec_outcome(lock, <<V as Deref>::Target as Elements>::Item::data_type(), outcome),
            outcome matches Ok(tensor) ==> shares_vec(tensor, array, <<V as Deref>::Target as Elements>::Item::data_type()),
    {
        from_mutex(array, <<V as Deref>::Target as Elements>::Item::get_dlpack_data_type())
    }
}

/// The outcome depends on the state of the lock, so no function of the argument
/// gives it.
impl<V> TryFromSpecImpl<Arc<Mutex<V>>> for DLPackTensor<VecContext<ArcMutexGuardian<V>>> where
    V: Deref + VecAdditionalSpecFns<<<V as Deref>::Target as Elements>::Item> + 'static,
    <V as Deref>::Target: Elements,
    <<V as Deref>::Target as Elements>::Item: GetDLPackDataType,
 {
    open spec fn obeys_try_from_spec() -> bool {
        false
    }

    open spec fn try_from_spec(array: Arc<Mutex<V>>) -> Result<Self, DLPackVecError> {
        arbitrary()
    }
}

impl<V> TryFrom<Arc<RwLock<V>>> for DLPackTensor<VecContext<ArcRwLockWriteGuardian<V>>> where
    V: Deref + VecAdditionalSpecFns<<<V as Deref>::Target as Elements>::Item> + 'static,
    <V as Deref>::Target: Elements,
    <<V as Deref>::Target as Elements>::Item: GetDLPackDataType,
 {
    type Error = DLPackVecError;

    /// Takes a lock for writing and turns the `Vec` it protects into a tensor. The
    /// `Vec` stays as it was when the lock was taken; until then other threads may
    /// change it, so what it was before is left open.
    ///
    /// The call waits until the lock is free. It does not return, or it panics,
    /// where the calling thread holds the lock already, for reading or for writing,
    /// as it does through another tensor.
    fn try_from(array: Arc<RwLock<V>>) -> (outcome: Result<Self, DLPackVecError>)
        ensures
            exists|lock|
                call_ensures(ArcRwLockWriteGuardian::<V>::take, (array,), lock)
                    && #[trigger] vec_outcome(lock, <<V as Deref>::Target as Elements>::Item::data_type(), outcome),
            outcome matches Ok(tensor) ==> shares_vec(tensor, array, <<V as Deref>::Target as Elements>::Item::data_type()),
    {
        from_rwlock(array, <<V as Deref>::Target as Elements>::Item::get_dlpack_data_type())
    }
}

/// The outcome depends on the state of the lock, so no function of the argument
/// gives it.
impl<V> TryFromSpecImpl<Arc<RwLock<V>>> for DLPackTensor<VecContext<ArcRwLockWriteGuardian<V>>> where
    V: Deref + VecAdditionalSpecFns<<<V as Deref>::Target as Elements>::Item> + 'static,
    <V as Deref>::Target: Elements,
    <<V as Deref>::Target as Elements>::Item: GetDLPackDataType,
 {
    open spec fn obeys_try_from_spec() -> bool {
        false
    }

    open spec fn try_from_spec(array: Arc<RwLock<V>>) -> Result<Self, DLPackVecError> {
        arbitrary()
    }
}

impl<G, T> DLPackTensor<VecContext<G>> where G: Guard<Value = Vec<T>> {
    /// Borrows the description and the elements of the `Vec`. What is written to
    /// the elements is what the lock protects from then on, and the lock stays
    /// held. A slice cannot change its length, so the description stays right.
    pub fn as_mut(&mut self) -> (borrowed: DLPackTensorRefMut<'_, &mut [T]>)
        ensures
            *borrowed.dl_tensor == old(self).managed().dl_tensor,
            borrowed.data@ == old(self).context().guard.contents()@,
            final(self).managed() == old(self).managed(),
            final(self).context().guard.contents()@ == final(borrowed.data)@,
            final(borrowed.data)@.len() == borrowed.data@.len() ==> forall|dtype: DLDataType|
                #[trigger]
                describes_vec(*final(self), dtype) == describes_vec(*old(self), dtype),
            forall|lock: G::Lock| #[trigger]
                final(self).context().guard.holds(lock) == old(self).context().guard.holds(lock),
    {
        let (dl_tensor, context) = self.parts_mut();
        DLPackTensorRefMut { dl_tensor, data: context.guard.value_mut().as_mut_slice() }
    }
}

} // verus!
