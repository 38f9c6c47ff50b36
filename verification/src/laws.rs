//! What holds of every tensor that is shared under a lock.

use vstd::prelude::*;

use guardian::{ArcMutexGuardian, ArcRwLockWriteGuardian};
use ndarray::{ArrayRef, Dimension};
use std::borrow::ToOwned;
use std::ops::{Deref, DerefMut};
use std::sync::{Arc, Mutex, PoisonError, RwLock};

use crate::array::index::{
    element_count, element_offset, is_row_major, logical_position, positions_are_in_range,
    row_major_offset, stride_values, valid_index,
};
use crate::array::layout::{shape_of, strides_of};
use crate::array::sync::{
    array_description, convert_shape, convert_strides, describes_array, dlpack_shape,
    dlpack_strides, shares_array, ArrayContext,
};
use crate::array::DLPackNDarrayError;
use crate::data_type::GetDLPackDataType;
use crate::guard::Guard;
use crate::sync::{describes_vec, shares_vec, shows_elements, vec_description, VecContext};
use crate::sys::{
    integers, shared, DLDataType, DLDataTypeCode, DLDevice, DLDeviceType, DLManagedTensorVersioned,
    DLPackVersion, DLTensor, ManagedDescription,
};
use crate::tensor::{DLPackTensor, DLPackTensorRefMut};
use crate::vec::DLPackVecError;

verus! {

/// A `Vec` is described as one axis of its length, and the element at index `i` is
/// found `i` elements from the start.
pub proof fn vec_is_one_axis_in_order(len: nat, dtype: DLDataType, i: usize)
    requires
        len <= i64::MAX,
    ensures
        vec_description(len, dtype).ndim == 1,
        integers(vec_description(len, dtype).shape) == seq![len as int],
        element_offset(integers(vec_description(len, dtype).strides), seq![i]) == i,
{
    let strides = integers(vec_description(len, dtype).strides);
    assert(element_offset(strides.drop_last(), seq![i].drop_last()) == 0);
    assert(strides.last() * i == 1 * i);
}

/// The description of an array has the length of each of its axes, and the number
/// of its axes where an `i32` can count them.
pub proof fn array_shape_is_exact<G, A, T, D>(
    tensor: DLPackTensor<ArrayContext<G>>,
    dtype: DLDataType,
) where
    G: Guard<Value = A>,
    A: Deref<Target = ArrayRef<T, D>> + 'static,
    ArrayRef<T, D>: ToOwned<Owned = A>,
    T: 'static,
    D: Dimension + 'static,

    requires
        describes_array(tensor, dtype),
    ensures
        ({
            let shape = shape_of(&tensor.context().guard.contents());
            let description = tensor.managed()@.dl_tensor;
            &&& integers(description.shape) == shape.map_values(|length: usize| length as int)
            &&& shape.len() <= i32::MAX ==> description.ndim == shape.len()
        }),
{
    let shape = shape_of(&tensor.context().guard.contents());
    assert forall|k: int| 0 <= k < shape.len() implies integers(dlpack_shape(shape))[k]
        == shape[k] by {
        assert(shape[k] <= isize::MAX);
    }
}

/// The strides of the description lead from the first element to the one at any
/// index as the strides of the array do.
pub proof fn array_strides_are_exact(
    shape: Seq<usize>,
    strides: Seq<isize>,
    dtype: DLDataType,
    index: Seq<usize>,
)
    ensures
        element_offset(integers(array_description(shape, strides, dtype).strides), index)
            == element_offset(stride_values(strides), index),
{
    assert(integers(dlpack_strides(strides)) == stride_values(strides));
}

/// Where the elements of an array stand in memory in logical order and without
/// gaps, the strides of its description lead to each element by its position in
/// that order, which lies within the memory of the array.
pub proof fn described_offsets_are_in_range<G, A, T, D>(
    tensor: DLPackTensor<ArrayContext<G>>,
    dtype: DLDataType,
    index: Seq<usize>,
) where
    G: Guard<Value = A>,
    A: Deref<Target = ArrayRef<T, D>> + 'static,
    ArrayRef<T, D>: ToOwned<Owned = A>,
    T: 'static,
    D: Dimension + 'static,

    requires
        describes_array(tensor, dtype),
        is_row_major(
            shape_of(&tensor.context().guard.contents()),
            stride_values(strides_of(&tensor.context().guard.contents())),
        ),
        valid_index(shape_of(&tensor.context().guard.contents()), index),
    ensures
        ({
            let shape = shape_of(&tensor.context().guard.contents());
            let offset = element_offset(integers(tensor.managed()@.dl_tensor.strides), index);
            &&& offset == logical_position(shape, index)
            &&& 0 <= offset < element_count(shape)
        }),
{
    let shape = shape_of(&tensor.context().guard.contents());
    let strides = strides_of(&tensor.context().guard.contents());
    array_strides_are_exact(shape, strides, dtype, index);
    row_major_offset(shape, stride_values(strides), index);
    positions_are_in_range(shape, index);
}

/// Arrays with the same description have the same layout and data type.
pub proof fn description_determines_layout(
    shape1: Seq<usize>,
    strides1: Seq<isize>,
    dtype1: DLDataType,
    shape2: Seq<usize>,
    strides2: Seq<isize>,
    dtype2: DLDataType,
)
    requires
        array_description(shape1, strides1, dtype1) == array_description(shape2, strides2, dtype2),
    ensures
        shape1 == shape2,
        strides1 == strides2,
        dtype1 == dtype2,
{
    assert(forall|a: usize, b: usize| #[trigger] (a as i64) == #[trigger] (b as i64) ==> a == b)
        by (bit_vector);
    assert(dlpack_shape(shape1).len() == dlpack_shape(shape2).len());
    assert(dlpack_strides(strides1).len() == dlpack_strides(strides2).len());
    assert forall|i: int| 0 <= i < shape1.len() implies shape1[i] == shape2[i] by {
        assert(dlpack_shape(shape1)[i] == dlpack_shape(shape2)[i]);
    }
    assert forall|i: int| 0 <= i < strides1.len() implies strides1[i] == strides2[i] by {
        assert(dlpack_strides(strides1)[i] == dlpack_strides(strides2)[i]);
    }
}

/// An array of one axis without gaps is described like a `Vec` of its length.
pub proof fn one_axis_array_is_described_as_vec(len: usize, dtype: DLDataType)
    ensures
        array_description(seq![len], seq![1isize], dtype) == vec_description(len as nat, dtype),
{
    assert(dlpack_shape(seq![len]) == seq![len as i64]);
    assert(dlpack_strides(seq![1isize]) == seq![1i64]);
}

/// What is handed over is memory of the host that the consumer may write to, whose
/// elements have the data type `dtype` and start at its beginning.
pub open spec fn is_writable_host_memory(managed: ManagedDescription, dtype: DLDataType) -> bool {
    &&& managed.version == DLPackVersion::current()
    &&& managed.flags == 0
    &&& managed.dl_tensor.device == DLDevice { device_type: DLDeviceType::kDLCPU, device_id: 0 }
    &&& managed.dl_tensor.dtype == dtype
    &&& managed.dl_tensor.byte_offset == 0
}

/// A `Vec` is handed over as writable memory of the host.
pub proof fn vec_is_writable_host_memory<G, T>(
    tensor: DLPackTensor<VecContext<G>>,
    dtype: DLDataType,
) where G: Guard<Value = Vec<T>>
    requires
        describes_vec(tensor, dtype),
    ensures
        is_writable_host_memory(tensor.managed()@, dtype),
{
}

/// An array is handed over as writable memory of the host, with one stride per
/// axis.
pub proof fn array_is_writable_host_memory<G, A, T, D>(
    tensor: DLPackTensor<ArrayContext<G>>,
    dtype: DLDataType,
) where
    G: Guard<Value = A>,
    A: Deref<Target = ArrayRef<T, D>> + 'static,
    ArrayRef<T, D>: ToOwned<Owned = A>,
    T: 'static,
    D: Dimension + 'static,

    requires
        describes_array(tensor, dtype),
    ensures
        is_writable_host_memory(tensor.managed()@, dtype),
        tensor.managed()@.dl_tensor.strides.len() == tensor.managed()@.dl_tensor.shape.len(),
{
}

/// What is handed over for a `Vec` depends on its length and its data type, not on
/// the kind of lock that protects it.
pub proof fn vec_locks_agree<G, H, T>(
    a: DLPackTensor<VecContext<G>>,
    b: DLPackTensor<VecContext<H>>,
    dtype: DLDataType,
) where G: Guard<Value = Vec<T>>, H: Guard<Value = Vec<T>>
    requires
        describes_vec(a, dtype),
        describes_vec(b, dtype),
        a.context().guard.contents()@.len() == b.context().guard.contents()@.len(),
    ensures
        a.managed()@ == b.managed()@,
{
}

/// What is handed over for an array depends on its layout and its data type, not
/// on the kind of lock that protects it.
pub proof fn array_locks_agree<G, H, A, T, D>(
    a: DLPackTensor<ArrayContext<G>>,
    b: DLPackTensor<ArrayContext<H>>,
    dtype: DLDataType,
) where
    G: Guard<Value = A>,
    H: Guard<Value = A>,
    A: Deref<Target = ArrayRef<T, D>> + 'static,
    ArrayRef<T, D>: ToOwned<Owned = A>,
    T: 'static,
    D: Dimension + 'static,

    requires
        describes_array(a, dtype),
        describes_array(b, dtype),
        shape_of(&a.context().guard.contents()) == shape_of(&b.context().guard.contents()),
        strides_of(&a.context().guard.contents()) == strides_of(&b.context().guard.contents()),
    ensures
        a.managed()@ == b.managed()@,
{
}

/// From the conversion on, a tensor over a `Vec` holds the lock that it was made from
/// and describes what the lock protects: borrowing the elements changes neither the
/// lock that is held nor the description, and the description stays right because
/// a slice keeps its length.
pub proof fn as_mut_keeps_vec_shared<G, T>(
    tensor: &mut DLPackTensor<VecContext<G>>,
    borrowed: DLPackTensorRefMut<'_, &mut [T]>,
    lock: G::Lock,
    dtype: DLDataType,
) where G: Guard<Value = Vec<T>>
    requires
        call_ensures(DLPackTensor::<VecContext<G>>::as_mut, (tensor,), borrowed),
        shares_vec(*old(tensor), lock, dtype),
    ensures
        final(tensor).context().guard.holds(lock),
        final(tensor).managed() == old(tensor).managed(),
        final(borrowed.data)@.len() == old(tensor).context().guard.contents()@.len() ==> shares_vec(
            *final(tensor),
            lock,
            dtype,
        ),
{
}

/// A tensor over a `Vec` that is taken apart leaves a context that goes on holding
/// the lock, and the description of what the lock protects.
pub proof fn into_parts_keeps_vec_shared<G, T>(
    tensor: DLPackTensor<VecContext<G>>,
    parts: (DLManagedTensorVersioned, VecContext<G>),
    lock: G::Lock,
    dtype: DLDataType,
) where G: Guard<Value = Vec<T>>
    requires
        call_ensures(DLPackTensor::<VecContext<G>>::into_parts, (tensor,), parts),
        shares_vec(tensor, lock, dtype),
    ensures
        parts.1.guard == tensor.context().guard,
        parts.1.guard.holds(lock),
        parts.0@ == shared(vec_description(parts.1.guard.contents()@.len(), dtype)),
{
}

/// From the conversion on, a tensor over an array holds the lock that it was made
/// from and describes what the lock protects: borrowing the elements one by one
/// changes neither the lock that is held nor the description, which stays right.
pub proof fn as_mut_keeps_array_shared<G, A, T, D>(
    tensor: &mut DLPackTensor<ArrayContext<G>>,
    borrowed: DLPackTensorRefMut<'_, Vec<&mut T>>,
    lock: G::Lock,
    dtype: DLDataType,
) where
    G: Guard<Value = A>,
    A: DerefMut<Target = ArrayRef<T, D>> + 'static,
    ArrayRef<T, D>: ToOwned<Owned = A>,
    T: 'static,
    D: Dimension + 'static,

    requires
        call_ensures(DLPackTensor::<ArrayContext<G>>::as_mut, (tensor,), borrowed),
        shares_array(*old(tensor), lock, dtype),
    ensures
        shares_array(*final(tensor), lock, dtype),
        final(tensor).managed() == old(tensor).managed(),
{
}

/// Borrowing the memory of an array changes neither the lock that the tensor holds
/// nor the description, which stays right.
pub proof fn as_mut_slice_keeps_array_shared<G, A, T, D>(
    tensor: &mut DLPackTensor<ArrayContext<G>>,
    borrowed: Option<DLPackTensorRefMut<'_, &mut [T]>>,
    lock: G::Lock,
    dtype: DLDataType,
) where
    G: Guard<Value = A>,
    A: DerefMut<Target = ArrayRef<T, D>> + 'static,
    ArrayRef<T, D>: ToOwned<Owned = A>,
    T: 'static,
    D: Dimension + 'static,

    requires
        call_ensures(DLPackTensor::<ArrayContext<G>>::as_mut_slice, (tensor,), borrowed),
        shares_array(*old(tensor), lock, dtype),
    ensures
        shares_array(*final(tensor), lock, dtype),
        final(tensor).managed() == old(tensor).managed(),
{
}

/// A tensor over an array that is taken apart leaves a context that goes on holding
/// the lock, and the description of what the lock protects.
pub proof fn into_parts_keeps_array_shared<G, A, T, D>(
    tensor: DLPackTensor<ArrayContext<G>>,
    parts: (DLManagedTensorVersioned, ArrayContext<G>),
    lock: G::Lock,
    dtype: DLDataType,
) where
    G: Guard<Value = A>,
    A: Deref<Target = ArrayRef<T, D>> + 'static,
    ArrayRef<T, D>: ToOwned<Owned = A>,
    T: 'static,
    D: Dimension + 'static,

    requires
        call_ensures(DLPackTensor::<ArrayContext<G>>::into_parts, (tensor,), parts),
        shares_array(tensor, lock, dtype),
    ensures
        parts.1.guard == tensor.context().guard,
        parts.1.guard.holds(lock),
        parts.0@ == shared(
            array_description(
                shape_of(&parts.1.guard.contents()),
                strides_of(&parts.1.guard.contents()),
                dtype,
            ),
        ),
{
}

/// A description of memory of the host says of the memory what it was given: each
/// axis length, each stride and the data type. It counts the axes as an `i32`.
pub proof fn cpu_says_what_it_is_given(
    dtype: DLDataType,
    shape: Vec<i64>,
    strides: Vec<i64>,
    tensor: DLTensor,
)
    requires
        call_ensures(DLTensor::cpu, (dtype, shape, strides), tensor),
    ensures
        tensor.shape@ == shape@,
        tensor.strides@ == strides@,
        tensor.ndim == shape@.len() as i32,
        tensor.dtype == dtype,
        tensor.device.device_type == DLDeviceType::kDLCPU,
        tensor.device.device_id == 0,
        tensor.byte_offset == 0,
{
}

/// What is handed over has the very description that it was given, and declares the
/// memory writable and no copy, under version 1.0 of DLPack.
pub proof fn shared_keeps_the_description(
    dl_tensor: DLTensor,
    managed: DLManagedTensorVersioned,
)
    requires
        call_ensures(DLManagedTensorVersioned::shared, (dl_tensor,), managed),
    ensures
        managed.dl_tensor == dl_tensor,
        managed.flags == 0,
        managed.version.major == 1,
        managed.version.minor == 0,
{
}

/// Axis lengths are converted one by one. One that an `i64` can hold is kept.
pub proof fn lengths_are_converted_one_by_one(shape: &[usize], converted: Vec<i64>)
    requires
        call_ensures(convert_shape, (shape,), converted),
    ensures
        converted@.len() == shape@.len(),
        forall|k: int| 0 <= k < shape@.len() ==> #[trigger] converted@[k] == shape@[k] as i64,
        forall|k: int|
            0 <= k < shape@.len() && shape@[k] <= i64::MAX ==> #[trigger] converted@[k]
                == shape@[k],
{
}

/// Strides are converted one by one, and each is kept with its sign.
pub proof fn strides_are_converted_one_by_one(strides: &[isize], converted: Vec<i64>)
    requires
        call_ensures(convert_strides, (strides,), converted),
    ensures
        converted@.len() == strides@.len(),
        forall|k: int| 0 <= k < strides@.len() ==> #[trigger] converted@[k] == strides@[k],
{
}

/// A length is described as one axis of that length, without gaps.
pub proof fn length_is_described(len: usize, dtype: DLDataType, dl_tensor: DLTensor)
    requires
        call_ensures(crate::sync::describe, (len, dtype), dl_tensor),
    ensures
        dl_tensor.shape@ == seq![len as i64],
        dl_tensor.strides@ == seq![1i64],
        dl_tensor.ndim == 1,
        dl_tensor.dtype == dtype,
        dl_tensor.device.device_type == DLDeviceType::kDLCPU,
        dl_tensor.device.device_id == 0,
        dl_tensor.byte_offset == 0,
{
}

/// A layout of any number of axes is described by each axis length and each stride.
pub proof fn layout_is_described(
    shape: &[usize],
    strides: &[isize],
    dtype: DLDataType,
    dl_tensor: DLTensor,
)
    requires
        call_ensures(crate::array::sync::describe, (shape, strides, dtype), dl_tensor),
    ensures
        dl_tensor.shape@.len() == shape@.len(),
        forall|k: int| 0 <= k < shape@.len() ==> #[trigger] dl_tensor.shape@[k] == shape@[k] as i64,
        dl_tensor.strides@.len() == strides@.len(),
        forall|k: int| 0 <= k < strides@.len() ==> #[trigger] dl_tensor.strides@[k] == strides@[k],
        dl_tensor.ndim == shape@.len() as i32,
        dl_tensor.dtype == dtype,
        dl_tensor.device.device_type == DLDeviceType::kDLCPU,
        dl_tensor.device.device_id == 0,
        dl_tensor.byte_offset == 0,
{
}

/// Each element type is described by its kind and its size.
pub proof fn data_types_are_exact()
    ensures
        i8::data_type() == (DLDataType { code: DLDataTypeCode::kDLInt, bits: 8, lanes: 1 }),
        i16::data_type() == (DLDataType { code: DLDataTypeCode::kDLInt, bits: 16, lanes: 1 }),
        i32::data_type() == (DLDataType { code: DLDataTypeCode::kDLInt, bits: 32, lanes: 1 }),
        i64::data_type() == (DLDataType { code: DLDataTypeCode::kDLInt, bits: 64, lanes: 1 }),
        u8::data_type() == (DLDataType { code: DLDataTypeCode::kDLUInt, bits: 8, lanes: 1 }),
        u16::data_type() == (DLDataType { code: DLDataTypeCode::kDLUInt, bits: 16, lanes: 1 }),
        u32::data_type() == (DLDataType { code: DLDataTypeCode::kDLUInt, bits: 32, lanes: 1 }),
        u64::data_type() == (DLDataType { code: DLDataTypeCode::kDLUInt, bits: 64, lanes: 1 }),
        bool::data_type() == (DLDataType { code: DLDataTypeCode::kDLBool, bits: 8, lanes: 1 }),
{
}

/// Dereferencing a `Vec` gives its elements, all of them and in order.
pub proof fn every_vec_shows_its_elements<T>(vec: &Vec<T>)
    ensures
        shows_elements(vec),
        forall|slice: &[T]| #[trigger]
            call_ensures(<Vec<T> as Deref>::deref, (vec,), slice) ==> slice@ == vec@,
{
}

/// A tensor that describes a `Vec` hands over its number of elements as the length of
/// the one axis, with neighbours next to each other, at the start of writable memory
/// of the host.
pub proof fn vec_is_handed_over_whole<G, T>(
    tensor: DLPackTensor<VecContext<G>>,
    dtype: DLDataType,
) where G: Guard<Value = Vec<T>>
    requires
        describes_vec(tensor, dtype),
    ensures
        tensor.managed().dl_tensor.ndim == 1,
        tensor.managed().dl_tensor.shape@ == seq![tensor.context().guard.contents()@.len() as i64],
        tensor.managed().dl_tensor.strides@ == seq![1i64],
        tensor.managed().version.major == 1,
        tensor.managed().version.minor == 0,
        tensor.managed().flags == 0,
        tensor.managed().dl_tensor.device.device_type == DLDeviceType::kDLCPU,
        tensor.managed().dl_tensor.device.device_id == 0,
        tensor.managed().dl_tensor.dtype == dtype,
        tensor.managed().dl_tensor.byte_offset == 0,
{
}

/// A tensor that describes an array hands over the length and the stride of each of
/// its axes, whatever its layout, at the start of writable memory of the host.
pub proof fn array_is_handed_over_as_laid_out<G, A, T, D>(
    tensor: DLPackTensor<ArrayContext<G>>,
    dtype: DLDataType,
) where
    G: Guard<Value = A>,
    A: Deref<Target = ArrayRef<T, D>> + 'static,
    ArrayRef<T, D>: ToOwned<Owned = A>,
    T: 'static,
    D: Dimension + 'static,

    requires
        describes_array(tensor, dtype),
    ensures
        ({
            let shape = shape_of(&tensor.context().guard.contents());
            let strides = strides_of(&tensor.context().guard.contents());
            let dl_tensor = tensor.managed().dl_tensor;
            &&& dl_tensor.ndim == shape.len() as i32
            &&& dl_tensor.shape@.len() == shape.len()
            &&& forall|k: int|
                0 <= k < shape.len() ==> #[trigger] dl_tensor.shape@[k] == shape[k]
            &&& dl_tensor.strides@.len() == shape.len()
            &&& strides.len() == shape.len()
            &&& forall|k: int|
                0 <= k < shape.len() ==> #[trigger] dl_tensor.strides@[k] == strides[k]
        }),
        integers(tensor.managed()@.dl_tensor.strides) == stride_values(
            strides_of(&tensor.context().guard.contents()),
        ),
        tensor.managed().version.major == 1,
        tensor.managed().version.minor == 0,
        tensor.managed().flags == 0,
        tensor.managed().dl_tensor.device.device_type == DLDeviceType::kDLCPU,
        tensor.managed().dl_tensor.device.device_id == 0,
        tensor.managed().dl_tensor.dtype == dtype,
        tensor.managed().dl_tensor.byte_offset == 0,
{
    let shape = shape_of(&tensor.context().guard.contents());
    let strides = strides_of(&tensor.context().guard.contents());
    let dl_tensor = tensor.managed().dl_tensor;
    assert(dl_tensor@ == tensor.managed()@.dl_tensor);
    assert forall|k: int| 0 <= k < shape.len() implies #[trigger] dl_tensor.shape@[k]
        == shape[k] by {
        assert(dl_tensor.shape@[k] == dlpack_shape(shape)[k]);
        assert(shape[k] <= isize::MAX);
    }
    assert forall|k: int| 0 <= k < shape.len() implies #[trigger] dl_tensor.strides@[k]
        == strides[k] by {
        assert(dl_tensor.strides@[k] == dlpack_strides(strides)[k]);
    }
}

/// A guard of a `Vec` of any length becomes a tensor that keeps that guard, and a
/// poisoned lock becomes the error: there is no other way to fail.
pub proof fn vec_guard_becomes_tensor<G, T>(
    lock: Result<G, PoisonError<G>>,
    dtype: DLDataType,
    outcome: Result<DLPackTensor<VecContext<G>>, DLPackVecError>,
) where G: Guard<Value = Vec<T>>
    requires
        call_ensures(crate::sync::from_lock::<G, Vec<T>>, (lock, dtype), outcome),
    ensures
        lock is Ok <==> outcome is Ok,
        lock is Ok ==> outcome->Ok_0.context().guard == lock->Ok_0,
        lock is Ok ==> describes_vec(outcome->Ok_0, dtype),
        lock is Err ==> outcome->Err_0 == DLPackVecError::LockPoisoned,
{
}

/// A guard of an array of any layout becomes a tensor that keeps that guard, and a
/// poisoned lock becomes the error: there is no other way to fail.
pub proof fn array_guard_becomes_tensor<G, A, T, D>(
    lock: Result<G, PoisonError<G>>,
    dtype: DLDataType,
    outcome: Result<DLPackTensor<ArrayContext<G>>, DLPackNDarrayError>,
) where
    G: Guard<Value = A>,
    A: Deref<Target = ArrayRef<T, D>> + 'static,
    ArrayRef<T, D>: ToOwned<Owned = A>,
    T: 'static,
    D: Dimension + 'static,

    requires
        call_ensures(crate::array::sync::from_lock::<G, A, T, D>, (lock, dtype), outcome),
    ensures
        lock is Ok <==> outcome is Ok,
        lock is Ok ==> outcome->Ok_0.context().guard == lock->Ok_0,
        lock is Ok ==> describes_array(outcome->Ok_0, dtype),
        lock is Err ==> outcome->Err_0 == DLPackNDarrayError::LockPoisoned,
{
}

/// The conversion of a `Vec` behind a mutex, with a data type that is passed in,
/// fails exactly where taking the mutex finds it poisoned. Otherwise the tensor keeps
/// the very guard that taking the mutex gave, holds the mutex and describes what it
/// protects.
pub proof fn mutex_vec_is_shared_as_taken<T>(
    array: Arc<Mutex<Vec<T>>>,
    dtype: DLDataType,
    outcome: Result<DLPackTensor<VecContext<ArcMutexGuardian<Vec<T>>>>, DLPackVecError>,
) where T: 'static
    requires
        call_ensures(crate::sync::from_mutex::<Vec<T>>, (array, dtype), outcome),
    ensures
        exists|lock: Result<ArcMutexGuardian<Vec<T>>, PoisonError<ArcMutexGuardian<Vec<T>>>>|
            {
                &&& #[trigger] call_ensures(ArcMutexGuardian::<Vec<T>>::take, (array,), lock)
                &&& lock is Ok <==> outcome is Ok
                &&& lock is Ok ==> outcome->Ok_0.context().guard == lock->Ok_0
            },
        outcome is Ok ==> outcome->Ok_0.context().guard.holds(array),
        outcome is Ok ==> describes_vec(outcome->Ok_0, dtype),
{
}

/// The conversion of a `Vec` behind a mutex, with the data type of the elements,
/// fails exactly where taking the mutex finds it poisoned. Otherwise the tensor keeps
/// the very guard that taking the mutex gave, holds the mutex and describes what it
/// protects.
pub proof fn try_from_mutex_vec_is_shared_as_taken<T>(
    array: Arc<Mutex<Vec<T>>>,
    outcome: Result<DLPackTensor<VecContext<ArcMutexGuardian<Vec<T>>>>, DLPackVecError>,
) where T: GetDLPackDataType + 'static
    requires
        call_ensures(
            <DLPackTensor<VecContext<ArcMutexGuardian<Vec<T>>>> as TryFrom<
                Arc<Mutex<Vec<T>>>,
            >>::try_from,
            (array,),
            outcome,
        ),
    ensures
        exists|lock: Result<ArcMutexGuardian<Vec<T>>, PoisonError<ArcMutexGuardian<Vec<T>>>>|
            {
                &&& #[trigger] call_ensures(ArcMutexGuardian::<Vec<T>>::take, (array,), lock)
                &&& lock is Ok <==> outcome is Ok
                &&& lock is Ok ==> outcome->Ok_0.context().guard == lock->Ok_0
            },
        outcome is Ok ==> outcome->Ok_0.context().guard.holds(array),
        outcome is Ok ==> describes_vec(outcome->Ok_0, T::data_type()),
{
}

/// The conversion of a `Vec` behind a reader-writer lock, with a data type that is passed in,
/// fails exactly where taking the lock finds it poisoned. Otherwise the tensor keeps
/// the very guard that taking the lock gave, holds the lock and describes what it
/// protects.
pub proof fn rwlock_vec_is_shared_as_taken<T>(
    array: Arc<RwLock<Vec<T>>>,
    dtype: DLDataType,
    outcome: Result<DLPackTensor<VecContext<ArcRwLockWriteGuardian<Vec<T>>>>, DLPackVecError>,
) where T: 'static
    requires
        call_ensures(crate::sync::from_rwlock::<Vec<T>>, (array, dtype), outcome),
    ensures
        exists|
            lock: Result<
                ArcRwLockWriteGuardian<Vec<T>>,
                PoisonError<ArcRwLockWriteGuardian<Vec<T>>>,
            >,
        |
            {
                &&& #[trigger] call_ensures(ArcRwLockWriteGuardian::<Vec<T>>::take, (array,), lock)
                &&& lock is Ok <==> outcome is Ok
                &&& lock is Ok ==> outcome->Ok_0.context().guard == lock->Ok_0
            },
        outcome is Ok ==> outcome->Ok_0.context().guard.holds(array),
        outcome is Ok ==> describes_vec(outcome->Ok_0, dtype),
{
}

/// The conversion of a `Vec` behind a reader-writer lock, with the data type of the elements,
/// fails exactly where taking the lock finds it poisoned. Otherwise the tensor keeps
/// the very guard that taking the lock gave, holds the lock and describes what it
/// protects.
pub proof fn try_from_rwlock_vec_is_shared_as_taken<T>(
    array: Arc<RwLock<Vec<T>>>,
    outcome: Result<DLPackTensor<VecContext<ArcRwLockWriteGuardian<Vec<T>>>>, DLPackVecError>,
) where T: GetDLPackDataType + 'static
    requires
        call_ensures(
            <DLPackTensor<VecContext<ArcRwLockWriteGuardian<Vec<T>>>> as TryFrom<
                Arc<RwLock<Vec<T>>>,
            >>::try_from,
            (array,),
            outcome,
        ),
    ensures
        exists|
            lock: Result<
                ArcRwLockWriteGuardian<Vec<T>>,
                PoisonError<ArcRwLockWriteGuardian<Vec<T>>>,
            >,
        |
            {
                &&& #[trigger] call_ensures(ArcRwLockWriteGuardian::<Vec<T>>::take, (array,), lock)
                &&& lock is Ok <==> outcome is Ok
                &&& lock is Ok ==> outcome->Ok_0.context().guard == lock->Ok_0
            },
        outcome is Ok ==> outcome->Ok_0.context().guard.holds(array),
        outcome is Ok ==> describes_vec(outcome->Ok_0, T::data_type()),
{
}

/// The conversion of an array behind a mutex, with a data type that is passed in,
/// fails exactly where taking the mutex finds it poisoned. Otherwise the tensor keeps
/// the very guard that taking the mutex gave, holds the mutex and describes what it
/// protects.
pub proof fn mutex_array_is_shared_as_taken<A, T, D>(
    array: Arc<Mutex<A>>,
    dtype: DLDataType,
    outcome: Result<DLPackTensor<ArrayContext<ArcMutexGuardian<A>>>, DLPackNDarrayError>,
) where
    A: Deref<Target = ArrayRef<T, D>> + 'static,
    ArrayRef<T, D>: ToOwned<Owned = A>,
    T: 'static,
    D: Dimension + 'static,

    requires
        call_ensures(crate::array::sync::from_mutex::<A, T, D>, (array, dtype), outcome),
    ensures
        exists|lock: Result<ArcMutexGuardian<A>, PoisonError<ArcMutexGuardian<A>>>|
            {
                &&& #[trigger] call_ensures(ArcMutexGuardian::<A>::take, (array,), lock)
                &&& lock is Ok <==> outcome is Ok
                &&& lock is Ok ==> outcome->Ok_0.context().guard == lock->Ok_0
            },
        outcome is Ok ==> outcome->Ok_0.context().guard.holds(array),
        outcome is Ok ==> describes_array(outcome->Ok_0, dtype),
{
}

/// The conversion of an array behind a mutex, with the data type of the elements,
/// fails exactly where taking the mutex finds it poisoned. Otherwise the tensor keeps
/// the very guard that taking the mutex gave, holds the mutex and describes what it
/// protects.
pub proof fn try_from_mutex_array_is_shared_as_taken<A, T, D>(
    array: Arc<Mutex<A>>,
    outcome: Result<DLPackTensor<ArrayContext<ArcMutexGuardian<A>>>, DLPackNDarrayError>,
) where
    A: Deref<Target = ArrayRef<T, D>> + 'static,
    ArrayRef<T, D>: ToOwned<Owned = A>,
    T: GetDLPackDataType + 'static,
    D: Dimension + 'static,

    requires
        call_ensures(
            DLPackTensor::<ArrayContext<ArcMutexGuardian<A>>>::try_from,
            (array,),
            outcome,
        ),
    ensures
        exists|lock: Result<ArcMutexGuardian<A>, PoisonError<ArcMutexGuardian<A>>>|
            {
                &&& #[trigger] call_ensures(ArcMutexGuardian::<A>::take, (array,), lock)
                &&& lock is Ok <==> outcome is Ok
                &&& lock is Ok ==> outcome->Ok_0.context().guard == lock->Ok_0
            },
        outcome is Ok ==> outcome->Ok_0.context().guard.holds(array),
        outcome is Ok ==> describes_array(outcome->Ok_0, T::data_type()),
{
}

/// The conversion of an array behind a reader-writer lock, with a data type that is passed in,
/// fails exactly where taking the lock finds it poisoned. Otherwise the tensor keeps
/// the very guard that taking the lock gave, holds the lock and describes what it
/// protects.
pub proof fn rwlock_array_is_shared_as_taken<A, T, D>(
    array: Arc<RwLock<A>>,
    dtype: DLDataType,
    outcome: Result<DLPackTensor<ArrayContext<ArcRwLockWriteGuardian<A>>>, DLPackNDarrayError>,
) where
    A: Deref<Target = ArrayRef<T, D>> + 'static,
    ArrayRef<T, D>: ToOwned<Owned = A>,
    T: 'static,
    D: Dimension + 'static,

    requires
        call_ensures(crate::array::sync::from_rwlock::<A, T, D>, (array, dtype), outcome),
    ensures
        exists|lock: Result<ArcRwLockWriteGuardian<A>, PoisonError<ArcRwLockWriteGuardian<A>>>|
            {
                &&& #[trigger] call_ensures(ArcRwLockWriteGuardian::<A>::take, (array,), lock)
                &&& lock is Ok <==> outcome is Ok
                &&& lock is Ok ==> outcome->Ok_0.context().guard == lock->Ok_0
            },
        outcome is Ok ==> outcome->Ok_0.context().guard.holds(array),
        outcome is Ok ==> describes_array(outcome->Ok_0, dtype),
{
}

/// The conversion of an array behind a reader-writer lock, with the data type of the elements,
/// fails exactly where taking the lock finds it poisoned. Otherwise the tensor keeps
/// the very guard that taking the lock gave, holds the lock and describes what it
/// protects.
pub proof fn try_from_rwlock_array_is_shared_as_taken<A, T, D>(
    array: Arc<RwLock<A>>,
    outcome: Result<DLPackTensor<ArrayContext<ArcRwLockWriteGuardian<A>>>, DLPackNDarrayError>,
) where
    A: Deref<Target = ArrayRef<T, D>> + 'static,
    ArrayRef<T, D>: ToOwned<Owned = A>,
    T: GetDLPackDataType + 'static,
    D: Dimension + 'static,

    requires
        call_ensures(
            DLPackTensor::<ArrayContext<ArcRwLockWriteGuardian<A>>>::try_from,
            (array,),
            outcome,
        ),
    ensures
        exists|lock: Result<ArcRwLockWriteGuardian<A>, PoisonError<ArcRwLockWriteGuardian<A>>>|
            {
                &&& #[trigger] call_ensures(ArcRwLockWriteGuardian::<A>::take, (array,), lock)
                &&& lock is Ok <==> outcome is Ok
                &&& lock is Ok ==> outcome->Ok_0.context().guard == lock->Ok_0
            },
        outcome is Ok ==> outcome->Ok_0.context().guard.holds(array),
        outcome is Ok ==> describes_array(outcome->Ok_0, T::data_type()),
{
}

} // verus!
