use std::sync::{Arc, Mutex, PoisonError, RwLock};

use guardian::{ArcMutexGuardian, ArcRwLockWriteGuardian};
use ndarray::{
    arr0, arr1, arr2, Array1, Array2, ArrayD, ArrayViewMutD, Axis, IxDyn, ShapeBuilder, Slice,
};

use dlpk::array::sync::{convert_shape, convert_strides, ArrayContext};
use dlpk::array::{self, DLPackNDarrayError};
use dlpk::sync::{self, VecContext};
use dlpk::sys::{
    DLDataType, DLDataTypeCode, DLDevice, DLDeviceType, DLManagedTensorVersioned, DLPackVersion,
    DLTensor,
};
use dlpk::vec::DLPackVecError;
use dlpk::{DLPackTensor, GetDLPackDataType};

const INT32: DLDataType = DLDataType { code: DLDataTypeCode::kDLInt, bits: 32, lanes: 1 };
const FLOAT64: DLDataType = DLDataType { code: DLDataTypeCode::kDLFloat, bits: 64, lanes: 1 };

fn assert_host_memory(managed: &DLManagedTensorVersioned, dtype: DLDataType) {
    assert_eq!(managed.version, DLPackVersion { major: 1, minor: 0 });
    assert_eq!(managed.flags, 0);
    assert_eq!(
        managed.dl_tensor.device,
        DLDevice { device_type: DLDeviceType::kDLCPU, device_id: 0 }
    );
    assert_eq!(managed.dl_tensor.dtype, dtype);
    assert_eq!(managed.dl_tensor.byte_offset, 0);
}

fn assert_layout(tensor: &DLTensor, ndim: i32, shape: &[i64], strides: &[i64]) {
    assert_eq!(tensor.ndim, ndim);
    assert_eq!(tensor.shape, shape);
    assert_eq!(tensor.strides, strides);
}

#[test]
fn vec_behind_a_mutex_is_described() {
    let data = Arc::new(Mutex::new(vec![1i32, 2, 3]));
    let tensor: DLPackTensor<_> = Arc::clone(&data).try_into().unwrap();
    let (managed, context) = tensor.into_parts();
    assert_host_memory(&managed, INT32);
    assert_layout(&managed.dl_tensor, 1, &[3], &[1]);
    assert_eq!(*context.guard, [1, 2, 3]);
}

#[test]
fn vec_behind_a_rwlock_is_described() {
    let data = Arc::new(RwLock::new(vec![7i32; 5]));
    let tensor: DLPackTensor<_> = Arc::clone(&data).try_into().unwrap();
    let (managed, context) = tensor.into_parts();
    assert_host_memory(&managed, INT32);
    assert_layout(&managed.dl_tensor, 1, &[5], &[1]);
    assert_eq!(*context.guard, [7, 7, 7, 7, 7]);
}

#[test]
fn empty_vec_is_described() {
    let data: Arc<Mutex<Vec<u8>>> = Arc::new(Mutex::new(Vec::new()));
    let mut tensor: DLPackTensor<_> = data.try_into().unwrap();
    assert_layout(tensor.dl_tensor(), 1, &[0], &[1]);
    assert!(tensor.as_mut().data.is_empty());
}

#[test]
fn data_type_is_given_where_the_element_type_has_none() {
    let data = Arc::new(Mutex::new(vec![0.5f64, 1.5]));
    let (managed, _) = sync::from_mutex(data, FLOAT64).unwrap().into_parts();
    assert_host_memory(&managed, FLOAT64);
    let data = Arc::new(RwLock::new(vec![0.5f64, 1.5]));
    let (managed, _) = sync::from_rwlock(data, FLOAT64).unwrap().into_parts();
    assert_host_memory(&managed, FLOAT64);
    assert_layout(&managed.dl_tensor, 1, &[2], &[1]);
}

#[test]
fn lengths_and_strides_are_converted() {
    assert_eq!(convert_shape(&[]), Vec::<i64>::new());
    assert_eq!(convert_shape(&[2, 0, 3]), vec![2, 0, 3]);
    assert_eq!(convert_shape(&[i64::MAX as usize, usize::MAX]), vec![i64::MAX, -1]);
    assert_eq!(convert_strides(&[]), Vec::<i64>::new());
    assert_eq!(convert_strides(&[3, -1, 0]), vec![3, -1, 0]);
    assert_eq!(convert_strides(&[isize::MIN, isize::MAX]), vec![i64::MIN, i64::MAX]);
}

#[test]
fn layouts_are_described() {
    assert_layout(&sync::describe(4, INT32), 1, &[4], &[1]);
    assert_layout(&sync::describe(usize::MAX, INT32), 1, &[-1], &[1]);
    let tensor = array::sync::describe(&[2, 3], &[3, 1], FLOAT64);
    assert_layout(&tensor, 2, &[2, 3], &[3, 1]);
    assert_eq!(tensor.dtype, FLOAT64);
    assert_layout(&array::sync::describe(&[], &[], FLOAT64), 0, &[], &[]);
}

#[test]
fn array_is_described() {
    let array = Arc::new(Mutex::new(arr2(&[[1i32, 2, 3], [4, 5, 6]])));
    let tensor =
        DLPackTensor::<ArrayContext<ArcMutexGuardian<_>>>::try_from(Arc::clone(&array)).unwrap();
    assert!(array.try_lock().is_err());
    let (managed, context) = tensor.into_parts();
    assert_host_memory(&managed, INT32);
    assert_layout(&managed.dl_tensor, 2, &[2, 3], &[3, 1]);
    assert_eq!(*context.guard, arr2(&[[1, 2, 3], [4, 5, 6]]));

    let array = Arc::new(RwLock::new(arr2(&[[1i32, 2, 3], [4, 5, 6]])));
    let tensor =
        DLPackTensor::<ArrayContext<ArcRwLockWriteGuardian<_>>>::try_from(Arc::clone(&array))
            .unwrap();
    assert!(array.try_read().is_err());
    let (managed, _context) = tensor.into_parts();
    assert_host_memory(&managed, INT32);
    assert_layout(&managed.dl_tensor, 2, &[2, 3], &[3, 1]);
}

/// The elements 1 to 6 in logical order, standing in memory column by column.
fn column_major() -> Array2<i32> {
    Array2::from_shape_vec((2, 3).f(), vec![1, 4, 2, 5, 3, 6]).unwrap()
}

/// The elements 1 to 3, standing in memory backwards.
fn reversed() -> Array1<i32> {
    let mut array = arr1(&[3, 2, 1]);
    array.invert_axis(Axis(0));
    array
}

/// The elements 1 to 3, standing in memory with gaps.
fn gapped() -> Array1<i32> {
    let mut array = arr1(&[1, 0, 2, 0, 3]);
    array.slice_axis_inplace(Axis(0), Slice::new(0, None, 2));
    array
}

#[test]
fn array_layouts_are_kept() {
    let array = ArrayD::<i32>::zeros(IxDyn(&[2, 3, 4]).f());
    let tensor = array::sync::from_mutex(Arc::new(Mutex::new(array)), INT32).unwrap();
    assert_layout(tensor.dl_tensor(), 3, &[2, 3, 4], &[1, 2, 6]);

    let tensor = array::sync::from_rwlock(Arc::new(RwLock::new(reversed())), INT32).unwrap();
    assert_layout(tensor.dl_tensor(), 1, &[3], &[-1]);

    let tensor = array::sync::from_rwlock(Arc::new(RwLock::new(gapped())), INT32).unwrap();
    assert_layout(tensor.dl_tensor(), 1, &[3], &[2]);

    let tensor = array::sync::from_mutex(Arc::new(Mutex::new(arr0(9i32))), INT32).unwrap();
    assert_layout(tensor.dl_tensor(), 0, &[], &[]);
}

#[test]
fn elements_of_every_layout_are_borrowed_in_logical_order() {
    let array = Arc::new(Mutex::new(column_major()));
    let mut tensor = array::sync::from_mutex(Arc::clone(&array), INT32).unwrap();
    let borrowed = tensor.as_mut();
    assert_layout(borrowed.dl_tensor, 2, &[2, 3], &[1, 2]);
    assert_eq!(borrowed.data, [&1, &2, &3, &4, &5, &6]);
    *tensor.as_mut().data[5] = 60;
    *tensor.as_mut().data[1] = 20;
    assert_eq!(tensor.as_mut().data, [&1, &20, &3, &4, &5, &60]);
    assert_layout(tensor.dl_tensor(), 2, &[2, 3], &[1, 2]);
    assert!(array.try_lock().is_err());
    drop(tensor);
    assert_eq!(*array.lock().unwrap(), arr2(&[[1, 20, 3], [4, 5, 60]]));

    let array = Arc::new(RwLock::new(reversed()));
    let mut tensor = array::sync::from_rwlock(Arc::clone(&array), INT32).unwrap();
    assert_eq!(tensor.as_mut().data, [&1, &2, &3]);
    *tensor.as_mut().data[0] = 10;
    drop(tensor);
    assert_eq!(*array.read().unwrap(), arr1(&[10, 2, 3]));

    let array = Arc::new(RwLock::new(gapped()));
    let mut tensor = array::sync::from_rwlock(Arc::clone(&array), INT32).unwrap();
    assert_eq!(tensor.as_mut().data, [&1, &2, &3]);
    *tensor.as_mut().data[2] = 30;
    drop(tensor);
    assert_eq!(*array.read().unwrap(), arr1(&[1, 2, 30]));

    let single = Arc::new(Mutex::new(arr0(9i32)));
    let mut tensor = array::sync::from_mutex(single, INT32).unwrap();
    assert_eq!(tensor.as_mut().data, [&9]);

    let empty = ArrayD::<i32>::zeros(IxDyn(&[2, 0, 3]));
    let mut tensor = array::sync::from_mutex(Arc::new(Mutex::new(empty)), INT32).unwrap();
    assert!(tensor.as_mut().data.is_empty());
}

#[test]
fn memory_is_borrowed_where_it_is_in_logical_order() {
    let array = Arc::new(Mutex::new(arr2(&[[1i32, 2, 3], [4, 5, 6]])));
    let mut tensor = array::sync::from_mutex(Arc::clone(&array), INT32).unwrap();
    {
        let borrowed = tensor.as_mut_slice().unwrap();
        let shape: Vec<usize> = borrowed.dl_tensor.shape.iter().map(|&n| n as usize).collect();
        let strides: Vec<usize> = borrowed.dl_tensor.strides.iter().map(|&n| n as usize).collect();
        let layout = IxDyn(&shape).strides(IxDyn(&strides));
        let mut view = ArrayViewMutD::from_shape(layout, borrowed.data).unwrap();
        view[[1, 1]] = 50;
    }
    assert_eq!(tensor.as_mut_slice().unwrap().data, &mut [1, 2, 3, 4, 50, 6]);
    assert_eq!(tensor.as_mut().data, [&1, &2, &3, &4, &50, &6]);
    assert_layout(tensor.dl_tensor(), 2, &[2, 3], &[3, 1]);
    assert!(array.try_lock().is_err());
    drop(tensor);
    assert_eq!(*array.lock().unwrap(), arr2(&[[1, 2, 3], [4, 50, 6]]));

    let single = Arc::new(Mutex::new(arr0(9i32)));
    let mut tensor = array::sync::from_mutex(single, INT32).unwrap();
    assert_eq!(tensor.as_mut_slice().unwrap().data, &mut [9]);

    let empty = ArrayD::<i32>::zeros(IxDyn(&[2, 0, 3]).f());
    let mut tensor = array::sync::from_mutex(Arc::new(Mutex::new(empty)), INT32).unwrap();
    assert!(tensor.as_mut_slice().unwrap().data.is_empty());
}

#[test]
fn stride_of_an_axis_with_one_position_plays_no_part() {
    let mut row = arr2(&[[1i32, 2], [3, 4], [5, 6]]);
    row.slice_axis_inplace(Axis(0), Slice::new(1, Some(2), 1));
    let mut tensor = array::sync::from_mutex(Arc::new(Mutex::new(row)), INT32).unwrap();
    assert_layout(tensor.dl_tensor(), 2, &[1, 2], &[0, 1]);
    assert_eq!(tensor.as_mut_slice().unwrap().data, &mut [3, 4]);
}

#[test]
fn memory_in_another_order_is_left_alone() {
    let array = Arc::new(Mutex::new(column_major()));
    let mut tensor = array::sync::from_mutex(array, INT32).unwrap();
    assert!(tensor.as_mut_slice().is_none());
    assert_eq!(tensor.as_mut().data, [&1, &2, &3, &4, &5, &6]);

    let mut tensor = array::sync::from_mutex(Arc::new(Mutex::new(reversed())), INT32).unwrap();
    assert!(tensor.as_mut_slice().is_none());
    let mut tensor = array::sync::from_mutex(Arc::new(Mutex::new(gapped())), INT32).unwrap();
    assert!(tensor.as_mut_slice().is_none());
}

#[test]
fn conversion_can_be_repeated() {
    let array = Arc::new(RwLock::new(column_major()));
    for last in [6, 7] {
        let mut tensor = array::sync::from_rwlock(Arc::clone(&array), INT32).unwrap();
        assert_layout(tensor.dl_tensor(), 2, &[2, 3], &[1, 2]);
        assert_eq!(tensor.as_mut().data, [&1, &2, &3, &4, &5, &last]);
        *tensor.as_mut().data[5] = last + 1;
    }
    assert_eq!(array.read().unwrap()[[1, 2]], 8);
}

#[test]
fn one_axis_array_is_described_as_vec() {
    let vec: DLPackTensor<_> = Arc::new(Mutex::new(vec![1i32, 2, 3])).try_into().unwrap();
    let array = Arc::new(RwLock::new(arr1(&[1i32, 2, 3])));
    let array = array::sync::from_rwlock(array, INT32).unwrap();
    assert_layout(vec.dl_tensor(), 1, &array.dl_tensor().shape, &array.dl_tensor().strides);
    assert_eq!(vec.dl_tensor().dtype, array.dl_tensor().dtype);
}

#[test]
fn described_offsets_find_the_elements() {
    let array = Arc::new(Mutex::new(arr2(&[[1i32, 2, 3], [4, 5, 6]])));
    let mut tensor = array::sync::from_mutex(array, INT32).unwrap();
    let borrowed = tensor.as_mut_slice().unwrap();
    let strides = &borrowed.dl_tensor.strides;
    for i in 0..2 {
        for j in 0..3 {
            let offset = i * strides[0] + j * strides[1];
            assert_eq!(borrowed.data[offset as usize], (3 * i + j + 1) as i32);
        }
    }
}

#[test]
fn poisoned_locks_are_refused() {
    let guard = ArcMutexGuardian::take(Arc::new(Mutex::new(vec![1i32]))).unwrap();
    let outcome = sync::from_lock(Err(PoisonError::new(guard)), INT32);
    assert_eq!(outcome.map(|_| ()), Err(DLPackVecError::LockPoisoned));

    let guard = ArcRwLockWriteGuardian::take(Arc::new(RwLock::new(arr1(&[1i32])))).unwrap();
    let outcome = array::sync::from_lock(Err(PoisonError::new(guard)), INT32);
    assert_eq!(outcome.map(|_| ()), Err(DLPackNDarrayError::LockPoisoned));
}

#[test]
fn guards_become_tensors() {
    let guard = ArcMutexGuardian::take(Arc::new(Mutex::new(vec![1i32, 2]))).unwrap();
    let tensor = sync::from_lock(Ok(guard), INT32).unwrap();
    assert_layout(tensor.dl_tensor(), 1, &[2], &[1]);

    let guard = ArcMutexGuardian::take(Arc::new(Mutex::new(arr1(&[1i32, 2])))).unwrap();
    let tensor = array::sync::from_lock(Ok(guard), INT32).unwrap();
    assert_layout(tensor.dl_tensor(), 1, &[2], &[1]);
}

#[test]
fn writes_are_kept_and_the_description_stays_right() {
    let data = Arc::new(RwLock::new(vec![1i32, 2, 3]));
    let mut tensor: DLPackTensor<VecContext<_>> = Arc::clone(&data).try_into().unwrap();
    tensor.as_mut().data[0] = 10;
    tensor.as_mut().data[2] = 30;
    assert_eq!(tensor.as_mut().data, &mut [10, 2, 30]);
    assert_layout(tensor.dl_tensor(), 1, &[3], &[1]);
    assert!(data.try_read().is_err());
    drop(tensor);
    assert_eq!(*data.try_read().unwrap(), [10, 2, 30]);
}

#[test]
fn lock_is_held_until_the_tensor_or_its_context_is_dropped() {
    let data = Arc::new(Mutex::new(vec![1i32]));
    let tensor: DLPackTensor<_> = Arc::clone(&data).try_into().unwrap();
    assert!(data.try_lock().is_err());
    drop(tensor);
    assert!(data.try_lock().is_ok());

    let tensor: DLPackTensor<_> = Arc::clone(&data).try_into().unwrap();
    let (managed, context) = tensor.into_parts();
    drop(managed);
    assert!(data.try_lock().is_err());
    drop(context);
    assert!(data.try_lock().is_ok());
}

#[test]
fn data_lives_as_long_as_the_tensor() {
    let data = Arc::new(Mutex::new(vec![1i32, 2]));
    let weak = Arc::downgrade(&data);
    let mut tensor: DLPackTensor<_> = data.try_into().unwrap();
    assert!(weak.upgrade().is_some());
    assert_eq!(tensor.as_mut().data, &mut [1, 2]);
    drop(tensor);
    assert!(weak.upgrade().is_none());
}

#[test]
fn data_types_of_elements() {
    let cases = [
        (i8::get_dlpack_data_type(), DLDataTypeCode::kDLInt, 8),
        (i16::get_dlpack_data_type(), DLDataTypeCode::kDLInt, 16),
        (i32::get_dlpack_data_type(), DLDataTypeCode::kDLInt, 32),
        (i64::get_dlpack_data_type(), DLDataTypeCode::kDLInt, 64),
        (u8::get_dlpack_data_type(), DLDataTypeCode::kDLUInt, 8),
        (u16::get_dlpack_data_type(), DLDataTypeCode::kDLUInt, 16),
        (u32::get_dlpack_data_type(), DLDataTypeCode::kDLUInt, 32),
        (u64::get_dlpack_data_type(), DLDataTypeCode::kDLUInt, 64),
        (bool::get_dlpack_data_type(), DLDataTypeCode::kDLBool, 8),
    ];
    for (dtype, code, bits) in cases {
        assert_eq!(dtype, DLDataType { code, bits, lanes: 1 });
    }
}

#[test]
fn data_is_handed_over_as_it_is() {
    let mut values = Vec::with_capacity(8);
    values.extend([1i32, 2, 3]);
    let start = values.as_ptr();
    let capacity = values.capacity();
    let data = Arc::new(Mutex::new(values));
    let tensor: DLPackTensor<_> = Arc::clone(&data).try_into().unwrap();
    let (managed, context) = tensor.into_parts();
    assert_layout(&managed.dl_tensor, 1, &[3], &[1]);
    assert_eq!(*context.guard, [1, 2, 3]);
    assert_eq!(context.guard.as_ptr(), start);
    assert_eq!(context.guard.capacity(), capacity);
    drop(context);
    assert_eq!(*data.lock().unwrap(), [1, 2, 3]);

    let data = Arc::new(RwLock::new(vec![4i32, 5]));
    let tensor: DLPackTensor<VecContext<_>> = Arc::clone(&data).try_into().unwrap();
    drop(tensor);
    assert_eq!(*data.read().unwrap(), [4, 5]);

    let array = Arc::new(Mutex::new(column_major()));
    drop(array::sync::from_mutex(Arc::clone(&array), INT32).unwrap());
    assert_eq!(*array.lock().unwrap(), column_major());
    let array = Arc::new(RwLock::new(gapped()));
    drop(array::sync::from_rwlock(Arc::clone(&array), INT32).unwrap());
    assert_eq!(*array.read().unwrap(), gapped());
}

#[test]
fn array_lock_is_held_until_the_tensor_or_its_context_is_dropped() {
    let array = Arc::new(RwLock::new(arr1(&[1i32, 2])));
    let mut tensor = array::sync::from_rwlock(Arc::clone(&array), INT32).unwrap();
    *tensor.as_mut().data[0] = 10;
    assert!(array.try_read().is_err());
    tensor.as_mut_slice().unwrap().data[1] = 20;
    assert!(array.try_write().is_err());
    let moved = tensor;
    assert!(array.try_read().is_err());
    let (managed, context) = moved.into_parts();
    assert_layout(&managed.dl_tensor, 1, &[2], &[1]);
    assert!(array.try_write().is_err());
    drop(context);
    assert_eq!(*array.try_read().unwrap(), arr1(&[10, 20]));
}
