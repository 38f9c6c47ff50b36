use std::sync::{Arc, Mutex, RwLock};

use ndarray::{arr2, ArrayD, IxDyn};

use dlpk::array::sync::{from_mutex, from_rwlock};
use dlpk::sys::{DLDataType, DLDataTypeCode};
use dlpk::DLPackTensorRefMut;

const FLOAT64: DLDataType = DLDataType { code: DLDataTypeCode::kDLFloat, bits: 64, lanes: 1 };

/// The array that a consumer sees: its elements under the described shape.
fn view<'a, T>(tensor: DLPackTensorRefMut<'a, Vec<&'a mut T>>) -> ArrayD<&'a mut T> {
    let shape: Vec<usize> = tensor.dl_tensor.shape.iter().map(|&s| s as usize).collect();
    ArrayD::from_shape_vec(IxDyn(&shape), tensor.data).unwrap()
}

#[test]
fn sync_test_mutex() {
    let array = Arc::new(Mutex::new(arr2(&[[1.0, 2.0, 3.0], [4.0, 5.0, 6.0]])));

    {
        let mut tensor = from_mutex(Arc::clone(&array), FLOAT64).unwrap();
        assert!(array.try_lock().is_err(), "the mutex should be locked while the DLPackTensor exists");

        let tensor_mut_ref = tensor.as_mut();
        let mut view: ArrayD<&mut f64> = view(tensor_mut_ref);

        *view[[1, 1]] = 42.0;
    }

    let array = array.lock().unwrap();
    assert_eq!(*array, arr2(&[[1.0, 2.0, 3.0], [4.0, 42.0, 6.0]]));
}

#[test]
fn sync_test_rwlock() {
    let array = Arc::new(RwLock::new(arr2(&[[1.0, 2.0, 3.0], [4.0, 5.0, 6.0]])));

    {
        let mut tensor = from_rwlock(Arc::clone(&array), FLOAT64).unwrap();
        assert!(array.try_read().is_err(), "the rwlock should be locked while the DLPackTensor exists");
        assert!(array.try_write().is_err(), "the rwlock should be locked while the DLPackTensor exists");

        let tensor_mut_ref = tensor.as_mut();
        let mut view: ArrayD<&mut f64> = view(tensor_mut_ref);

        *view[[1, 1]] = 42.0;
    }

    let array = array.read().unwrap();
    assert_eq!(*array, arr2(&[[1.0, 2.0, 3.0], [4.0, 42.0, 6.0]]));
}

#[test]
fn test_mutex_last_arc_ref() {
    let array = Arc::new(Mutex::new(arr2(&[[1.0, 2.0], [3.0, 4.0]])));
    let tensor = from_mutex(array, FLOAT64).unwrap();
    drop(tensor);
}

#[test]
fn test_rwlock_last_arc_ref() {
    let array = Arc::new(RwLock::new(arr2(&[[1.0, 2.0], [3.0, 4.0]])));
    let tensor = from_rwlock(array, FLOAT64).unwrap();
    drop(tensor);
}
