use std::sync::{Arc, Mutex, RwLock};

use dlpk::DLPackTensor;

#[test]
fn test_mutex() {
    let data = Arc::new(Mutex::new(vec![1, 2, 3]));

    {
        let mut tensor: DLPackTensor<_> = Arc::clone(&data).try_into().unwrap();
        assert!(data.try_lock().is_err(), "the mutex should be locked while the DLPackTensor exists");

        let tensor_mut_ref = tensor.as_mut();
        let slice: &mut [i32] = tensor_mut_ref.data;

        slice[1] = 42;
    }

    let lock = data.lock().unwrap();
    assert_eq!(&*lock, &[1, 42, 3]);
}

#[test]
fn test_rwlock() {
    let data = Arc::new(RwLock::new(vec![1, 2, 3]));

    {
        let mut tensor: DLPackTensor<_> = Arc::clone(&data).try_into().unwrap();
        assert!(data.try_read().is_err(), "the rwlock should be locked while the DLPackTensor exists");
        assert!(data.try_write().is_err(), "the rwlock should be locked while the DLPackTensor exists");

        let tensor_mut_ref = tensor.as_mut();
        let slice: &mut [i32] = tensor_mut_ref.data;

        slice[1] = 42;
    }

    let lock = data.read().unwrap();
    assert_eq!(&*lock, &[1, 42, 3]);
}
