# dlpk

Shares `Vec`s and ndarray arrays that live behind an `Arc<Mutex<_>>` or an
`Arc<RwLock<_>>` as DLPack tensors. The data is not copied. A tensor owns the
guard of the lock, so the lock is held until the tensor is dropped.

- `src/` is the library, verified with Verus: the description of the memory, the
  tensors, and the conversions.
  - `sys` holds the DLPack structures without their addresses, `data_type` the
    data types of Rust's integers and of `bool`.
  - `guard` holds what is trusted of locks and guards, `array::layout` what is
    trusted of ndarray, `array::index` how the elements of an array are counted.
  - `sync` and `array::sync` hold the conversions, `laws` what holds of all of
    them.
- `app/` hands tensors over to C code: it adds the addresses and the deleter.
- `tests/` runs the library.

`as_mut` borrows the elements of a tensor. For an array it gives them in logical
order, whatever their order in memory; `as_mut_slice` gives the memory itself where
it is in that order.

A floating-point element type has its data type passed in by the caller:
`sync::from_mutex(array, dtype)` and its siblings take one.
