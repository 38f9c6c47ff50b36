//! Sharing of lock-protected Rust data as DLPack tensors.
//!
//! A `Vec` or an ndarray `Array` that lives behind an `Arc<Mutex<_>>` or an
//! `Arc<RwLock<_>>` is turned into a [`DLPackTensor`]: the description of its
//! memory that DLPack consumers read, together with the guard of its lock. The
//! lock is held until the tensor is dropped, so the data cannot be used by Rust
//! and by a DLPack consumer at the same time.

pub mod array;
pub mod data_type;
mod elements;
pub mod guard;
pub mod laws;
pub mod sync;
pub mod sys;
pub mod tensor;
pub mod vec;

pub use crate::data_type::GetDLPackDataType;
pub use crate::tensor::{DLPackTensor, DLPackTensorRefMut};
