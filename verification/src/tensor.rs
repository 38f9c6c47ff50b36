//! Tensors that keep the lock of their data.

use vstd::prelude::*;

use crate::sys::{DLManagedTensorVersioned, DLTensor};

verus! {

/// A DLPack tensor over data that a lock protects.
///
/// The tensor owns its context `C`, which holds the guard of the lock: the lock
/// is held until the tensor is dropped.
pub struct DLPackTensor<C> {
    managed: DLManagedTensorVersioned,
    manager_ctx: C,
}

/// A borrowed tensor: the description of its memory and access to its elements.
pub struct DLPackTensorRefMut<'a, M> {
    /// The description of the memory.
    pub dl_tensor: &'a DLTensor,
    /// The elements, for changes to them.
    pub data: M,
}

impl<C> DLPackTensor<C> {
    /// The description that is handed over with the tensor.
    pub closed spec fn managed(self) -> DLManagedTensorVersioned {
        self.managed
    }

    /// What keeps the data of the tensor locked.
    pub closed spec fn context(self) -> C {
        self.manager_ctx
    }

    /// Joins a description and the context of the data that it describes.
    pub(crate) fn new(managed: DLManagedTensorVersioned, context: C) -> (tensor: DLPackTensor<C>)
        ensures
            tensor.managed() == managed,
            tensor.context() == context,
    {
        DLPackTensor { managed, manager_ctx: context }
    }

    /// The description of the memory.
    pub fn dl_tensor(&self) -> (dl_tensor: &DLTensor)
        ensures
            *dl_tensor == self.managed().dl_tensor,
    {
        &self.managed.dl_tensor
    }

    /// Takes the tensor apart. The lock is held until the context is dropped.
    pub fn into_parts(self) -> (parts: (DLManagedTensorVersioned, C))
        ensures
            parts.0 == self.managed(),
            parts.1 == self.context(),
    {
        (self.managed, self.manager_ctx)
    }

    /// Borrows the description, and the context for changes to the data.
    pub(crate) fn parts_mut(&mut self) -> (parts: (&DLTensor, &mut C))
        ensures
            *parts.0 == old(self).managed().dl_tensor,
            *parts.1 == old(self).context(),
            final(self).managed() == old(self).managed(),
            final(self).context() == *final(parts.1),
    {
        (&self.managed.dl_tensor, &mut self.manager_ctx)
    }
}

} // verus!
