//! The plain data of the DLPack interface: what a producer tells a consumer
//! about a tensor. The addresses that accompany it in memory are not part of it.

use vstd::prelude::*;

verus! {

/// The major version of the DLPack interface that the tensors follow.
pub const DLPACK_MAJOR_VERSION: u32 = 1;

/// The minor version of the DLPack interface that the tensors follow.
pub const DLPACK_MINOR_VERSION: u32 = 0;

/// A version of the DLPack interface.
#[derive(Clone, Copy, Debug, PartialEq, Eq, Structural)]
pub struct DLPackVersion {
    pub major: u32,
    pub minor: u32,
}

impl DLPackVersion {
    /// The version of the DLPack interface that the tensors follow.
    pub open spec fn spec_current() -> DLPackVersion {
        DLPackVersion { major: DLPACK_MAJOR_VERSION, minor: DLPACK_MINOR_VERSION }
    }

    /// The version of the DLPack interface that the tensors follow.
    #[verifier::when_used_as_spec(spec_current)]
    pub fn current() -> (version: DLPackVersion)
        ensures
            version == Self::spec_current(),
            version.major == 1,
            version.minor == 0,
    {
        DLPackVersion { major: DLPACK_MAJOR_VERSION, minor: DLPACK_MINOR_VERSION }
    }
}

/// The kinds of device that the memory of a tensor can be on.
#[allow(non_camel_case_types)]
#[derive(Clone, Copy, Debug, PartialEq, Eq, Structural)]
pub enum DLDeviceType {
    kDLCPU,
    kDLCUDA,
    kDLCUDAHost,
    kDLOpenCL,
    kDLVulkan,
    kDLMetal,
    kDLVPI,
    kDLROCM,
    kDLROCMHost,
    kDLExtDev,
    kDLCUDAManaged,
    kDLOneAPI,
    kDLWebGPU,
    kDLHexagon,
    kDLMAIA,
}

/// The device that the memory of a tensor is on.
#[derive(Clone, Copy, Debug, PartialEq, Eq, Structural)]
pub struct DLDevice {
    pub device_type: DLDeviceType,
    pub device_id: i32,
}

/// The kinds of number that a tensor can hold.
#[allow(non_camel_case_types)]
#[derive(Clone, Copy, Debug, PartialEq, Eq, Structural)]
pub enum DLDataTypeCode {
    kDLInt,
    kDLUInt,
    kDLFloat,
    kDLOpaqueHandle,
    kDLBfloat,
    kDLComplex,
    kDLBool,
}

/// The type of the elements of a tensor.
#[derive(Clone, Copy, Debug, PartialEq, Eq, Structural)]
pub struct DLDataType {
    pub code: DLDataTypeCode,
    pub bits: u8,
    pub lanes: u16,
}

/// What a consumer reads about the memory of a tensor.
#[derive(Clone, Debug)]
pub struct DLTensor {
    /// The device that the memory is on.
    pub device: DLDevice,
    /// The number of axes.
    pub ndim: i32,
    /// The type of the elements.
    pub dtype: DLDataType,
    /// The length of each axis.
    pub shape: Vec<i64>,
    /// The distance, in elements, between neighbours along each axis.
    pub strides: Vec<i64>,
    /// The distance, in bytes, from the start of the memory to the first element.
    pub byte_offset: u64,
}

/// The mathematical value of a [`DLTensor`].
#[verifier::ext_equal]
pub struct TensorDescription {
    pub device: DLDevice,
    pub ndim: i32,
    pub dtype: DLDataType,
    pub shape: Seq<i64>,
    pub strides: Seq<i64>,
    pub byte_offset: u64,
}

impl View for DLTensor {
    type V = TensorDescription;

    open spec fn view(&self) -> TensorDescription {
        TensorDescription {
            device: self.device,
            ndim: self.ndim,
            dtype: self.dtype,
            shape: self.shape@,
            strides: self.strides@,
            byte_offset: self.byte_offset,
        }
    }
}

/// The numbers of a description as integers.
pub open spec fn integers(numbers: Seq<i64>) -> Seq<int> {
    numbers.map_values(|n: i64| n as int)
}

/// The description of memory of the host whose first element stands at its
/// start.
pub open spec fn cpu_description(
    dtype: DLDataType,
    shape: Seq<i64>,
    strides: Seq<i64>,
) -> TensorDescription {
    TensorDescription {
        device: DLDevice { device_type: DLDeviceType::kDLCPU, device_id: 0 },
        ndim: shape.len() as i32,
        dtype,
        shape,
        strides,
        byte_offset: 0,
    }
}

impl DLTensor {
    /// Describes memory of the host whose first element stands at its start.
    pub fn cpu(dtype: DLDataType, shape: Vec<i64>, strides: Vec<i64>) -> (tensor: DLTensor)
        ensures
            tensor@ == cpu_description(dtype, shape@, strides@),
            tensor.shape == shape,
            tensor.strides == strides,
    {
        let ndim: i32 = #[verifier::truncate] (shape.len() as i32);
        DLTensor {
            device: DLDevice { device_type: DLDeviceType::kDLCPU, device_id: 0 },
            ndim,
            dtype,
            shape,
            strides,
            byte_offset: 0,
        }
    }
}

/// A tensor description together with what a consumer needs to know about how it
/// is handed over.
#[derive(Clone, Debug)]
pub struct DLManagedTensorVersioned {
    /// The version of the DLPack interface that the rest follows.
    pub version: DLPackVersion,
    /// Properties of the memory, one per bit; none is set for memory that the
    /// consumer may write to and that is not a copy.
    pub flags: u64,
    /// The description of the memory.
    pub dl_tensor: DLTensor,
}

/// The mathematical value of a [`DLManagedTensorVersioned`].
#[verifier::ext_equal]
pub struct ManagedDescription {
    pub version: DLPackVersion,
    pub flags: u64,
    pub dl_tensor: TensorDescription,
}

impl View for DLManagedTensorVersioned {
    type V = ManagedDescription;

    open spec fn view(&self) -> ManagedDescription {
        ManagedDescription {
            version: self.version,
            flags: self.flags,
            dl_tensor: self.dl_tensor@,
        }
    }
}

/// What is handed over for writable memory that is not a copy.
pub open spec fn shared(dl_tensor: TensorDescription) -> ManagedDescription {
    ManagedDescription { version: DLPackVersion::current(), flags: 0, dl_tensor }
}

impl DLManagedTensorVersioned {
    /// Hands over writable memory that is not a copy.
    pub fn shared(dl_tensor: DLTensor) -> (managed: DLManagedTensorVersioned)
        ensures
            managed@ == shared(dl_tensor@),
            managed.dl_tensor == dl_tensor,
    {
        DLManagedTensorVersioned { version: DLPackVersion::current(), flags: 0, dl_tensor }
    }
}

} // verus!
