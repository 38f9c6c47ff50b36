//! The DLPack data types of Rust's element types.

use vstd::prelude::*;

use crate::sys::{DLDataType, DLDataTypeCode};

verus! {

/// The element types that DLPack has a data type for.
pub trait GetDLPackDataType {
    /// The DLPack data type of `Self`.
    spec fn data_type() -> DLDataType;

    /// Returns the DLPack data type of `Self`.
    fn get_dlpack_data_type() -> (dtype: DLDataType)
        ensures
            dtype == Self::data_type(),
    ;
}

impl GetDLPackDataType for i8 {
    open spec fn data_type() -> DLDataType {
        DLDataType { code: DLDataTypeCode::kDLInt, bits: 8, lanes: 1 }
    }

    fn get_dlpack_data_type() -> (dtype: DLDataType) {
        DLDataType { code: DLDataTypeCode::kDLInt, bits: 8, lanes: 1 }
    }
}

impl GetDLPackDataType for i16 {
    open spec fn data_type() -> DLDataType {
        DLDataType { code: DLDataTypeCode::kDLInt, bits: 16, lanes: 1 }
    }

    fn get_dlpack_data_type() -> (dtype: DLDataType) {
        DLDataType { code: DLDataTypeCode::kDLInt, bits: 16, lanes: 1 }
    }
}

impl GetDLPackDataType for i32 {
    open spec fn data_type() -> DLDataType {
        DLDataType { code: DLDataTypeCode::kDLInt, bits: 32, lanes: 1 }
    }

    fn get_dlpack_data_type() -> (dtype: DLDataType) {
        DLDataType { code: DLDataTypeCode::kDLInt, bits: 32, lanes: 1 }
    }
}

impl GetDLPackDataType for i64 {
    open spec fn data_type() -> DLDataType {
        DLDataType { code: DLDataTypeCode::kDLInt, bits: 64, lanes: 1 }
    }

    fn get_dlpack_data_type() -> (dtype: DLDataType) {
        DLDataType { code: DLDataTypeCode::kDLInt, bits: 64, lanes: 1 }
    }
}

impl GetDLPackDataType for u8 {
    open spec fn data_type() -> DLDataType {
        DLDataType { code: DLDataTypeCode::kDLUInt, bits: 8, lanes: 1 }
    }

    fn get_dlpack_data_type() -> (dtype: DLDataType) {
        DLDataType { code: DLDataTypeCode::kDLUInt, bits: 8, lanes: 1 }
    }
}

impl GetDLPackDataType for u16 {
    open spec fn data_type() -> DLDataType {
        DLDataType { code: DLDataTypeCode::kDLUInt, bits: 16, lanes: 1 }
    }

    fn get_dlpack_data_type() -> (dtype: DLDataType) {
        DLDataType { code: DLDataTypeCode::kDLUInt, bits: 16, lanes: 1 }
    }
}

impl GetDLPackDataType for u32 {
    open spec fn data_type() -> DLDataType {
        DLDataType { code: DLDataTypeCode::kDLUInt, bits: 32, lanes: 1 }
    }

    fn get_dlpack_data_type() -> (dtype: DLDataType) {
        DLDataType { code: DLDataTypeCode::kDLUInt, bits: 32, lanes: 1 }
    }
}

impl GetDLPackDataType for u64 {
    open spec fn data_type() -> DLDataType {
        DLDataType { code: DLDataTypeCode::kDLUInt, bits: 64, lanes: 1 }
    }

    fn get_dlpack_data_type() -> (dtype: DLDataType) {
        DLDataType { code: DLDataTypeCode::kDLUInt, bits: 64, lanes: 1 }
    }
}

impl GetDLPackDataType for bool {
    open spec fn data_type() -> DLDataType {
        DLDataType { code: DLDataTypeCode::kDLBool, bits: 8, lanes: 1 }
    }

    fn get_dlpack_data_type() -> (dtype: DLDataType) {
        DLDataType { code: DLDataTypeCode::kDLBool, bits: 8, lanes: 1 }
    }
}

} // verus!
