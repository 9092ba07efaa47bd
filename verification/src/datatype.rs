use vstd::prelude::*;
use crate::enums::DataType;

verus! {

/// A Rust type that libfabric can carry in atomic and collective operations, with the
/// `enum fi_datatype` that describes it.
pub trait AsFiType {
    spec fn fi_datatype() -> DataType;

    fn as_fi_datatype() -> (r: DataType)
        ensures
            r == Self::fi_datatype(),
    ;
}

impl AsFiType for i8 {
    open spec fn fi_datatype() -> DataType {
        DataType::Int8
    }

    fn as_fi_datatype() -> (r: DataType) {
        DataType::Int8
    }
}

impl AsFiType for u8 {
    open spec fn fi_datatype() -> DataType {
        DataType::Uint8
    }

    fn as_fi_datatype() -> (r: DataType) {
        DataType::Uint8
    }
}

impl AsFiType for i16 {
    open spec fn fi_datatype() -> DataType {
        DataType::Int16
    }

    fn as_fi_datatype() -> (r: DataType) {
        DataType::Int16
    }
}

impl AsFiType for u16 {
    open spec fn fi_datatype() -> DataType {
        DataType::Uint16
    }

    fn as_fi_datatype() -> (r: DataType) {
        DataType::Uint16
    }
}

impl AsFiType for i32 {
    open spec fn fi_datatype() -> DataType {
        DataType::Int32
    }

    fn as_fi_datatype() -> (r: DataType) {
        DataType::Int32
    }
}

impl AsFiType for u32 {
    open spec fn fi_datatype() -> DataType {
        DataType::Uint32
    }

    fn as_fi_datatype() -> (r: DataType) {
        DataType::Uint32
    }
}

impl AsFiType for i64 {
    open spec fn fi_datatype() -> DataType {
        DataType::Int64
    }

    fn as_fi_datatype() -> (r: DataType) {
        DataType::Int64
    }
}

impl AsFiType for u64 {
    open spec fn fi_datatype() -> DataType {
        DataType::Uint64
    }

    fn as_fi_datatype() -> (r: DataType) {
        DataType::Uint64
    }
}

impl AsFiType for i128 {
    open spec fn fi_datatype() -> DataType {
        DataType::Int128
    }

    fn as_fi_datatype() -> (r: DataType) {
        DataType::Int128
    }
}

impl AsFiType for u128 {
    open spec fn fi_datatype() -> DataType {
        DataType::Uint28
    }

    fn as_fi_datatype() -> (r: DataType) {
        DataType::Uint28
    }
}

/// A `bool` is carried as one unsigned byte (0 or 1).
impl AsFiType for bool {
    open spec fn fi_datatype() -> DataType {
        DataType::Uint8
    }

    fn as_fi_datatype() -> (r: DataType) {
        DataType::Uint8
    }
}

} // verus!
