//! The types of cumulative sums and products.

use crate::datatypes::{DataType, SpecDataType};
use vstd::prelude::*;

verus! {

/// Whether a type is stored as another type than itself.
pub open spec fn is_logical(dtype: SpecDataType) -> bool {
    dtype != dtype.physical()
}

/// The type of a cumulative sum: a logical type is kept; booleans are
/// counted in 32 bits; integers of 32 and 64 bits and floats are kept; every
/// other type is summed in signed 64 bits.
pub open spec fn cumsum_dtype(dtype: SpecDataType) -> SpecDataType {
    if is_logical(dtype) {
        dtype
    } else {
        match dtype {
            SpecDataType::Boolean => SpecDataType::UInt32,
            SpecDataType::Int32 => SpecDataType::Int32,
            SpecDataType::UInt32 => SpecDataType::UInt32,
            SpecDataType::UInt64 => SpecDataType::UInt64,
            SpecDataType::Float32 => SpecDataType::Float32,
            SpecDataType::Float64 => SpecDataType::Float64,
            _ => SpecDataType::Int64,
        }
    }
}

/// The type of a cumulative product: unsigned 64-bit integers and floats
/// are kept; every other type is multiplied in signed 64 bits.
pub open spec fn cumprod_dtype(dtype: SpecDataType) -> SpecDataType {
    match dtype {
        SpecDataType::UInt64 => SpecDataType::UInt64,
        SpecDataType::Float32 => SpecDataType::Float32,
        SpecDataType::Float64 => SpecDataType::Float64,
        _ => SpecDataType::Int64,
    }
}

/// The type of the cumulative sum of a column of the given type.
pub fn cumsum(dtype: &DataType) -> (r: DataType)
    ensures
        r@ == cumsum_dtype(dtype@),
{
    if !dtype.same_as(&dtype.to_physical()) {
        return dtype.clone();
    }
    match dtype {
        DataType::Boolean => DataType::UInt32,
        DataType::Int32 => DataType::Int32,
        DataType::UInt32 => DataType::UInt32,
        DataType::UInt64 => DataType::UInt64,
        DataType::Float32 => DataType::Float32,
        DataType::Float64 => DataType::Float64,
        _ => DataType::Int64,
    }
}

/// The type of the cumulative product of a column of the given type.
pub fn cumprod(dtype: &DataType) -> (r: DataType)
    ensures
        r@ == cumprod_dtype(dtype@),
{
    match dtype {
        DataType::UInt64 => DataType::UInt64,
        DataType::Float32 => DataType::Float32,
        DataType::Float64 => DataType::Float64,
        _ => DataType::Int64,
    }
}

} // verus!
