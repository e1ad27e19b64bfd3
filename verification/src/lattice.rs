//! The boundary to the type lattice of polars-core.
//!
//! The lattice's own data type is opaque to the verifier. Its values are
//! built and taken apart through the small trusted functions of this module,
//! each of which states which data type its result stands for. On top of
//! them, [`to_lattice`] and [`from_lattice`] convert between the two
//! representations, and [`try_get_supertype`] asks the lattice for the
//! common supertype of two data types.

use crate::datatypes::{
    clone_time_zone, fields_view, lemma_struct_view, time_zone_view, DataType, Field, SpecDataType,
    SpecField, TimeUnit,
};
use crate::error::{ResolveError, SpecResolveError};
use polars_core::datatypes::DataType as LatticeType;
use polars_core::datatypes::Field as LatticeField;
use polars_core::datatypes::TimeUnit as LatticeUnit;
use vstd::prelude::*;

verus! {

#[verifier::external_type_specification]
#[verifier::external_body]
pub struct ExLatticeType(LatticeType);

#[verifier::external_type_specification]
#[verifier::external_body]
pub struct ExLatticeField(LatticeField);

/// The data type that a value of the lattice's type stands for. A
/// categorical type stands for [`SpecDataType::Categorical`] whatever
/// dictionary it carries, as in the lattice's own equality.
pub uninterp spec fn lattice_view(t: LatticeType) -> SpecDataType;

/// The field that a value of the lattice's field type stands for.
pub uninterp spec fn lattice_field_view(f: LatticeField) -> SpecField;

/// What `polars_core::utils::get_supertype` returns for two data types:
/// the type that both can be cast to, or `None` where the lattice has none.
pub uninterp spec fn supertype(left: SpecDataType, right: SpecDataType) -> Option<SpecDataType>;

/// What `Display` of polars-core writes for a data type: its short name,
/// with the parameters of a temporal or nested type in square brackets.
pub uninterp spec fn display_name(dtype: SpecDataType) -> Seq<char>;

/// The fields that a list of the lattice's fields stands for, in order.
pub open spec fn lattice_fields_view(fields: Seq<LatticeField>) -> Seq<SpecField> {
    Seq::new(fields.len(), |i: int| lattice_field_view(fields[i]))
}

/// The variant `DataType::Boolean` of polars-core: the lattice's boolean type.
#[verifier::external_body]
fn lattice_boolean() -> (t: LatticeType)
    ensures
        lattice_view(t) == SpecDataType::Boolean,
{
    LatticeType::Boolean
}

/// The variant `DataType::UInt8` of polars-core: the lattice's unsigned 8-bit integer.
#[verifier::external_body]
fn lattice_uint8() -> (t: LatticeType)
    ensures
        lattice_view(t) == SpecDataType::UInt8,
{
    LatticeType::UInt8
}

/// The variant `DataType::UInt16` of polars-core: the lattice's unsigned 16-bit integer.
#[verifier::external_body]
fn lattice_uint16() -> (t: LatticeType)
    ensures
        lattice_view(t) == SpecDataType::UInt16,
{
    LatticeType::UInt16
}

/// The variant `DataType::UInt32` of polars-core: the lattice's unsigned 32-bit integer.
#[verifier::external_body]
fn lattice_uint32() -> (t: LatticeType)
    ensures
        lattice_view(t) == SpecDataType::UInt32,
{
    LatticeType::UInt32
}

/// The variant `DataType::UInt64` of polars-core: the lattice's unsigned 64-bit integer.
#[verifier::external_body]
fn lattice_uint64() -> (t: LatticeType)
    ensures
        lattice_view(t) == SpecDataType::UInt64,
{
    LatticeType::UInt64
}

/// The variant `DataType::Int8` of polars-core: the lattice's signed 8-bit integer.
#[verifier::external_body]
fn lattice_int8() -> (t: LatticeType)
    ensures
        lattice_view(t) == SpecDataType::Int8,
{
    LatticeType::Int8
}

/// The variant `DataType::Int16` of polars-core: the lattice's signed 16-bit integer.
#[verifier::external_body]
fn lattice_int16() -> (t: LatticeType)
    ensures
        lattice_view(t) == SpecDataType::Int16,
{
    LatticeType::Int16
}

/// The variant `DataType::Int32` of polars-core: the lattice's signed 32-bit integer.
#[verifier::external_body]
fn lattice_int32() -> (t: LatticeType)
    ensures
        lattice_view(t) == SpecDataType::Int32,
{
    LatticeType::Int32
}

/// The variant `DataType::Int64` of polars-core: the lattice's signed 64-bit integer.
#[verifier::external_body]
fn lattice_int64() -> (t: LatticeType)
    ensures
        lattice_view(t) == SpecDataType::Int64,
{
    LatticeType::Int64
}

/// The variant `DataType::Float32` of polars-core: the lattice's single-precision float.
#[verifier::external_body]
fn lattice_float32() -> (t: LatticeType)
    ensures
        lattice_view(t) == SpecDataType::Float32,
{
    LatticeType::Float32
}

/// The variant `DataType::Float64` of polars-core: the lattice's double-precision float.
#[verifier::external_body]
fn lattice_float64() -> (t: LatticeType)
    ensures
        lattice_view(t) == SpecDataType::Float64,
{
    LatticeType::Float64
}

/// The variant `DataType::Utf8` of polars-core: the lattice's string type.
#[verifier::external_body]
fn lattice_utf8() -> (t: LatticeType)
    ensures
        lattice_view(t) == SpecDataType::Utf8,
{
    LatticeType::Utf8
}

/// The variant `DataType::Binary` of polars-core: the lattice's binary type.
#[verifier::external_body]
fn lattice_binary() -> (t: LatticeType)
    ensures
        lattice_view(t) == SpecDataType::Binary,
{
    LatticeType::Binary
}

/// The variant `DataType::Date` of polars-core: the lattice's date type.
#[verifier::external_body]
fn lattice_date() -> (t: LatticeType)
    ensures
        lattice_view(t) == SpecDataType::Date,
{
    LatticeType::Date
}

/// The variant `DataType::Time` of polars-core: the lattice's time-of-day type.
#[verifier::external_body]
fn lattice_time() -> (t: LatticeType)
    ensures
        lattice_view(t) == SpecDataType::Time,
{
    LatticeType::Time
}

/// The variant `DataType::Null` of polars-core: the lattice's null type.
#[verifier::external_body]
fn lattice_null() -> (t: LatticeType)
    ensures
        lattice_view(t) == SpecDataType::Null,
{
    LatticeType::Null
}

/// The variant `DataType::Unknown` of polars-core: the lattice's unknown type.
#[verifier::external_body]
fn lattice_unknown() -> (t: LatticeType)
    ensures
        lattice_view(t) == SpecDataType::Unknown,
{
    LatticeType::Unknown
}

/// The variant `DataType::Categorical` of polars-core, without a dictionary.
#[verifier::external_body]
fn lattice_categorical() -> (t: LatticeType)
    ensures
        lattice_view(t) == SpecDataType::Categorical,
{
    LatticeType::Categorical(None)
}

/// The variant `DataType::Datetime` of polars-core with the unit
/// `TimeUnit::Nanoseconds` and the given time zone.
#[verifier::external_body]
fn lattice_datetime_ns(tz: Option<String>) -> (t: LatticeType)
    ensures
        lattice_view(t) == SpecDataType::Datetime(TimeUnit::Nanoseconds, time_zone_view(tz)),
{
    LatticeType::Datetime(LatticeUnit::Nanoseconds, tz)
}

/// The variant `DataType::Duration` of polars-core with the unit
/// `TimeUnit::Nanoseconds`.
#[verifier::external_body]
fn lattice_duration_ns() -> (t: LatticeType)
    ensures
        lattice_view(t) == SpecDataType::Duration(TimeUnit::Nanoseconds),
{
    LatticeType::Duration(LatticeUnit::Nanoseconds)
}

/// The variant `DataType::Datetime` of polars-core with the unit
/// `TimeUnit::Microseconds` and the given time zone.
#[verifier::external_body]
fn lattice_datetime_us(tz: Option<String>) -> (t: LatticeType)
    ensures
        lattice_view(t) == SpecDataType::Datetime(TimeUnit::Microseconds, time_zone_view(tz)),
{
    LatticeType::Datetime(LatticeUnit::Microseconds, tz)
}

/// The variant `DataType::Duration` of polars-core with the unit
/// `TimeUnit::Microseconds`.
#[verifier::external_body]
fn lattice_duration_us() -> (t: LatticeType)
    ensures
        lattice_view(t) == SpecDataType::Duration(TimeUnit::Microseconds),
{
    LatticeType::Duration(LatticeUnit::Microseconds)
}

/// The variant `DataType::Datetime` of polars-core with the unit
/// `TimeUnit::Milliseconds` and the given time zone.
#[verifier::external_body]
fn lattice_datetime_ms(tz: Option<String>) -> (t: LatticeType)
    ensures
        lattice_view(t) == SpecDataType::Datetime(TimeUnit::Milliseconds, time_zone_view(tz)),
{
    LatticeType::Datetime(LatticeUnit::Milliseconds, tz)
}

/// The variant `DataType::Duration` of polars-core with the unit
/// `TimeUnit::Milliseconds`.
#[verifier::external_body]
fn lattice_duration_ms() -> (t: LatticeType)
    ensures
        lattice_view(t) == SpecDataType::Duration(TimeUnit::Milliseconds),
{
    LatticeType::Duration(LatticeUnit::Milliseconds)
}

/// The constant `IDX_DTYPE` of polars-core: the type of row indices and row
/// counts, an unsigned 32-bit integer.
#[verifier::external_body]
fn lattice_index() -> (t: LatticeType)
    ensures
        lattice_view(t) == SpecDataType::UInt32,
{
    polars_core::datatypes::IDX_DTYPE
}

/// The variant `DataType::List` of polars-core around the given inner type.
#[verifier::external_body]
fn lattice_list(inner: LatticeType) -> (t: LatticeType)
    ensures
        lattice_view(t) == SpecDataType::List(Box::new(lattice_view(inner))),
{
    LatticeType::List(Box::new(inner))
}

/// The variant `DataType::Array` of polars-core around the given inner type,
/// with the given width.
#[verifier::external_body]
fn lattice_array(inner: LatticeType, width: usize) -> (t: LatticeType)
    ensures
        lattice_view(t) == SpecDataType::Array(Box::new(lattice_view(inner)), width),
{
    LatticeType::Array(Box::new(inner), width)
}

/// The variant `DataType::Struct` of polars-core over the given fields.
#[verifier::external_body]
fn lattice_struct(fields: Vec<LatticeField>) -> (t: LatticeType)
    ensures
        lattice_view(t) == SpecDataType::Struct(lattice_fields_view(fields@)),
{
    LatticeType::Struct(fields)
}

/// `Field::new` of polars-core: a field with the given name and type.
#[verifier::external_body]
fn lattice_field(name: &str, dtype: LatticeType) -> (f: LatticeField)
    ensures
        lattice_field_view(f) == (SpecField { name: name@, dtype: lattice_view(dtype) }),
{
    LatticeField::new(name, dtype)
}

/// `Field::name` of polars-core, as an owned string.
#[verifier::external_body]
fn lattice_field_name(f: &LatticeField) -> (name: String)
    ensures
        name@ == lattice_field_view(*f).name,
{
    f.name().to_string()
}

/// `Field::data_type` of polars-core, as an owned value.
#[verifier::external_body]
fn lattice_field_dtype(f: &LatticeField) -> (dtype: LatticeType)
    ensures
        lattice_view(dtype) == lattice_field_view(*f).dtype,
{
    f.data_type().clone()
}

/// The integer type that a model stands for, if it is one.
pub open spec fn integer_of(v: SpecDataType) -> Option<DataType> {
    match v {
        SpecDataType::UInt8 => Some(DataType::UInt8),
        SpecDataType::UInt16 => Some(DataType::UInt16),
        SpecDataType::UInt32 => Some(DataType::UInt32),
        SpecDataType::UInt64 => Some(DataType::UInt64),
        SpecDataType::Int8 => Some(DataType::Int8),
        SpecDataType::Int16 => Some(DataType::Int16),
        SpecDataType::Int32 => Some(DataType::Int32),
        SpecDataType::Int64 => Some(DataType::Int64),
        _ => None,
    }
}

/// The type without parameters, other than an integer, that a model stands
/// for, if it is one.
pub open spec fn plain_of(v: SpecDataType) -> Option<DataType> {
    match v {
        SpecDataType::Boolean => Some(DataType::Boolean),
        SpecDataType::Float32 => Some(DataType::Float32),
        SpecDataType::Float64 => Some(DataType::Float64),
        SpecDataType::Utf8 => Some(DataType::Utf8),
        SpecDataType::Binary => Some(DataType::Binary),
        SpecDataType::Date => Some(DataType::Date),
        SpecDataType::Time => Some(DataType::Time),
        SpecDataType::Null => Some(DataType::Null),
        SpecDataType::Categorical => Some(DataType::Categorical),
        SpecDataType::Unknown => Some(DataType::Unknown),
        _ => None,
    }
}

/// Tells the integer variants of the lattice's type apart.
#[verifier::external_body]
fn lattice_integer(t: &LatticeType) -> (r: Option<DataType>)
    ensures
        r == integer_of(lattice_view(*t)),
{
    match t {
        LatticeType::UInt8 => Some(DataType::UInt8),
        LatticeType::UInt16 => Some(DataType::UInt16),
        LatticeType::UInt32 => Some(DataType::UInt32),
        LatticeType::UInt64 => Some(DataType::UInt64),
        LatticeType::Int8 => Some(DataType::Int8),
        LatticeType::Int16 => Some(DataType::Int16),
        LatticeType::Int32 => Some(DataType::Int32),
        LatticeType::Int64 => Some(DataType::Int64),
        _ => None,
    }
}

/// Tells the variants of the lattice's type apart that have no parameter
/// and are no integer.
#[verifier::external_body]
fn lattice_plain(t: &LatticeType) -> (r: Option<DataType>)
    ensures
        r == plain_of(lattice_view(*t)),
{
    match t {
        LatticeType::Boolean => Some(DataType::Boolean),
        LatticeType::Float32 => Some(DataType::Float32),
        LatticeType::Float64 => Some(DataType::Float64),
        LatticeType::Utf8 => Some(DataType::Utf8),
        LatticeType::Binary => Some(DataType::Binary),
        LatticeType::Date => Some(DataType::Date),
        LatticeType::Time => Some(DataType::Time),
        LatticeType::Null => Some(DataType::Null),
        LatticeType::Categorical(_) => Some(DataType::Categorical),
        LatticeType::Unknown => Some(DataType::Unknown),
        _ => None,
    }
}

/// The unit and the time zone of a `DataType::Datetime` of polars-core;
/// `None` for every other variant.
#[verifier::external_body]
fn lattice_datetime_parts(t: &LatticeType) -> (r: Option<(TimeUnit, Option<String>)>)
    ensures
        r is Some <==> lattice_view(*t) is Datetime,
        r is Some ==> lattice_view(*t) == SpecDataType::Datetime(
            r->Some_0.0,
            time_zone_view(r->Some_0.1),
        ),
{
    match t {
        LatticeType::Datetime(LatticeUnit::Nanoseconds, tz) => {
            Some((TimeUnit::Nanoseconds, tz.clone()))
        },
        LatticeType::Datetime(LatticeUnit::Microseconds, tz) => {
            Some((TimeUnit::Microseconds, tz.clone()))
        },
        LatticeType::Datetime(LatticeUnit::Milliseconds, tz) => {
            Some((TimeUnit::Milliseconds, tz.clone()))
        },
        _ => None,
    }
}

/// The unit of a `DataType::Duration` of polars-core; `None` for every
/// other variant.
#[verifier::external_body]
fn lattice_duration_unit(t: &LatticeType) -> (r: Option<TimeUnit>)
    ensures
        r is Some <==> lattice_view(*t) is Duration,
        r is Some ==> lattice_view(*t) == SpecDataType::Duration(r->Some_0),
{
    match t {
        LatticeType::Duration(LatticeUnit::Nanoseconds) => Some(TimeUnit::Nanoseconds),
        LatticeType::Duration(LatticeUnit::Microseconds) => Some(TimeUnit::Microseconds),
        LatticeType::Duration(LatticeUnit::Milliseconds) => Some(TimeUnit::Milliseconds),
        _ => None,
    }
}

/// The inner type of a `DataType::List` of polars-core; `None` for every
/// other variant.
#[verifier::external_body]
fn lattice_list_inner(t: &LatticeType) -> (r: Option<LatticeType>)
    ensures
        r is Some <==> lattice_view(*t) is List,
        r is Some ==> lattice_view(*t) == SpecDataType::List(Box::new(lattice_view(r->Some_0))),
{
    match t {
        LatticeType::List(inner) => Some((**inner).clone()),
        _ => None,
    }
}

/// The inner type and the width of a `DataType::Array` of polars-core;
/// `None` for every other variant.
#[verifier::external_body]
fn lattice_array_parts(t: &LatticeType) -> (r: Option<(LatticeType, usize)>)
    ensures
        r is Some <==> lattice_view(*t) is Array,
        r is Some ==> lattice_view(*t) == SpecDataType::Array(
            Box::new(lattice_view(r->Some_0.0)),
            r->Some_0.1,
        ),
{
    match t {
        LatticeType::Array(inner, width) => Some(((**inner).clone(), *width)),
        _ => None,
    }
}

/// The fields of a `DataType::Struct` of polars-core; `None` for every
/// other variant.
#[verifier::external_body]
fn lattice_struct_fields(t: &LatticeType) -> (r: Option<Vec<LatticeField>>)
    ensures
        r is Some <==> lattice_view(*t) is Struct,
        r is Some ==> lattice_view(*t) == SpecDataType::Struct(lattice_fields_view(r->Some_0@)),
{
    match t {
        LatticeType::Struct(fields) => Some(fields.clone()),
        _ => None,
    }
}

/// `polars_core::utils::get_supertype`: the supertype of the two types, or
/// `None` where the lattice has none. Two equal types have themselves as
/// supertype: the function compares its arguments first and returns a copy
/// of the left one where they are equal.
#[verifier::external_body]
fn lattice_supertype(left: &LatticeType, right: &LatticeType) -> (r: Option<LatticeType>)
    ensures
        r is Some ==> supertype(lattice_view(*left), lattice_view(*right)) == Some(
            lattice_view(r->Some_0),
        ),
        r is None ==> supertype(lattice_view(*left), lattice_view(*right)) is None,
        lattice_view(*left) == lattice_view(*right) ==> r is Some && lattice_view(r->Some_0)
            == lattice_view(*left),
{
    polars_core::utils::get_supertype(left, right)
}

/// `to_string` on a `DataType` of polars-core, that is its `Display`: the
/// short name of the type.
#[verifier::external_body]
fn lattice_display(t: &LatticeType) -> (name: String)
    ensures
        name@ == display_name(lattice_view(*t)),
{
    t.to_string()
}

/// The lattice's value for a data type.
pub fn to_lattice(dtype: &DataType) -> (t: LatticeType)
    ensures
        lattice_view(t) == dtype@,
    decreases dtype,
{
    match dtype {
        DataType::Boolean => lattice_boolean(),
        DataType::UInt8 => lattice_uint8(),
        DataType::UInt16 => lattice_uint16(),
        DataType::UInt32 => lattice_uint32(),
        DataType::UInt64 => lattice_uint64(),
        DataType::Int8 => lattice_int8(),
        DataType::Int16 => lattice_int16(),
        DataType::Int32 => lattice_int32(),
        DataType::Int64 => lattice_int64(),
        DataType::Float32 => lattice_float32(),
        DataType::Float64 => lattice_float64(),
        DataType::Utf8 => lattice_utf8(),
        DataType::Binary => lattice_binary(),
        DataType::Date => lattice_date(),
        DataType::Datetime(tu, tz) => {
            let tz = clone_time_zone(tz);
            match tu {
                TimeUnit::Nanoseconds => lattice_datetime_ns(tz),
                TimeUnit::Microseconds => lattice_datetime_us(tz),
                TimeUnit::Milliseconds => lattice_datetime_ms(tz),
            }
        },
        DataType::Duration(tu) => match tu {
            TimeUnit::Nanoseconds => lattice_duration_ns(),
            TimeUnit::Microseconds => lattice_duration_us(),
            TimeUnit::Milliseconds => lattice_duration_ms(),
        },
        DataType::Time => lattice_time(),
        DataType::Array(inner, width) => lattice_array(to_lattice(inner), *width),
        DataType::List(inner) => lattice_list(to_lattice(inner)),
        DataType::Null => lattice_null(),
        DataType::Categorical => lattice_categorical(),
        DataType::Struct(fields) => {
            let converted = to_lattice_fields(fields);
            proof {
                lemma_struct_view(*fields);
            }
            lattice_struct(converted)
        },
        DataType::Unknown => lattice_unknown(),
    }
}

/// The lattice's values for a list of fields, in order.
pub fn to_lattice_fields(fields: &Vec<Field>) -> (r: Vec<LatticeField>)
    ensures
        lattice_fields_view(r@) == fields_view(fields@),
    decreases fields,
{
    let mut converted: Vec<LatticeField> = Vec::new();
    let mut i: usize = 0;
    while i < fields.len()
        invariant
            i <= fields.len(),
            converted.len() == i,
            forall|j: int| 0 <= j < i ==> lattice_field_view(#[trigger] converted[j]) == fields[j]@,
        decreases fields.len() - i,
    {
        let field = &fields[i];
        converted.push(lattice_field(field.name.as_str(), to_lattice(&field.dtype)));
        i += 1;
    }
    assert(lattice_fields_view(converted@) =~= fields_view(fields@));
    converted
}

/// The data type that a value of the lattice stands for.
pub fn from_lattice(t: &LatticeType) -> (dtype: DataType)
    ensures
        dtype@ == lattice_view(*t),
    decreases lattice_view(*t),
{
    if let Some(dtype) = lattice_integer(t) {
        return dtype;
    }
    if let Some(dtype) = lattice_plain(t) {
        return dtype;
    }
    if let Some((tu, tz)) = lattice_datetime_parts(t) {
        return DataType::Datetime(tu, tz);
    }
    if let Some(tu) = lattice_duration_unit(t) {
        return DataType::Duration(tu);
    }
    if let Some(inner) = lattice_list_inner(t) {
        proof {
            let v = lattice_view(*t);
            match v {
                SpecDataType::List(b) => {
                    assert(decreases_to!(v => b));
                },
                _ => {},
            }
        }
        return DataType::List(Box::new(from_lattice(&inner)));
    }
    if let Some((inner, width)) = lattice_array_parts(t) {
        proof {
            let v = lattice_view(*t);
            match v {
                SpecDataType::Array(b, _) => {
                    assert(decreases_to!(v => b));
                },
                _ => {},
            }
        }
        return DataType::Array(Box::new(from_lattice(&inner)), width);
    }
    match lattice_struct_fields(t) {
        Some(fields) => {
            let mut converted: Vec<Field> = Vec::new();
            let mut i: usize = 0;
            while i < fields.len()
                invariant
                    i <= fields.len(),
                    converted.len() == i,
                    lattice_view(*t) == SpecDataType::Struct(lattice_fields_view(fields@)),
                    forall|j: int|
                        0 <= j < i ==> (#[trigger] converted[j])@ == lattice_field_view(fields[j]),
                decreases fields.len() - i,
            {
                let name = lattice_field_name(&fields[i]);
                let inner = lattice_field_dtype(&fields[i]);
                proof {
                    let v = lattice_view(*t);
                    match v {
                        SpecDataType::Struct(s) => {
                            assert(decreases_to!(v => s[i as int]));
                        },
                        _ => {},
                    }
                }
                converted.push(Field { name, dtype: from_lattice(&inner) });
                i += 1;
            }
            proof {
                lemma_struct_view(converted);
                assert(fields_view(converted@) =~= lattice_fields_view(fields@));
            }
            DataType::Struct(converted)
        },
        None => {
            // Every variant has been told apart above: this is not reached.
            assert(false);
            DataType::Unknown
        },
    }
}

/// The common supertype of two data types, as the lattice computes it.
///
/// Succeeds with the lattice's supertype where there is one, and else fails
/// with [`ResolveError::NoCommonSupertype`], which names the two types.
pub fn try_get_supertype(left: &DataType, right: &DataType) -> (r: Result<DataType, ResolveError>)
    ensures
        supertype_result(left@, right@, r),
        left@ == right@ ==> supertype(left@, right@) == Some(left@),
{
    let l = to_lattice(left);
    let r = to_lattice(right);
    match lattice_supertype(&l, &r) {
        Some(t) => Ok(from_lattice(&t)),
        None => Err(ResolveError::NoCommonSupertype { left: left.clone(), right: right.clone() }),
    }
}

/// How the outcome of asking for a supertype relates to the lattice.
pub open spec fn supertype_result(
    left: SpecDataType,
    right: SpecDataType,
    r: Result<DataType, ResolveError>,
) -> bool {
    match supertype(left, right) {
        Some(st) => r is Ok && r->Ok_0@ == st,
        None => r is Err && r->Err_0@ == (SpecResolveError::NoCommonSupertype { left, right }),
    }
}

/// The short name of a data type, as the lattice writes it.
pub fn dtype_name(dtype: &DataType) -> (name: String)
    ensures
        name@ == display_name(dtype@),
{
    lattice_display(&to_lattice(dtype))
}

/// The model of the type of row indices and row counts.
pub open spec fn spec_idx_dtype() -> SpecDataType {
    SpecDataType::UInt32
}

/// The type of row indices and row counts, as the lattice defines it.
pub fn idx_dtype() -> (r: DataType)
    ensures
        r@ == spec_idx_dtype(),
{
    from_lattice(&lattice_index())
}

} // verus!
