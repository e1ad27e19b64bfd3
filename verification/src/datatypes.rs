//! Data types and fields, with the mathematical models that the contracts
//! of the crate are stated over.

use vstd::prelude::*;

verus! {

/// Resolution of a temporal value.
#[derive(Clone, Copy, Debug, PartialEq, Eq, Hash, Structural)]
pub enum TimeUnit {
    Nanoseconds,
    Microseconds,
    Milliseconds,
}

/// The logical type of a column or of an expression's output.
///
/// A categorical type carries no dictionary here: which categories a column
/// holds is a matter of its data, not of its shape.
#[derive(Debug, PartialEq, Eq)]
pub enum DataType {
    Boolean,
    UInt8,
    UInt16,
    UInt32,
    UInt64,
    Int8,
    Int16,
    Int32,
    Int64,
    Float32,
    Float64,
    /// String data.
    Utf8,
    Binary,
    /// Days since the UNIX epoch.
    Date,
    /// Time since the UNIX epoch in the given unit, with an optional time zone.
    Datetime(TimeUnit, Option<String>),
    /// A span of time in the given unit.
    Duration(TimeUnit),
    /// Nanoseconds since midnight.
    Time,
    /// A nested list with a fixed number of elements in each row.
    Array(Box<DataType>, usize),
    /// A nested list with a variable number of elements in each row.
    List(Box<DataType>),
    Null,
    Categorical,
    /// An ordered list of named sub-fields.
    Struct(Vec<Field>),
    /// A type that cannot be determined yet.
    Unknown,
}

/// The name and the data type of a column.
#[derive(Debug, PartialEq, Eq)]
pub struct Field {
    pub name: String,
    pub dtype: DataType,
}

/// Mathematical model of a [`DataType`].
pub ghost enum SpecDataType {
    Boolean,
    UInt8,
    UInt16,
    UInt32,
    UInt64,
    Int8,
    Int16,
    Int32,
    Int64,
    Float32,
    Float64,
    Utf8,
    Binary,
    Date,
    Datetime(TimeUnit, Option<Seq<char>>),
    Duration(TimeUnit),
    Time,
    Array(Box<SpecDataType>, usize),
    List(Box<SpecDataType>),
    Null,
    Categorical,
    Struct(Seq<SpecField>),
    Unknown,
}

/// Mathematical model of a [`Field`].
pub ghost struct SpecField {
    pub name: Seq<char>,
    pub dtype: SpecDataType,
}

/// The model of an optional time zone.
pub open spec fn time_zone_view(tz: Option<String>) -> Option<Seq<char>> {
    match tz {
        Some(s) => Some(s@),
        None => None,
    }
}

impl DataType {
    /// The model of this type. `self@` is the same value.
    pub open spec fn model(self) -> SpecDataType
        decreases self,
    {
        match self {
            DataType::Boolean => SpecDataType::Boolean,
            DataType::UInt8 => SpecDataType::UInt8,
            DataType::UInt16 => SpecDataType::UInt16,
            DataType::UInt32 => SpecDataType::UInt32,
            DataType::UInt64 => SpecDataType::UInt64,
            DataType::Int8 => SpecDataType::Int8,
            DataType::Int16 => SpecDataType::Int16,
            DataType::Int32 => SpecDataType::Int32,
            DataType::Int64 => SpecDataType::Int64,
            DataType::Float32 => SpecDataType::Float32,
            DataType::Float64 => SpecDataType::Float64,
            DataType::Utf8 => SpecDataType::Utf8,
            DataType::Binary => SpecDataType::Binary,
            DataType::Date => SpecDataType::Date,
            DataType::Datetime(tu, tz) => SpecDataType::Datetime(tu, time_zone_view(tz)),
            DataType::Duration(tu) => SpecDataType::Duration(tu),
            DataType::Time => SpecDataType::Time,
            DataType::Array(inner, width) => SpecDataType::Array(Box::new((*inner).model()), width),
            DataType::List(inner) => SpecDataType::List(Box::new((*inner).model())),
            DataType::Null => SpecDataType::Null,
            DataType::Categorical => SpecDataType::Categorical,
            DataType::Struct(fields) => SpecDataType::Struct(
                Seq::new(
                    fields.len() as nat,
                    |i: int|
                        if 0 <= i < fields.len() {
                            fields[i].model()
                        } else {
                            arbitrary()
                        },
                ),
            ),
            DataType::Unknown => SpecDataType::Unknown,
        }
    }
}

impl Field {
    /// The model of this field. `self@` is the same value.
    pub open spec fn model(self) -> SpecField
        decreases self,
    {
        SpecField { name: self.name@, dtype: self.dtype.model() }
    }
}

impl View for DataType {
    type V = SpecDataType;

    open spec fn view(&self) -> SpecDataType {
        self.model()
    }
}

impl View for Field {
    type V = SpecField;

    open spec fn view(&self) -> SpecField {
        self.model()
    }
}

/// The models of a list of fields, in order.
pub open spec fn fields_view(fields: Seq<Field>) -> Seq<SpecField> {
    Seq::new(fields.len(), |i: int| fields[i]@)
}

/// The model of a struct type is the struct of its fields' models.
pub proof fn lemma_struct_view(fields: Vec<Field>)
    ensures
        DataType::Struct(fields)@ == SpecDataType::Struct(fields_view(fields@)),
{
    assert(DataType::Struct(fields)@->Struct_0 =~= fields_view(fields@));
}

impl Clone for DataType {
    fn clone(&self) -> (r: Self)
        ensures
            r@ == self@,
        decreases self,
    {
        match self {
            DataType::Boolean => DataType::Boolean,
            DataType::UInt8 => DataType::UInt8,
            DataType::UInt16 => DataType::UInt16,
            DataType::UInt32 => DataType::UInt32,
            DataType::UInt64 => DataType::UInt64,
            DataType::Int8 => DataType::Int8,
            DataType::Int16 => DataType::Int16,
            DataType::Int32 => DataType::Int32,
            DataType::Int64 => DataType::Int64,
            DataType::Float32 => DataType::Float32,
            DataType::Float64 => DataType::Float64,
            DataType::Utf8 => DataType::Utf8,
            DataType::Binary => DataType::Binary,
            DataType::Date => DataType::Date,
            DataType::Datetime(tu, tz) => DataType::Datetime(*tu, clone_time_zone(tz)),
            DataType::Duration(tu) => DataType::Duration(*tu),
            DataType::Time => DataType::Time,
            DataType::Array(inner, width) => DataType::Array(Box::new((**inner).clone()), *width),
            DataType::List(inner) => DataType::List(Box::new((**inner).clone())),
            DataType::Null => DataType::Null,
            DataType::Categorical => DataType::Categorical,
            DataType::Struct(fields) => {
                let copy = clone_fields(fields);
                proof {
                    lemma_struct_view(copy);
                    lemma_struct_view(*fields);
                }
                DataType::Struct(copy)
            },
            DataType::Unknown => DataType::Unknown,
        }
    }
}

impl Clone for Field {
    fn clone(&self) -> (r: Self)
        ensures
            r@ == self@,
        decreases self,
    {
        Field { name: self.name.clone(), dtype: self.dtype.clone() }
    }
}

/// A copy of a list of fields.
pub fn clone_fields(fields: &Vec<Field>) -> (r: Vec<Field>)
    ensures
        fields_view(r@) == fields_view(fields@),
    decreases fields,
{
    let mut copy: Vec<Field> = Vec::new();
    let mut i: usize = 0;
    while i < fields.len()
        invariant
            i <= fields.len(),
            copy.len() == i,
            forall|j: int| 0 <= j < i ==> copy[j]@ == fields[j]@,
        decreases fields.len() - i,
    {
        copy.push(fields[i].clone());
        i += 1;
    }
    assert(fields_view(copy@) =~= fields_view(fields@));
    copy
}

/// A copy of an optional time zone.
pub fn clone_time_zone(tz: &Option<String>) -> (r: Option<String>)
    ensures
        time_zone_view(r) == time_zone_view(*tz),
{
    match tz {
        Some(s) => Some(s.clone()),
        None => None,
    }
}

impl SpecDataType {
    /// The element type of a list or a fixed-size array; `None` for a type
    /// that is not nested in this way.
    pub open spec fn inner(self) -> Option<SpecDataType> {
        match self {
            SpecDataType::List(inner) => Some(*inner),
            SpecDataType::Array(inner, _) => Some(*inner),
            _ => None,
        }
    }

    pub open spec fn is_float(self) -> bool {
        self is Float32 || self is Float64
    }

    pub open spec fn is_signed(self) -> bool {
        self is Int8 || self is Int16 || self is Int32 || self is Int64
    }

    pub open spec fn is_integer(self) -> bool {
        self.is_signed() || self is UInt8 || self is UInt16 || self is UInt32 || self is UInt64
    }

    pub open spec fn is_numeric(self) -> bool {
        self.is_float() || self.is_integer()
    }

    pub open spec fn is_unsigned(self) -> bool {
        self.is_numeric() && !self.is_signed()
    }

    /// The type in which values of this type are stored: temporal types are
    /// stored as integers and categories as 32-bit codes, the elements of a
    /// list and the fields of a struct are stored in their own physical
    /// types, and every other type is stored as itself.
    pub open spec fn physical(self) -> SpecDataType
        decreases self,
    {
        match self {
            SpecDataType::Date => SpecDataType::Int32,
            SpecDataType::Datetime(_, _) => SpecDataType::Int64,
            SpecDataType::Duration(_) => SpecDataType::Int64,
            SpecDataType::Time => SpecDataType::Int64,
            SpecDataType::Categorical => SpecDataType::UInt32,
            SpecDataType::List(inner) => SpecDataType::List(Box::new(inner.physical())),
            SpecDataType::Struct(fields) => SpecDataType::Struct(
                Seq::new(
                    fields.len(),
                    |i: int|
                        if 0 <= i < fields.len() {
                            SpecField { name: fields[i].name, dtype: fields[i].dtype.physical() }
                        } else {
                            arbitrary()
                        },
                ),
            ),
            _ => self,
        }
    }
}

impl DataType {
    /// The element type of a list or a fixed-size array.
    pub fn inner_dtype(&self) -> (r: Option<&DataType>)
        ensures
            r is Some <==> self@.inner() is Some,
            r is Some ==> Some(r->Some_0@) == self@.inner(),
    {
        match self {
            DataType::List(inner) => Some(&**inner),
            DataType::Array(inner, _) => Some(&**inner),
            _ => None,
        }
    }

    /// Whether this is a floating-point type.
    pub fn is_float(&self) -> (r: bool)
        ensures
            r == self@.is_float(),
    {
        match self {
            DataType::Float32 | DataType::Float64 => true,
            _ => false,
        }
    }

    /// Whether this is a signed integer type.
    pub fn is_signed(&self) -> (r: bool)
        ensures
            r == self@.is_signed(),
    {
        match self {
            DataType::Int8 | DataType::Int16 | DataType::Int32 | DataType::Int64 => true,
            _ => false,
        }
    }

    /// Whether this is an integer type, signed or unsigned.
    pub fn is_integer(&self) -> (r: bool)
        ensures
            r == self@.is_integer(),
    {
        match self {
            DataType::Int8 | DataType::Int16 | DataType::Int32 | DataType::Int64 => true,
            DataType::UInt8 | DataType::UInt16 | DataType::UInt32 | DataType::UInt64 => true,
            _ => false,
        }
    }

    /// Whether this is an integer or a floating-point type.
    pub fn is_numeric(&self) -> (r: bool)
        ensures
            r == self@.is_numeric(),
    {
        self.is_float() || self.is_integer()
    }

    /// Whether this is a numeric type that is not a signed integer.
    pub fn is_unsigned(&self) -> (r: bool)
        ensures
            r == self@.is_unsigned(),
    {
        self.is_numeric() && !self.is_signed()
    }

    /// The type in which values of this type are stored.
    pub fn to_physical(&self) -> (r: DataType)
        ensures
            r@ == self@.physical(),
        decreases self,
    {
        match self {
            DataType::Date => DataType::Int32,
            DataType::Datetime(_, _) => DataType::Int64,
            DataType::Duration(_) => DataType::Int64,
            DataType::Time => DataType::Int64,
            DataType::Categorical => DataType::UInt32,
            DataType::List(inner) => DataType::List(Box::new(inner.to_physical())),
            DataType::Struct(fields) => {
                let stored = physical_fields(fields);
                proof {
                    lemma_struct_view(stored);
                    lemma_struct_view(*fields);
                    assert(DataType::Struct(stored)@->Struct_0 =~= self@.physical()->Struct_0);
                }
                DataType::Struct(stored)
            },
            _ => self.clone(),
        }
    }
}

/// The fields of a struct with each type replaced by its physical type.
pub fn physical_fields(fields: &Vec<Field>) -> (r: Vec<Field>)
    ensures
        r.len() == fields.len(),
        forall|i: int|
            0 <= i < r.len() ==> (#[trigger] r[i])@ == (SpecField {
                name: fields[i]@.name,
                dtype: fields[i]@.dtype.physical(),
            }),
    decreases fields,
{
    let mut stored: Vec<Field> = Vec::new();
    let mut i: usize = 0;
    while i < fields.len()
        invariant
            i <= fields.len(),
            stored.len() == i,
            forall|j: int|
                0 <= j < i ==> (#[trigger] stored[j])@ == (SpecField {
                    name: fields[j]@.name,
                    dtype: fields[j]@.dtype.physical(),
                }),
        decreases fields.len() - i,
    {
        let field = &fields[i];
        stored.push(Field { name: field.name.clone(), dtype: field.dtype.to_physical() });
        i += 1;
    }
    stored
}

impl Field {
    /// A field with the given name and data type.
    pub fn new(name: &str, dtype: DataType) -> (r: Field)
        ensures
            r@ == (SpecField { name: name@, dtype: dtype@ }),
    {
        Field { name: name.to_owned(), dtype }
    }

    /// The name of the field.
    pub fn name(&self) -> (r: &String)
        ensures
            r@ == self@.name,
    {
        &self.name
    }

    /// The data type of the field.
    pub fn data_type(&self) -> (r: &DataType)
        ensures
            r@ == self@.dtype,
    {
        &self.dtype
    }

    /// Replaces the data type of the field and keeps its name.
    pub fn coerce(&mut self, dtype: DataType)
        ensures
            final(self)@ == (SpecField { name: old(self)@.name, dtype: dtype@ }),
    {
        self.dtype = dtype;
    }
}

impl DataType {
    /// Whether two data types are the same type.
    pub fn same_as(&self, other: &DataType) -> (r: bool)
        ensures
            r == (self@ == other@),
        decreases self,
    {
        match (self, other) {
            (DataType::Boolean, DataType::Boolean) => true,
            (DataType::UInt8, DataType::UInt8) => true,
            (DataType::UInt16, DataType::UInt16) => true,
            (DataType::UInt32, DataType::UInt32) => true,
            (DataType::UInt64, DataType::UInt64) => true,
            (DataType::Int8, DataType::Int8) => true,
            (DataType::Int16, DataType::Int16) => true,
            (DataType::Int32, DataType::Int32) => true,
            (DataType::Int64, DataType::Int64) => true,
            (DataType::Float32, DataType::Float32) => true,
            (DataType::Float64, DataType::Float64) => true,
            (DataType::Utf8, DataType::Utf8) => true,
            (DataType::Binary, DataType::Binary) => true,
            (DataType::Date, DataType::Date) => true,
            (DataType::Datetime(tu, tz), DataType::Datetime(other_tu, other_tz)) => {
                same_unit(*tu, *other_tu) && same_time_zone(tz, other_tz)
            },
            (DataType::Duration(tu), DataType::Duration(other_tu)) => same_unit(*tu, *other_tu),
            (DataType::Time, DataType::Time) => true,
            (DataType::Array(inner, width), DataType::Array(other_inner, other_width)) => {
                *width == *other_width && inner.same_as(other_inner)
            },
            (DataType::List(inner), DataType::List(other_inner)) => inner.same_as(other_inner),
            (DataType::Null, DataType::Null) => true,
            (DataType::Categorical, DataType::Categorical) => true,
            (DataType::Struct(fields), DataType::Struct(other_fields)) => {
                proof {
                    lemma_struct_view(*fields);
                    lemma_struct_view(*other_fields);
                }
                same_fields(fields, other_fields)
            },
            (DataType::Unknown, DataType::Unknown) => true,
            _ => false,
        }
    }
}

/// Whether two time units are the same.
pub fn same_unit(a: TimeUnit, b: TimeUnit) -> (r: bool)
    ensures
        r == (a == b),
{
    match (a, b) {
        (TimeUnit::Nanoseconds, TimeUnit::Nanoseconds) => true,
        (TimeUnit::Microseconds, TimeUnit::Microseconds) => true,
        (TimeUnit::Milliseconds, TimeUnit::Milliseconds) => true,
        _ => false,
    }
}

/// Whether two optional time zones are the same.
pub fn same_time_zone(a: &Option<String>, b: &Option<String>) -> (r: bool)
    ensures
        r == (time_zone_view(*a) == time_zone_view(*b)),
{
    match (a, b) {
        (Some(a), Some(b)) => *a == *b,
        (None, None) => true,
        _ => false,
    }
}

/// Whether two lists of fields have the same names and types, in order.
pub fn same_fields(a: &Vec<Field>, b: &Vec<Field>) -> (r: bool)
    ensures
        r == (fields_view(a@) == fields_view(b@)),
    decreases a,
{
    if a.len() != b.len() {
        assert(fields_view(a@).len() != fields_view(b@).len());
        return false;
    }
    let mut i: usize = 0;
    while i < a.len()
        invariant
            i <= a.len(),
            a.len() == b.len(),
            forall|j: int| 0 <= j < i ==> a[j]@ == b[j]@,
        decreases a.len() - i,
    {
        if !(a[i].name == b[i].name && a[i].dtype.same_as(&b[i].dtype)) {
            assert(fields_view(a@)[i as int] != fields_view(b@)[i as int]);
            return false;
        }
        i += 1;
    }
    assert(fields_view(a@) =~= fields_view(b@));
    true
}

} // verus!
