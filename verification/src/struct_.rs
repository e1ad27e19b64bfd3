//! The operators on structs and their type rules.

use crate::datatypes::{
    fields_view, lemma_struct_view, DataType, Field, SpecDataType, SpecField,
};
use crate::error::{ResolveError, SpecResolveError};
use crate::mapper::{resolved_view, retyped, FieldsMapper, Resolved, SpecResolved};
use vstd::prelude::*;
use vstd::string::StringExecFns;

verus! {

/// An operator on the sub-fields of a struct column.
#[derive(Clone, Debug, PartialEq, Eq)]
pub enum StructFunction {
    /// The sub-field at a position; a negative position counts from the end.
    FieldByIndex(i64),
    /// The first sub-field with the given name.
    FieldByName(String),
    /// The same struct with its sub-fields renamed, in order.
    RenameFields(Vec<String>),
}

/// The position that `offset` stands for in a list of `len` items: a
/// negative offset counts from the end, and an offset beyond either end
/// stops at that end.
pub open spec fn clamped_offset(offset: int, len: nat) -> nat {
    if offset < 0 {
        if -offset <= len {
            (len + offset) as nat
        } else {
            0
        }
    } else if offset <= len {
        offset as nat
    } else {
        len
    }
}

/// The position of the first field at or after `start` with the given
/// name, or the number of fields where none has it.
pub open spec fn position_from(fields: Seq<SpecField>, name: Seq<char>, start: nat) -> nat
    decreases fields.len() - start,
{
    if start >= fields.len() {
        fields.len()
    } else if fields[start as int].name == name {
        start
    } else {
        position_from(fields, name, start + 1)
    }
}

/// The fields of a struct under new names: the field at each position gets
/// the name at that position, as far as both lists go.
pub open spec fn renamed(fields: Seq<SpecField>, names: Seq<Seq<char>>) -> Seq<SpecField> {
    Seq::new(
        if fields.len() <= names.len() {
            fields.len()
        } else {
            names.len()
        },
        |i: int| SpecField { name: names[i], dtype: fields[i].dtype },
    )
}

/// One field of the given type under each of the given names.
pub open spec fn named_all(dtype: SpecDataType, names: Seq<Seq<char>>) -> Seq<SpecField> {
    Seq::new(names.len(), |i: int| SpecField { name: names[i], dtype })
}

/// The views of a list of names, in order.
pub open spec fn names_view(names: Seq<String>) -> Seq<Seq<char>> {
    Seq::new(names.len(), |i: int| names[i]@)
}

/// The refusal of an input that is no struct.
pub open spec fn not_a_struct(got: SpecDataType) -> SpecResolved {
    Err(SpecResolveError::TypeMismatch { op: "struct.field"@, got, expected: "Struct"@ })
}

/// The refusal of a struct that lacks the field asked for.
pub open spec fn no_such_field(got: SpecDataType) -> SpecResolved {
    Err(SpecResolveError::UnsupportedShape { op: "struct.field"@, got })
}

/// The sub-field of `field` at the position that `index` stands for in a
/// list of `inputs` items.
pub open spec fn field_by_index_rule(field: SpecField, index: int, inputs: nat) -> SpecResolved {
    match field.dtype {
        SpecDataType::Struct(fields) => {
            let position = clamped_offset(index, inputs);
            if position < fields.len() {
                Ok(fields[position as int])
            } else {
                no_such_field(field.dtype)
            }
        },
        other => not_a_struct(other),
    }
}

/// The first sub-field of `field` with the given name.
pub open spec fn field_by_name_rule(field: SpecField, name: Seq<char>) -> SpecResolved {
    match field.dtype {
        SpecDataType::Struct(fields) => {
            let position = position_from(fields, name, 0);
            if position < fields.len() {
                Ok(fields[position as int])
            } else {
                no_such_field(field.dtype)
            }
        },
        other => not_a_struct(other),
    }
}

/// The type of a struct with renamed sub-fields. An input that is no struct
/// gives a struct with one field of the input's type under each name.
pub open spec fn rename_fields_dtype(dtype: SpecDataType, names: Seq<Seq<char>>) -> SpecDataType {
    match dtype {
        SpecDataType::Struct(fields) => SpecDataType::Struct(renamed(fields, names)),
        other => SpecDataType::Struct(named_all(other, names)),
    }
}

/// The position that `offset` stands for in a list of `len` items.
pub fn clamp_offset(offset: i64, len: usize) -> (r: usize)
    ensures
        r == clamped_offset(offset as int, len as nat),
{
    let wide: i128 = offset as i128;
    let end: i128 = len as i128;
    if wide < 0 {
        if -wide <= end {
            (end + wide) as usize
        } else {
            0
        }
    } else if wide <= end {
        wide as usize
    } else {
        len
    }
}

/// The sub-field of a struct field at a position.
pub fn field_by_index(field: &Field, index: i64, inputs: usize) -> (r: Resolved)
    ensures
        resolved_view(r) == field_by_index_rule(field@, index as int, inputs as nat),
{
    match &field.dtype {
        DataType::Struct(fields) => {
            proof {
                lemma_struct_view(*fields);
            }
            let position = clamp_offset(index, inputs);
            if position < fields.len() {
                Ok(fields[position].clone())
            } else {
                Err(
                    ResolveError::UnsupportedShape {
                        op: String::from_str("struct.field"),
                        got: field.dtype.clone(),
                    },
                )
            }
        },
        other => Err(
            ResolveError::TypeMismatch {
                op: String::from_str("struct.field"),
                got: other.clone(),
                expected: String::from_str("Struct"),
            },
        ),
    }
}

/// The first sub-field of a struct field with the given name.
pub fn field_by_name(field: &Field, name: &String) -> (r: Resolved)
    ensures
        resolved_view(r) == field_by_name_rule(field@, name@),
{
    match &field.dtype {
        DataType::Struct(fields) => {
            proof {
                lemma_struct_view(*fields);
            }
            let ghost models = fields_view(fields@);
            let mut i: usize = 0;
            while i < fields.len()
                invariant
                    i <= fields.len(),
                    models == fields_view(fields@),
                    field@.dtype == SpecDataType::Struct(models),
                    position_from(models, name@, 0) == position_from(models, name@, i as nat),
                decreases fields.len() - i,
            {
                if fields[i].name == *name {
                    return Ok(fields[i].clone());
                }
                i += 1;
            }
            Err(
                ResolveError::UnsupportedShape {
                    op: String::from_str("struct.field"),
                    got: field.dtype.clone(),
                },
            )
        },
        other => Err(
            ResolveError::TypeMismatch {
                op: String::from_str("struct.field"),
                got: other.clone(),
                expected: String::from_str("Struct"),
            },
        ),
    }
}

/// The type of a struct with renamed sub-fields.
pub fn rename_fields(dtype: &DataType, names: &Vec<String>) -> (r: DataType)
    ensures
        r@ == rename_fields_dtype(dtype@, names_view(names@)),
{
    let mut out: Vec<Field> = Vec::new();
    let mut i: usize = 0;
    match dtype {
        DataType::Struct(fields) => {
            proof {
                lemma_struct_view(*fields);
            }
            while i < fields.len() && i < names.len()
                invariant
                    i <= fields.len(),
                    i <= names.len(),
                    out.len() == i,
                    forall|j: int|
                        0 <= j < i ==> (#[trigger] out[j])@ == (SpecField {
                            name: names[j]@,
                            dtype: fields[j]@.dtype,
                        }),
                decreases fields.len() - i,
            {
                out.push(Field { name: names[i].clone(), dtype: fields[i].dtype.clone() });
                i += 1;
            }
            proof {
                lemma_struct_view(out);
                assert(fields_view(out@) =~= renamed(fields_view(fields@), names_view(names@)));
            }
        },
        other => {
            while i < names.len()
                invariant
                    i <= names.len(),
                    out.len() == i,
                    forall|j: int|
                        0 <= j < i ==> (#[trigger] out[j])@ == (SpecField {
                            name: names[j]@,
                            dtype: other@,
                        }),
                decreases names.len() - i,
            {
                out.push(Field { name: names[i].clone(), dtype: other.clone() });
                i += 1;
            }
            proof {
                lemma_struct_view(out);
                assert(fields_view(out@) =~= named_all(other@, names_view(names@)));
            }
        },
    }
    DataType::Struct(out)
}

impl StructFunction {
    /// The output field of this operator for the given input fields.
    pub open spec fn rule(&self, fields: Seq<SpecField>) -> SpecResolved {
        match self {
            StructFunction::FieldByIndex(index) => field_by_index_rule(
                fields[0],
                *index as int,
                fields.len(),
            ),
            StructFunction::FieldByName(name) => field_by_name_rule(fields[0], name@),
            StructFunction::RenameFields(names) => Ok(
                retyped(fields[0], rename_fields_dtype(fields[0].dtype, names_view(names@))),
            ),
        }
    }

    /// Resolves the output field of this operator.
    pub fn get_field(&self, mapper: FieldsMapper) -> (r: Resolved)
        requires
            mapper@.len() > 0,
        ensures
            resolved_view(r) == self.rule(mapper@),
    {
        match self {
            StructFunction::FieldByIndex(index) => {
                let inputs = mapper.get_fields_lens();
                let by_index = |field: &Field| -> (r: Resolved)
                    ensures
                        resolved_view(r) == field_by_index_rule(
                            field@,
                            *index as int,
                            inputs as nat,
                        ),
                    { field_by_index(field, *index, inputs) };
                mapper.try_map_field(by_index)
            },
            StructFunction::FieldByName(name) => {
                let by_name = |field: &Field| -> (r: Resolved)
                    ensures
                        resolved_view(r) == field_by_name_rule(field@, name@),
                    { field_by_name(field, name) };
                mapper.try_map_field(by_name)
            },
            StructFunction::RenameFields(names) => mapper.with_dtype(
                rename_fields(&mapper.fields[0].dtype, names),
            ),
        }
    }
}

} // verus!
