//! The operators on strings and their type rules.

use crate::datatypes::{DataType, SpecDataType, SpecField};
use crate::mapper::{
    fixed_rule, given_or_unknown, resolved_view, same_rule, FieldsMapper, Resolved, SpecResolved,
};
use vstd::prelude::*;

verus! {

/// An operator on the values of a string column.
#[derive(Clone, Debug, PartialEq, Eq)]
pub enum StringFunction {
    ConcatHorizontal,
    ConcatVertical,
    Contains,
    CountMatches,
    EndsWith,
    Explode,
    Extract,
    ExtractAll,
    /// The groups of a pattern, as a value of the given type.
    ExtractGroups(DataType),
    FromRadix,
    NChars,
    Length,
    LJust,
    Lowercase,
    /// The value at a JSON path, as a value of the given type if one is
    /// given.
    JsonExtract(Option<DataType>),
    Replace,
    RJust,
    Slice,
    StartsWith,
    StripChars,
    StripCharsStart,
    StripCharsEnd,
    StripPrefix,
    StripSuffix,
    /// The string parsed as a value of the given temporal type.
    Strptime(DataType),
    Split,
    Titlecase,
    Uppercase,
    Zfill,
}

impl StringFunction {
    /// The output field of this operator for the given input fields.
    pub open spec fn rule(&self, fields: Seq<SpecField>) -> SpecResolved {
        match self {
            StringFunction::ConcatHorizontal | StringFunction::ConcatVertical => fixed_rule(
                fields,
                SpecDataType::Utf8,
            ),
            StringFunction::Contains
            | StringFunction::EndsWith
            | StringFunction::StartsWith => fixed_rule(fields, SpecDataType::Boolean),
            StringFunction::CountMatches
            | StringFunction::NChars
            | StringFunction::Length => fixed_rule(fields, SpecDataType::UInt32),
            StringFunction::ExtractAll | StringFunction::Split => fixed_rule(
                fields,
                SpecDataType::List(Box::new(SpecDataType::Utf8)),
            ),
            StringFunction::ExtractGroups(dtype) => fixed_rule(fields, dtype@),
            StringFunction::FromRadix => fixed_rule(fields, SpecDataType::Int32),
            StringFunction::JsonExtract(dtype) => fixed_rule(fields, given_or_unknown(*dtype)),
            StringFunction::Strptime(dtype) => fixed_rule(fields, dtype@),
            StringFunction::Explode
            | StringFunction::Extract
            | StringFunction::LJust
            | StringFunction::Lowercase
            | StringFunction::Replace
            | StringFunction::RJust
            | StringFunction::Slice
            | StringFunction::StripChars
            | StringFunction::StripCharsStart
            | StringFunction::StripCharsEnd
            | StringFunction::StripPrefix
            | StringFunction::StripSuffix
            | StringFunction::Titlecase
            | StringFunction::Uppercase
            | StringFunction::Zfill => same_rule(fields),
        }
    }

    /// Resolves the output field of this operator.
    pub fn get_field(&self, mapper: FieldsMapper) -> (r: Resolved)
        requires
            mapper@.len() > 0,
        ensures
            resolved_view(r) == self.rule(mapper@),
    {
        proof {
            reveal_with_fuel(DataType::model, 2);
        }
        match self {
            StringFunction::ConcatHorizontal | StringFunction::ConcatVertical => mapper.with_dtype(
                DataType::Utf8,
            ),
            StringFunction::Contains
            | StringFunction::EndsWith
            | StringFunction::StartsWith => mapper.with_dtype(DataType::Boolean),
            StringFunction::CountMatches
            | StringFunction::NChars
            | StringFunction::Length => mapper.with_dtype(DataType::UInt32),
            StringFunction::ExtractAll | StringFunction::Split => mapper.with_dtype(
                DataType::List(Box::new(DataType::Utf8)),
            ),
            StringFunction::ExtractGroups(dtype) => mapper.with_dtype(dtype.clone()),
            StringFunction::FromRadix => mapper.with_dtype(DataType::Int32),
            StringFunction::JsonExtract(dtype) => match dtype {
                Some(dtype) => mapper.with_opt_dtype(Some(dtype.clone())),
                None => mapper.with_opt_dtype(None),
            },
            StringFunction::Strptime(dtype) => mapper.with_dtype(dtype.clone()),
            StringFunction::Explode
            | StringFunction::Extract
            | StringFunction::LJust
            | StringFunction::Lowercase
            | StringFunction::Replace
            | StringFunction::RJust
            | StringFunction::Slice
            | StringFunction::StripChars
            | StringFunction::StripCharsStart
            | StringFunction::StripCharsEnd
            | StringFunction::StripPrefix
            | StringFunction::StripSuffix
            | StringFunction::Titlecase
            | StringFunction::Uppercase
            | StringFunction::Zfill => mapper.with_same_dtype(),
        }
    }
}

} // verus!
