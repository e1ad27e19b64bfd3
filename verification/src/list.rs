//! The operators on lists and their type rules.

use crate::datatypes::{DataType, SpecDataType, SpecField};
use crate::lattice::{idx_dtype, spec_idx_dtype};
use crate::mapper::{
    fixed_rule, inner_or_unknown, list_supertype_rule, nested_sum, resolved_view, same_rule,
    FieldsMapper, Resolved, SpecResolved,
};
use vstd::prelude::*;

verus! {

/// An operator on the lists of a list column.
#[derive(Clone, Copy, Debug, PartialEq, Eq, Hash, Structural)]
pub enum ListFunction {
    Concat,
    Contains,
    DropNulls,
    Slice,
    Shift,
    Get,
    Take,
    CountMatches,
    Sum,
    Min,
    Max,
    Mean,
    Sort,
    Reverse,
    Unique,
    Length,
    SetOperation,
    Any,
    All,
    Join,
}

impl ListFunction {
    /// The output field of this operator for the given input fields.
    pub open spec fn rule(&self, fields: Seq<SpecField>) -> SpecResolved {
        let input = fields[0].dtype;
        match self {
            ListFunction::Concat => list_supertype_rule(fields),
            ListFunction::Contains | ListFunction::Any | ListFunction::All => fixed_rule(
                fields,
                SpecDataType::Boolean,
            ),
            ListFunction::DropNulls
            | ListFunction::Slice
            | ListFunction::Shift
            | ListFunction::Take
            | ListFunction::Sort
            | ListFunction::Reverse
            | ListFunction::Unique
            | ListFunction::SetOperation => same_rule(fields),
            ListFunction::Get | ListFunction::Min | ListFunction::Max => fixed_rule(
                fields,
                inner_or_unknown(input),
            ),
            ListFunction::CountMatches | ListFunction::Length => fixed_rule(
                fields,
                spec_idx_dtype(),
            ),
            ListFunction::Sum => fixed_rule(fields, nested_sum(input)),
            ListFunction::Mean => fixed_rule(fields, SpecDataType::Float64),
            ListFunction::Join => fixed_rule(fields, SpecDataType::Utf8),
        }
    }

    /// Resolves the output field of this operator.
    pub fn get_field(&self, mapper: FieldsMapper) -> (r: Resolved)
        requires
            mapper@.len() > 0,
        ensures
            resolved_view(r) == self.rule(mapper@),
    {
        match self {
            ListFunction::Concat => mapper.map_to_list_supertype(),
            ListFunction::Contains => mapper.with_dtype(DataType::Boolean),
            ListFunction::DropNulls => mapper.with_same_dtype(),
            ListFunction::Slice => mapper.with_same_dtype(),
            ListFunction::Shift => mapper.with_same_dtype(),
            ListFunction::Get => mapper.map_to_list_inner_dtype(),
            ListFunction::Take => mapper.with_same_dtype(),
            ListFunction::CountMatches => mapper.with_dtype(idx_dtype()),
            ListFunction::Sum => mapper.nested_sum_type(),
            ListFunction::Min => mapper.map_to_list_inner_dtype(),
            ListFunction::Max => mapper.map_to_list_inner_dtype(),
            ListFunction::Mean => mapper.with_dtype(DataType::Float64),
            ListFunction::Sort => mapper.with_same_dtype(),
            ListFunction::Reverse => mapper.with_same_dtype(),
            ListFunction::Unique => mapper.with_same_dtype(),
            ListFunction::Length => mapper.with_dtype(idx_dtype()),
            ListFunction::SetOperation => mapper.with_same_dtype(),
            ListFunction::Any => mapper.with_dtype(DataType::Boolean),
            ListFunction::All => mapper.with_dtype(DataType::Boolean),
            ListFunction::Join => mapper.with_dtype(DataType::Utf8),
        }
    }
}

} // verus!
