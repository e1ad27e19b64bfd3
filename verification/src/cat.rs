//! The operators on categorical values and their type rules.

use crate::datatypes::{DataType, SpecDataType, SpecField};
use crate::mapper::{fixed_rule, resolved_view, same_rule, FieldsMapper, Resolved, SpecResolved};
use vstd::prelude::*;

verus! {

/// An operator on a categorical column.
#[derive(Clone, Copy, Debug, PartialEq, Eq, Hash, Structural)]
pub enum CategoricalFunction {
    /// Chooses how the categories are ordered.
    SetOrdering,
    /// The categories as strings.
    GetCategories,
}

impl CategoricalFunction {
    /// The output field of this operator for the given input fields.
    pub open spec fn rule(&self, fields: Seq<SpecField>) -> SpecResolved {
        match self {
            CategoricalFunction::SetOrdering => same_rule(fields),
            CategoricalFunction::GetCategories => fixed_rule(fields, SpecDataType::Utf8),
        }
    }

    /// Resolves the output field of this operator.
    pub fn get_field(&self, mapper: FieldsMapper) -> (r: Resolved)
        requires
            mapper@.len() > 0,
        ensures
            resolved_view(r) == self.rule(mapper@),
    {
        match self {
            CategoricalFunction::SetOrdering => mapper.with_same_dtype(),
            CategoricalFunction::GetCategories => mapper.with_dtype(DataType::Utf8),
        }
    }
}

} // verus!
