//! The operators on binary values and their type rules.

use crate::datatypes::{DataType, SpecDataType, SpecField};
use crate::mapper::{fixed_rule, resolved_view, FieldsMapper, Resolved, SpecResolved};
use vstd::prelude::*;

verus! {

/// A predicate on the values of a binary column.
#[derive(Clone, Copy, Debug, PartialEq, Eq, Hash, Structural)]
pub enum BinaryFunction {
    Contains,
    StartsWith,
    EndsWith,
}

impl BinaryFunction {
    /// The output field of this operator for the given input fields.
    pub open spec fn rule(&self, fields: Seq<SpecField>) -> SpecResolved {
        fixed_rule(fields, SpecDataType::Boolean)
    }

    /// Resolves the output field of this operator.
    pub fn get_field(&self, mapper: FieldsMapper) -> (r: Resolved)
        requires
            mapper@.len() > 0,
        ensures
            resolved_view(r) == self.rule(mapper@),
    {
        mapper.with_dtype(DataType::Boolean)
    }
}

} // verus!
