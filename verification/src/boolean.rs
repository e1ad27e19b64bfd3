//! The boolean predicates and reductions and their type rule.

use crate::datatypes::{DataType, SpecDataType, SpecField};
use crate::mapper::{fixed_rule, resolved_view, FieldsMapper, Resolved, SpecResolved};
use vstd::prelude::*;

verus! {

/// A predicate on values, or a reduction of boolean values.
#[derive(Clone, Copy, Debug, PartialEq, Eq, Hash, Structural)]
pub enum BooleanFunction {
    All,
    Any,
    IsNot,
    IsNull,
    IsNotNull,
    IsFinite,
    IsInfinite,
    IsNan,
    IsNotNan,
    IsFirst,
    IsUnique,
    IsDuplicated,
    IsIn,
    AllHorizontal,
    AnyHorizontal,
}

impl BooleanFunction {
    /// The output field of this operator for the given input fields: every
    /// predicate and reduction gives a boolean.
    pub open spec fn rule(&self, fields: Seq<SpecField>) -> SpecResolved {
        fixed_rule(fields, SpecDataType::Boolean)
    }

    /// Resolves the output field of this operator.
    pub fn get_field(&self, mapper: FieldsMapper) -> (r: Resolved)
        requires
            mapper@.len() > 0,
        ensures
            resolved_view(r) == self.rule(mapper@),
    {
        mapper.with_dtype(DataType::Boolean)
    }
}

} // verus!
