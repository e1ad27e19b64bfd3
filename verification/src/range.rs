//! The operators that generate ranges and their type rules.

use crate::datatypes::{DataType, Field, SpecDataType, SpecField};
use crate::mapper::{resolved_view, FieldsMapper, Resolved, SpecResolved};
use vstd::prelude::*;

verus! {

/// An operator that generates a range of integers.
#[derive(Clone, Copy, Debug, PartialEq, Eq, Hash, Structural)]
pub enum RangeFunction {
    /// One range, as a column of integers.
    IntRange,
    /// One range per row, as a column of lists of integers.
    IntRanges,
}

impl RangeFunction {
    /// The output field of this operator. A range has a field of its own,
    /// whatever the inputs are.
    pub open spec fn rule(&self, fields: Seq<SpecField>) -> SpecResolved {
        match self {
            RangeFunction::IntRange => Ok(SpecField { name: "int"@, dtype: SpecDataType::Int64 }),
            RangeFunction::IntRanges => Ok(
                SpecField {
                    name: "int_range"@,
                    dtype: SpecDataType::List(Box::new(SpecDataType::Int64)),
                },
            ),
        }
    }

    /// Resolves the output field of this operator.
    pub fn get_field(&self, mapper: FieldsMapper) -> (r: Resolved)
        ensures
            resolved_view(r) == self.rule(mapper@),
    {
        match self {
            RangeFunction::IntRange => Ok(Field::new("int", DataType::Int64)),
            RangeFunction::IntRanges => Ok(
                Field::new("int_range", DataType::List(Box::new(DataType::Int64))),
            ),
        }
    }
}

} // verus!
