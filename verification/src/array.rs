//! The operators on fixed-size arrays and their type rules.

use crate::datatypes::{DataType, SpecDataType, SpecField};
use crate::error::{ResolveError, SpecResolveError};
use crate::mapper::{
    fixed_rule, nested_sum, resolved_view, same_rule, FieldsMapper, Resolved, SpecResolved,
};
use vstd::prelude::*;
use vstd::string::StringExecFns;

verus! {

/// An operator on the arrays of a fixed-size array column.
#[derive(Clone, Copy, Debug, PartialEq, Eq, Hash, Structural)]
pub enum ArrayFunction {
    Min,
    Max,
    Sum,
    Unique,
}

/// The outcome of taking the unique elements of an array: a list of the
/// array's element type, whatever its width; any other type is refused.
pub open spec fn unique_dtype(dtype: SpecDataType) -> Result<SpecDataType, SpecResolveError> {
    match dtype {
        SpecDataType::Array(inner, _) => Ok(SpecDataType::List(inner)),
        _ => Err(SpecResolveError::UnsupportedShape { op: "arr.unique"@, got: dtype }),
    }
}

/// The type of the unique elements of an array, as a list.
pub fn array_unique_dtype(dtype: &DataType) -> (r: Result<DataType, ResolveError>)
    ensures
        match unique_dtype(dtype@) {
            Ok(list) => r is Ok && r->Ok_0@ == list,
            Err(e) => r is Err && r->Err_0@ == e,
        },
{
    match dtype {
        DataType::Array(inner, _) => Ok(DataType::List(Box::new((**inner).clone()))),
        other => Err(
            ResolveError::UnsupportedShape {
                op: String::from_str("arr.unique"),
                got: other.clone(),
            },
        ),
    }
}

impl ArrayFunction {
    /// The output field of this operator for the given input fields.
    pub open spec fn rule(&self, fields: Seq<SpecField>) -> SpecResolved {
        let input = fields[0].dtype;
        match self {
            ArrayFunction::Min | ArrayFunction::Max => same_rule(fields),
            ArrayFunction::Sum => fixed_rule(fields, nested_sum(input)),
            ArrayFunction::Unique => match unique_dtype(input) {
                Ok(list) => fixed_rule(fields, list),
                Err(e) => Err(e),
            },
        }
    }

    /// Resolves the output field of this operator.
    pub fn get_field(&self, mapper: FieldsMapper) -> (r: Resolved)
        requires
            mapper@.len() > 0,
        ensures
            resolved_view(r) == self.rule(mapper@),
    {
        match self {
            ArrayFunction::Min | ArrayFunction::Max => mapper.with_same_dtype(),
            ArrayFunction::Sum => mapper.nested_sum_type(),
            ArrayFunction::Unique => mapper.try_map_dtype(array_unique_dtype),
        }
    }
}

} // verus!
