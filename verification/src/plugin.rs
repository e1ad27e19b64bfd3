//! The bridge to operators that are defined outside the catalog.
//!
//! Such an operator names a library and a symbol. Its type rule is found in
//! the library under a name derived from the symbol, and is trusted to be a
//! function from the input fields to a field or a failure. Finding and
//! calling it is the caller's part: the library takes that capability as a
//! function of the input fields, the library's name and the rule's name.

use crate::datatypes::{Field, SpecField};
use crate::error::{ResolveError, SpecResolveError};
use crate::mapper::{resolved_view, Resolved};
use vstd::prelude::*;
use vstd::string::StringExecFns;

verus! {

/// The name under which a library exports the type rule of the operator
/// that it exports as `symbol`.
pub open spec fn symbol_name(symbol: Seq<char>) -> Seq<char> {
    "__polars_field_"@ + symbol
}

/// The name under which a library exports the type rule of an operator.
pub fn plugin_symbol(symbol: &str) -> (r: String)
    ensures
        r@ == symbol_name(symbol@),
{
    String::from_str("__polars_field_").concat(symbol)
}

/// The capability of a caller without access to external libraries: every
/// rule is reported as not found.
pub fn unavailable(fields: &[Field], lib: &str, symbol: &str) -> (r: Resolved)
    ensures
        resolved_view(r) == Err::<SpecField, SpecResolveError>(
            SpecResolveError::PluginResolutionFailure {
                symbol: symbol@,
                reason: "external operators are not available"@,
            },
        ),
{
    Err(
        ResolveError::PluginResolutionFailure {
            symbol: symbol.to_owned(),
            reason: String::from_str("external operators are not available"),
        },
    )
}

} // verus!
