//! The failures of type resolution.

use crate::datatypes::{DataType, SpecDataType};
use crate::lattice::{dtype_name, display_name};
use vstd::prelude::*;
use vstd::string::StringExecFns;

verus! {

/// Why no output type could be determined.
#[derive(Debug, PartialEq, Eq)]
pub enum ResolveError {
    /// The operation met a type of another kind than the one it works on.
    TypeMismatch { op: String, got: DataType, expected: String },
    /// Two input types have no type that both can be cast to.
    NoCommonSupertype { left: DataType, right: DataType },
    /// The operation works on a nested shape that the input does not have.
    UnsupportedShape { op: String, got: DataType },
    /// An externally defined rule could not be found, or what it returned
    /// is no field.
    PluginResolutionFailure { symbol: String, reason: String },
}

/// Mathematical model of a [`ResolveError`].
pub ghost enum SpecResolveError {
    TypeMismatch { op: Seq<char>, got: SpecDataType, expected: Seq<char> },
    NoCommonSupertype { left: SpecDataType, right: SpecDataType },
    UnsupportedShape { op: Seq<char>, got: SpecDataType },
    PluginResolutionFailure { symbol: Seq<char>, reason: Seq<char> },
}

impl View for ResolveError {
    type V = SpecResolveError;

    open spec fn view(&self) -> SpecResolveError {
        match self {
            ResolveError::TypeMismatch { op, got, expected } => SpecResolveError::TypeMismatch {
                op: op@,
                got: got@,
                expected: expected@,
            },
            ResolveError::NoCommonSupertype { left, right } => SpecResolveError::NoCommonSupertype {
                left: left@,
                right: right@,
            },
            ResolveError::UnsupportedShape { op, got } => SpecResolveError::UnsupportedShape {
                op: op@,
                got: got@,
            },
            ResolveError::PluginResolutionFailure {
                symbol,
                reason,
            } => SpecResolveError::PluginResolutionFailure { symbol: symbol@, reason: reason@ },
        }
    }
}

impl Clone for ResolveError {
    fn clone(&self) -> (r: Self)
        ensures
            r@ == self@,
    {
        match self {
            ResolveError::TypeMismatch { op, got, expected } => ResolveError::TypeMismatch {
                op: op.clone(),
                got: got.clone(),
                expected: expected.clone(),
            },
            ResolveError::NoCommonSupertype { left, right } => ResolveError::NoCommonSupertype {
                left: left.clone(),
                right: right.clone(),
            },
            ResolveError::UnsupportedShape { op, got } => ResolveError::UnsupportedShape {
                op: op.clone(),
                got: got.clone(),
            },
            ResolveError::PluginResolutionFailure {
                symbol,
                reason,
            } => ResolveError::PluginResolutionFailure {
                symbol: symbol.clone(),
                reason: reason.clone(),
            },
        }
    }
}

impl SpecResolveError {
    /// The sentence that reports this failure: it names the operation, the
    /// type that was met and, for a mismatch, the type that was expected.
    pub open spec fn message(self) -> Seq<char> {
        match self {
            SpecResolveError::TypeMismatch { op, got, expected } => {
                op + " operation not supported for dtype `"@ + display_name(got)
                    + "` (expected: "@ + expected + ")"@
            },
            SpecResolveError::NoCommonSupertype { left, right } => {
                "failed to determine supertype of "@ + display_name(left) + " and "@
                    + display_name(right)
            },
            SpecResolveError::UnsupportedShape { op, got } => {
                op + " operation not supported for dtype `"@ + display_name(got) + "`"@
            },
            SpecResolveError::PluginResolutionFailure { symbol, reason } => {
                "cannot resolve `"@ + symbol + "`: "@ + reason
            },
        }
    }
}

impl ResolveError {
    /// The sentence that reports this failure.
    pub fn message(&self) -> (r: String)
        ensures
            r@ == self@.message(),
    {
        match self {
            ResolveError::TypeMismatch { op, got, expected } => {
                let mut text = op.clone();
                text.append(" operation not supported for dtype `");
                text.append(dtype_name(got).as_str());
                text.append("` (expected: ");
                text.append(expected.as_str());
                text.append(")");
                text
            },
            ResolveError::NoCommonSupertype { left, right } => {
                let mut text = String::from_str("failed to determine supertype of ");
                text.append(dtype_name(left).as_str());
                text.append(" and ");
                text.append(dtype_name(right).as_str());
                text
            },
            ResolveError::UnsupportedShape { op, got } => {
                let mut text = op.clone();
                text.append(" operation not supported for dtype `");
                text.append(dtype_name(got).as_str());
                text.append("`");
                text
            },
            ResolveError::PluginResolutionFailure { symbol, reason } => {
                let mut text = String::from_str("cannot resolve `");
                text.append(symbol.as_str());
                text.append("`: ");
                text.append(reason.as_str());
                text
            },
        }
    }
}

} // verus!
