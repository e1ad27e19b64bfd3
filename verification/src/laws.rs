//! What holds of the type rules in general.

use crate::datatypes::{SpecDataType, SpecField};
use crate::error::SpecResolveError;
use crate::function_expr::FunctionExpr;
use crate::list::ListFunction;
use crate::mapper::{
    fixed_rule, float_promotion, inner_or_unknown, resolved_view, same_rule, Resolved,
};
use vstd::prelude::*;

verus! {

/// Whether an operator keeps the shape of its input: its output is a column
/// of the same kind of values.
pub open spec fn keeps_type(op: FunctionExpr) -> bool {
    match op {
        FunctionExpr::Abs
        | FunctionExpr::DateOffset
        | FunctionExpr::ShiftAndFill
        | FunctionExpr::DropNans
        | FunctionExpr::Clip
        | FunctionExpr::TopK
        | FunctionExpr::Shift
        | FunctionExpr::Reverse
        | FunctionExpr::Cummin
        | FunctionExpr::Cummax
        | FunctionExpr::Interpolate
        | FunctionExpr::Unique
        | FunctionExpr::Round
        | FunctionExpr::Floor
        | FunctionExpr::Ceil
        | FunctionExpr::UpperBound
        | FunctionExpr::LowerBound
        | FunctionExpr::Random
        | FunctionExpr::SetSortedFlag => true,
        FunctionExpr::TemporalExpr(fun) => fun is Truncate || fun is MonthStart || fun is MonthEnd
            || fun is Round,
        FunctionExpr::ListExpr(fun) => fun is DropNulls || fun is Slice || fun is Shift
            || fun is Take || fun is Sort || fun is Reverse || fun is Unique
            || fun is SetOperation,
        FunctionExpr::ArrayExpr(fun) => fun is Min || fun is Max,
        FunctionExpr::Categorical(fun) => fun is SetOrdering,
        FunctionExpr::StringExpr(fun) => fun is Explode || fun is Extract || fun is LJust
            || fun is Lowercase || fun is Replace || fun is RJust || fun is Slice
            || fun is StripChars || fun is StripCharsStart || fun is StripCharsEnd
            || fun is StripPrefix || fun is StripSuffix || fun is Titlecase || fun is Uppercase
            || fun is Zfill,
        _ => false,
    }
}

/// Whether an operator computes a fractional number from its input.
pub open spec fn promotes_to_float(op: FunctionExpr) -> bool {
    op is Pow || op is Trigonometry || op is Atan2 || op is RollingSkew || op is Entropy
        || op is Log || op is Log1p || op is Exp || op is Correlation
}

/// Resolution is a function of the operator and the input fields: two
/// outcomes of resolving the same operator of the catalog on the same
/// inputs are the same field or the same failure.
pub proof fn lemma_resolution_is_deterministic(
    op: FunctionExpr,
    fields: Seq<SpecField>,
    first: Resolved,
    second: Resolved,
)
    requires
        !(op is FfiPlugin),
        resolved_view(first) == op.rule(fields),
        resolved_view(second) == op.rule(fields),
    ensures
        resolved_view(first) == resolved_view(second),
{
}

/// An operator that keeps the shape of its input gives the primary input
/// back, name and type, whatever the type is; so applying it again to its
/// own output changes nothing.
pub proof fn lemma_same_type_rule_is_idempotent(op: FunctionExpr, fields: Seq<SpecField>)
    requires
        keeps_type(op),
    ensures
        op.rule(fields) == same_rule(fields),
        op.rule(seq![op.rule(fields)->Ok_0]) == op.rule(fields),
{
}

/// Taking the element type of a list of some type gives that type back,
/// under the same name.
pub proof fn lemma_list_inner_round_trip(name: Seq<char>, dtype: SpecDataType)
    ensures
        inner_or_unknown(SpecDataType::List(Box::new(dtype))) == dtype,
        FunctionExpr::ListExpr(ListFunction::Get).rule(
            seq![SpecField { name, dtype: SpecDataType::List(Box::new(dtype)) }],
        ) == Ok::<SpecField, SpecResolveError>(SpecField { name, dtype }),
{
}

/// Float promotion keeps single and double precision, turns every integer
/// into double precision, and applied twice gives what it gives once.
pub proof fn lemma_float_promotion_fixed_point(dtype: SpecDataType)
    ensures
        float_promotion(SpecDataType::Float64) == SpecDataType::Float64,
        float_promotion(SpecDataType::Float32) == SpecDataType::Float32,
        dtype.is_integer() ==> float_promotion(dtype) == SpecDataType::Float64,
        float_promotion(float_promotion(dtype)) == float_promotion(dtype),
{
}

/// An operator that computes a fractional number gives the float promotion
/// of its input's type, and applied to its own output keeps that type.
pub proof fn lemma_float_rule_fixed_point(op: FunctionExpr, fields: Seq<SpecField>)
    requires
        promotes_to_float(op),
    ensures
        op.rule(fields) == fixed_rule(fields, float_promotion(fields[0].dtype)),
        op.rule(seq![op.rule(fields)->Ok_0]) == op.rule(fields),
{
}

} // verus!
