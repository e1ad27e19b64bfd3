//! The catalog of operators and the dispatch from an operator to its type
//! rule.

use crate::array::ArrayFunction;
use crate::binary::BinaryFunction;
use crate::boolean::BooleanFunction;
use crate::cat::CategoricalFunction;
use crate::cum::{cumprod, cumprod_dtype, cumsum, cumsum_dtype};
use crate::datatypes::{
    fields_view, lemma_struct_view, DataType, Field, SpecDataType, SpecField, TimeUnit,
};
use crate::lattice::{idx_dtype, spec_idx_dtype};
use crate::list::ListFunction;
use crate::mapper::{
    fixed_rule, float_promotion, resolved_view, same_rule, supertype_rule, FieldsMapper, Resolved,
    SpecResolved,
};
use crate::plugin::{plugin_symbol, symbol_name};
use crate::range::RangeFunction;
use crate::strings::StringFunction;
use crate::struct_::StructFunction;
use crate::temporal::TemporalFunction;
use polars_core::schema::Schema;
use vstd::prelude::*;

verus! {

#[verifier::external_type_specification]
#[verifier::external_body]
pub struct ExSchema(Schema);

/// Where in a query an expression is evaluated.
#[derive(Clone, Copy, Debug, PartialEq, Eq, Hash, Structural)]
pub enum Context {
    /// Within the groups of an aggregation.
    Aggregation,
    /// Anywhere else.
    Default,
}

/// An operator of the expression language, with the parameters that its
/// output type depends on.
#[derive(Clone, Debug, PartialEq, Eq)]
pub enum FunctionExpr {
    Abs,
    NullCount,
    Pow,
    Coalesce,
    Hash,
    ArgWhere,
    SearchSorted,
    StringExpr(StringFunction),
    BinaryExpr(BinaryFunction),
    TemporalExpr(TemporalFunction),
    Range(RangeFunction),
    DateOffset,
    Trigonometry,
    Atan2,
    Sign,
    /// Nulls replaced by a value; `super_type` is the common type of the
    /// column and the value, determined beforehand.
    FillNull { super_type: DataType },
    RollingSkew,
    ShiftAndFill,
    DropNans,
    Clip,
    ListExpr(ListFunction),
    ArrayExpr(ArrayFunction),
    /// A struct of all inputs.
    AsStruct,
    StructExpr(StructFunction),
    TopK,
    Shift,
    Reverse,
    Boolean(BooleanFunction),
    Categorical(CategoricalFunction),
    Cumcount,
    Cumsum,
    Cumprod,
    Cummin,
    Cummax,
    ApproxNUnique,
    Diff,
    Interpolate,
    ShrinkType,
    Entropy,
    Log,
    Log1p,
    Exp,
    Unique,
    Round,
    Floor,
    Ceil,
    UpperBound,
    LowerBound,
    Fused,
    ConcatExpr,
    Correlation,
    Cut,
    QCut,
    /// Run-length encoding: the lengths of the runs and their values.
    RLE,
    /// Run-length encoding: the number of the run of each row.
    RLEID,
    ToPhysical,
    Random,
    SetSortedFlag,
    /// An operator defined by the library `lib`, which exports it as
    /// `symbol`.
    FfiPlugin { lib: String, symbol: String },
}

/// The type of the difference of consecutive values: temporal values
/// differ by a duration, unsigned integers by a signed integer that holds
/// every difference, and every other type by itself.
pub open spec fn diff_dtype(dtype: SpecDataType) -> SpecDataType {
    match dtype {
        SpecDataType::Datetime(tu, _) => SpecDataType::Duration(tu),
        SpecDataType::Date => SpecDataType::Duration(TimeUnit::Milliseconds),
        SpecDataType::Time => SpecDataType::Duration(TimeUnit::Nanoseconds),
        SpecDataType::UInt64 | SpecDataType::UInt32 => SpecDataType::Int64,
        SpecDataType::UInt16 => SpecDataType::Int32,
        SpecDataType::UInt8 => SpecDataType::Int16,
        _ => dtype,
    }
}

/// The smallest type that a shrunk column may get: single precision for
/// floats, signed 8 bits for unsigned integers, unsigned 8 bits for signed
/// integers. A type that is not numeric is kept. The data may call for more
/// bits than this; the type is a lower bound, not a promise.
pub open spec fn shrink_dtype(dtype: SpecDataType) -> SpecDataType {
    if dtype.is_numeric() {
        if dtype.is_float() {
            SpecDataType::Float32
        } else if dtype.is_unsigned() {
            SpecDataType::Int8
        } else {
            SpecDataType::UInt8
        }
    } else {
        dtype
    }
}

/// The type of run-length encoded values: a struct of the lengths of the
/// runs and of their values.
pub open spec fn rle_dtype(dtype: SpecDataType) -> SpecDataType {
    SpecDataType::Struct(
        seq![
            SpecField { name: "lengths"@, dtype: SpecDataType::UInt64 },
            SpecField { name: "values"@, dtype },
        ],
    )
}

/// The type of the difference of consecutive values of a column.
pub fn diff(dtype: &DataType) -> (r: DataType)
    ensures
        r@ == diff_dtype(dtype@),
{
    match dtype {
        DataType::Datetime(tu, _) => DataType::Duration(*tu),
        DataType::Date => DataType::Duration(TimeUnit::Milliseconds),
        DataType::Time => DataType::Duration(TimeUnit::Nanoseconds),
        DataType::UInt64 | DataType::UInt32 => DataType::Int64,
        DataType::UInt16 => DataType::Int32,
        DataType::UInt8 => DataType::Int16,
        other => other.clone(),
    }
}

/// The smallest type that a shrunk column of the given type may get.
pub fn shrink(dtype: &DataType) -> (r: DataType)
    ensures
        r@ == shrink_dtype(dtype@),
{
    if dtype.is_numeric() {
        if dtype.is_float() {
            DataType::Float32
        } else if dtype.is_unsigned() {
            DataType::Int8
        } else {
            DataType::UInt8
        }
    } else {
        dtype.clone()
    }
}

/// The type of the run-length encoding of a column of the given type.
pub fn rle(dtype: &DataType) -> (r: DataType)
    ensures
        r@ == rle_dtype(dtype@),
{
    let mut fields: Vec<Field> = Vec::new();
    fields.push(Field::new("lengths", DataType::UInt64));
    fields.push(Field::new("values", dtype.clone()));
    proof {
        lemma_struct_view(fields);
        assert(fields_view(fields@) =~= rle_dtype(dtype@)->Struct_0);
    }
    DataType::Struct(fields)
}

/// The struct type whose sub-fields are the given fields.
pub fn struct_of(fields: &[Field]) -> (r: DataType)
    ensures
        r@ == SpecDataType::Struct(fields_view(fields@)),
{
    let mut copy: Vec<Field> = Vec::new();
    let mut i: usize = 0;
    while i < fields.len()
        invariant
            i <= fields.len(),
            copy.len() == i,
            forall|j: int| 0 <= j < i ==> copy[j]@ == fields[j]@,
        decreases fields.len() - i,
    {
        copy.push(fields[i].clone());
        i += 1;
    }
    proof {
        lemma_struct_view(copy);
        assert(fields_view(copy@) =~= fields_view(fields@));
    }
    DataType::Struct(copy)
}

impl FunctionExpr {
    /// Whether the rule of this operator looks at the primary input, so that
    /// there has to be one.
    pub open spec fn reads_primary(&self) -> bool {
        match self {
            FunctionExpr::TemporalExpr(fun) => fun.reads_primary(),
            FunctionExpr::Range(_) => false,
            FunctionExpr::FfiPlugin { .. } => false,
            _ => true,
        }
    }

    /// Whether the rule of this operator looks at the primary input, so that
    /// [`FunctionExpr::get_field`] asks for at least one input field.
    pub fn needs_primary(&self) -> (r: bool)
        ensures
            r == self.reads_primary(),
    {
        match self {
            FunctionExpr::TemporalExpr(fun) => fun.needs_primary(),
            FunctionExpr::Range(_) => false,
            FunctionExpr::FfiPlugin { .. } => false,
            _ => true,
        }
    }

    /// The output field of this operator for the given input fields. For an
    /// operator that is defined outside the catalog, see
    /// [`FunctionExpr::get_field`].
    pub open spec fn rule(&self, fields: Seq<SpecField>) -> SpecResolved
        recommends
            !(self is FfiPlugin),
    {
        let input = fields[0].dtype;
        match self {
            FunctionExpr::Abs
            | FunctionExpr::DateOffset
            | FunctionExpr::ShiftAndFill
            | FunctionExpr::DropNans
            | FunctionExpr::Clip
            | FunctionExpr::TopK
            | FunctionExpr::Shift
            | FunctionExpr::Reverse
            | FunctionExpr::Cummin
            | FunctionExpr::Cummax
            | FunctionExpr::Interpolate
            | FunctionExpr::Unique
            | FunctionExpr::Round
            | FunctionExpr::Floor
            | FunctionExpr::Ceil
            | FunctionExpr::UpperBound
            | FunctionExpr::LowerBound
            | FunctionExpr::Random
            | FunctionExpr::SetSortedFlag => same_rule(fields),
            FunctionExpr::NullCount
            | FunctionExpr::ArgWhere
            | FunctionExpr::SearchSorted
            | FunctionExpr::Cumcount
            | FunctionExpr::ApproxNUnique => fixed_rule(fields, spec_idx_dtype()),
            FunctionExpr::Pow
            | FunctionExpr::Trigonometry
            | FunctionExpr::Atan2
            | FunctionExpr::RollingSkew
            | FunctionExpr::Entropy
            | FunctionExpr::Log
            | FunctionExpr::Log1p
            | FunctionExpr::Exp
            | FunctionExpr::Correlation => fixed_rule(fields, float_promotion(input)),
            FunctionExpr::Coalesce
            | FunctionExpr::Fused
            | FunctionExpr::ConcatExpr => supertype_rule(fields),
            FunctionExpr::Hash => fixed_rule(fields, SpecDataType::UInt64),
            FunctionExpr::Sign => fixed_rule(fields, SpecDataType::Int64),
            FunctionExpr::FillNull { super_type } => fixed_rule(fields, super_type@),
            FunctionExpr::StringExpr(fun) => fun.rule(fields),
            FunctionExpr::BinaryExpr(fun) => fun.rule(fields),
            FunctionExpr::TemporalExpr(fun) => fun.rule(fields),
            FunctionExpr::Range(fun) => fun.rule(fields),
            FunctionExpr::ListExpr(fun) => fun.rule(fields),
            FunctionExpr::ArrayExpr(fun) => fun.rule(fields),
            FunctionExpr::StructExpr(fun) => fun.rule(fields),
            FunctionExpr::Boolean(fun) => fun.rule(fields),
            FunctionExpr::Categorical(fun) => fun.rule(fields),
            FunctionExpr::AsStruct => fixed_rule(fields, SpecDataType::Struct(fields)),
            FunctionExpr::Cumsum => fixed_rule(fields, cumsum_dtype(input)),
            FunctionExpr::Cumprod => fixed_rule(fields, cumprod_dtype(input)),
            FunctionExpr::Diff => fixed_rule(fields, diff_dtype(input)),
            FunctionExpr::ShrinkType => fixed_rule(fields, shrink_dtype(input)),
            FunctionExpr::Cut | FunctionExpr::QCut => fixed_rule(fields, SpecDataType::Categorical),
            FunctionExpr::RLE => fixed_rule(fields, rle_dtype(input)),
            FunctionExpr::RLEID => fixed_rule(fields, SpecDataType::UInt32),
            FunctionExpr::ToPhysical => fixed_rule(fields, input.physical()),
            FunctionExpr::FfiPlugin { .. } => arbitrary(),
        }
    }

    /// Resolves the name and the data type of this operator's output from
    /// the resolved fields of its inputs.
    ///
    /// The schema of the inputs and the context of the expression belong to
    /// the interface; no rule depends on them. `plugin` is the
    /// caller's capability to find and call an externally defined rule: it
    /// is called for [`FunctionExpr::FfiPlugin`] and for no other operator,
    /// with the input fields, the library and the rule's exported name, and
    /// what it returns is the outcome.
    pub fn get_field<P: Fn(&[Field], &str, &str) -> Resolved>(
        &self,
        _input_schema: &Schema,
        _cntxt: Context,
        fields: &[Field],
        plugin: P,
    ) -> (r: Resolved)
        requires
            self.reads_primary() ==> fields@.len() > 0,
            self is FfiPlugin ==> forall|lib: &str, symbol: &str|
                lib@ == self->lib@ && symbol@ == symbol_name(self->symbol@) ==> plugin.requires(
                    (fields, lib, symbol),
                ),
        ensures
            !(self is FfiPlugin) ==> resolved_view(r) == self.rule(fields_view(fields@)),
            self is FfiPlugin ==> exists|lib: &str, symbol: &str|
                lib@ == self->lib@ && symbol@ == symbol_name(self->symbol@) && plugin.ensures(
                    (fields, lib, symbol),
                    r,
                ),
    {
        let mapper = FieldsMapper { fields };
        match self {
            FunctionExpr::Abs => mapper.with_same_dtype(),
            FunctionExpr::NullCount => mapper.with_dtype(idx_dtype()),
            FunctionExpr::Pow => mapper.map_to_float_dtype(),
            FunctionExpr::Coalesce => mapper.map_to_supertype(),
            FunctionExpr::Hash => mapper.with_dtype(DataType::UInt64),
            FunctionExpr::ArgWhere => mapper.with_dtype(idx_dtype()),
            FunctionExpr::SearchSorted => mapper.with_dtype(idx_dtype()),
            FunctionExpr::StringExpr(s) => s.get_field(mapper),
            FunctionExpr::BinaryExpr(s) => s.get_field(mapper),
            FunctionExpr::TemporalExpr(fun) => fun.get_field(mapper),
            FunctionExpr::Range(func) => func.get_field(mapper),
            FunctionExpr::DateOffset => mapper.with_same_dtype(),
            FunctionExpr::Trigonometry => mapper.map_to_float_dtype(),
            FunctionExpr::Atan2 => mapper.map_to_float_dtype(),
            FunctionExpr::Sign => mapper.with_dtype(DataType::Int64),
            FunctionExpr::FillNull { super_type } => mapper.with_dtype(super_type.clone()),
            FunctionExpr::RollingSkew => mapper.map_to_float_dtype(),
            FunctionExpr::ShiftAndFill => mapper.with_same_dtype(),
            FunctionExpr::DropNans => mapper.with_same_dtype(),
            FunctionExpr::Clip => mapper.with_same_dtype(),
            FunctionExpr::ListExpr(l) => l.get_field(mapper),
            FunctionExpr::ArrayExpr(af) => af.get_field(mapper),
            FunctionExpr::AsStruct => mapper.with_dtype(struct_of(fields)),
            FunctionExpr::StructExpr(s) => s.get_field(mapper),
            FunctionExpr::TopK => mapper.with_same_dtype(),
            FunctionExpr::Shift | FunctionExpr::Reverse => mapper.with_same_dtype(),
            FunctionExpr::Boolean(func) => func.get_field(mapper),
            FunctionExpr::Categorical(func) => func.get_field(mapper),
            FunctionExpr::Cumcount => mapper.with_dtype(idx_dtype()),
            FunctionExpr::Cumsum => mapper.map_dtype(cumsum),
            FunctionExpr::Cumprod => mapper.map_dtype(cumprod),
            FunctionExpr::Cummin => mapper.with_same_dtype(),
            FunctionExpr::Cummax => mapper.with_same_dtype(),
            FunctionExpr::ApproxNUnique => mapper.with_dtype(idx_dtype()),
            FunctionExpr::Diff => mapper.map_dtype(diff),
            FunctionExpr::Interpolate => mapper.with_same_dtype(),
            FunctionExpr::ShrinkType => mapper.map_dtype(shrink),
            FunctionExpr::Entropy
            | FunctionExpr::Log
            | FunctionExpr::Log1p
            | FunctionExpr::Exp => mapper.map_to_float_dtype(),
            FunctionExpr::Unique => mapper.with_same_dtype(),
            FunctionExpr::Round
            | FunctionExpr::Floor
            | FunctionExpr::Ceil => mapper.with_same_dtype(),
            FunctionExpr::UpperBound | FunctionExpr::LowerBound => mapper.with_same_dtype(),
            FunctionExpr::Fused => mapper.map_to_supertype(),
            FunctionExpr::ConcatExpr => mapper.map_to_supertype(),
            FunctionExpr::Correlation => mapper.map_to_float_dtype(),
            FunctionExpr::Cut => mapper.with_dtype(DataType::Categorical),
            FunctionExpr::QCut => mapper.with_dtype(DataType::Categorical),
            FunctionExpr::RLE => mapper.map_dtype(rle),
            FunctionExpr::RLEID => mapper.with_dtype(DataType::UInt32),
            FunctionExpr::ToPhysical => mapper.to_physical_type(),
            FunctionExpr::Random => mapper.with_same_dtype(),
            FunctionExpr::SetSortedFlag => mapper.with_same_dtype(),
            FunctionExpr::FfiPlugin { lib, symbol } => {
                let name = plugin_symbol(symbol.as_str());
                plugin(fields, lib.as_str(), name.as_str())
            },
        }
    }
}

} // verus!
