//! The fields mapper: the type rules that operators are built from.
//!
//! A mapper looks at the resolved fields of an operator's inputs, the first
//! of which is the primary input, and produces the resolved field of its
//! output. Unless a rule says otherwise, the output has the name of the
//! primary input.

use crate::datatypes::{fields_view, DataType, Field, SpecDataType, SpecField};
use crate::error::{ResolveError, SpecResolveError};
use crate::lattice::{supertype, try_get_supertype};
use vstd::prelude::*;
use vstd::string::StringExecFns;

verus! {

/// The outcome of a type rule: a field or a failure.
pub type Resolved = Result<Field, ResolveError>;

/// The model of the outcome of a type rule.
pub type SpecResolved = Result<SpecField, SpecResolveError>;

/// The model of an outcome.
pub open spec fn resolved_view(r: Resolved) -> SpecResolved {
    match r {
        Ok(field) => Ok(field@),
        Err(e) => Err(e@),
    }
}

/// The field with the name of `field` and the given type.
pub open spec fn retyped(field: SpecField, dtype: SpecDataType) -> SpecField {
    SpecField { name: field.name, dtype }
}

/// The outcome of the rule "same type as the primary input".
pub open spec fn same_rule(fields: Seq<SpecField>) -> SpecResolved {
    Ok(fields[0])
}

/// The outcome of the rule "the given type, under the primary input's name".
pub open spec fn fixed_rule(fields: Seq<SpecField>, dtype: SpecDataType) -> SpecResolved {
    Ok(retyped(fields[0], dtype))
}

/// The type of a floating-point result: single precision is kept, every
/// other type becomes double precision.
pub open spec fn float_promotion(dtype: SpecDataType) -> SpecDataType {
    if dtype is Float32 {
        SpecDataType::Float32
    } else {
        SpecDataType::Float64
    }
}

/// The element type of a nested type, or `Unknown` where the type is not
/// nested.
pub open spec fn inner_or_unknown(dtype: SpecDataType) -> SpecDataType {
    match dtype.inner() {
        Some(inner) => inner,
        None => SpecDataType::Unknown,
    }
}

/// The model of the given type, or `Unknown` where none is given.
pub open spec fn given_or_unknown(dtype: Option<DataType>) -> SpecDataType {
    match dtype {
        Some(dtype) => dtype@,
        None => SpecDataType::Unknown,
    }
}

/// The type of a sum over the elements of a nested type: integers of 8 and
/// 16 bits are summed in 64 bits, every other element type is kept.
pub open spec fn nested_sum(dtype: SpecDataType) -> SpecDataType {
    let inner = inner_or_unknown(dtype);
    if inner is UInt8 || inner is Int8 || inner is Int16 || inner is UInt16 {
        SpecDataType::Int64
    } else {
        inner
    }
}

/// The type that stands for an input in a concatenation of lists: the
/// element type of a list, and the type itself of any other input.
pub open spec fn element_view(dtype: SpecDataType) -> SpecDataType {
    match dtype {
        SpecDataType::List(inner) => *inner,
        _ => dtype,
    }
}

/// The supertype of the first `n` of the given types, folded from the left,
/// or the first pair of an accumulated supertype and a type that have no
/// supertype. `n` is at least 1.
pub open spec fn fold_supertype(types: Seq<SpecDataType>, n: nat) -> Result<
    SpecDataType,
    (SpecDataType, SpecDataType),
>
    decreases n,
{
    if n <= 1 {
        Ok(types[0])
    } else {
        match fold_supertype(types, (n - 1) as nat) {
            Ok(acc) => match supertype(acc, types[n - 1]) {
                Some(st) => Ok(st),
                None => Err((acc, types[n - 1])),
            },
            Err(pair) => Err(pair),
        }
    }
}

/// Once a fold has failed, it fails in the same way however far it goes.
pub proof fn lemma_fold_supertype_fails(types: Seq<SpecDataType>, n: nat, m: nat)
    requires
        1 <= n <= m,
        fold_supertype(types, n) is Err,
    ensures
        fold_supertype(types, m) == fold_supertype(types, n),
    decreases m,
{
    if n < m {
        lemma_fold_supertype_fails(types, n, (m - 1) as nat);
    }
}

/// The data types of a list of fields, in order.
pub open spec fn dtypes_of(fields: Seq<SpecField>) -> Seq<SpecDataType> {
    Seq::new(fields.len(), |i: int| fields[i].dtype)
}

/// Whether every field of the list has the given type.
pub open spec fn all_of_type(fields: Seq<SpecField>, dtype: SpecDataType) -> bool {
    forall|i: int| 0 <= i < fields.len() ==> (#[trigger] fields[i]).dtype == dtype
}

/// The rule "supertype of all inputs".
pub open spec fn supertype_rule(fields: Seq<SpecField>) -> SpecResolved {
    match fold_supertype(dtypes_of(fields), fields.len()) {
        Ok(st) => Ok(retyped(fields[0], st)),
        Err((left, right)) => Err(SpecResolveError::NoCommonSupertype { left, right }),
    }
}

/// The rule "list of the supertype of all inputs' elements".
pub open spec fn list_supertype_rule(fields: Seq<SpecField>) -> SpecResolved {
    let elements = Seq::new(fields.len(), |i: int| element_view(fields[i].dtype));
    match fold_supertype(elements, fields.len()) {
        Ok(st) => Ok(retyped(fields[0], SpecDataType::List(Box::new(st)))),
        Err((left, right)) => Err(SpecResolveError::NoCommonSupertype { left, right }),
    }
}

/// The model of an optional borrowed time zone.
pub open spec fn time_zone_ref_view(tz: Option<&String>) -> Option<Seq<char>> {
    match tz {
        Some(tz) => Some(tz@),
        None => None,
    }
}

/// The rule "same datetime with another time zone".
pub open spec fn datetime_timezone_rule(
    fields: Seq<SpecField>,
    tz: Option<Seq<char>>,
) -> SpecResolved {
    match fields[0].dtype {
        SpecDataType::Datetime(tu, _) => Ok(retyped(fields[0], SpecDataType::Datetime(tu, tz))),
        other => Err(
            SpecResolveError::TypeMismatch {
                op: "replace-time-zone"@,
                got: other,
                expected: "Datetime"@,
            },
        ),
    }
}

/// The type rules over the resolved fields of an operator's inputs.
pub struct FieldsMapper<'a> {
    pub fields: &'a [Field],
}

impl<'a> View for FieldsMapper<'a> {
    type V = Seq<SpecField>;

    open spec fn view(&self) -> Seq<SpecField> {
        fields_view(self.fields@)
    }
}

impl<'a> FieldsMapper<'a> {
    /// A mapper over the given input fields.
    pub fn new(fields: &'a [Field]) -> (r: Self)
        ensures
            r.fields@ == fields@,
            r@ == fields_view(fields@),
    {
        Self { fields }
    }

    /// Field with the same dtype.
    pub fn with_same_dtype(&self) -> (r: Resolved)
        requires
            self@.len() > 0,
        ensures
            resolved_view(r) == same_rule(self@),
    {
        Ok(self.fields[0].clone())
    }

    /// Set a dtype.
    pub fn with_dtype(&self, dtype: DataType) -> (r: Resolved)
        requires
            self@.len() > 0,
        ensures
            resolved_view(r) == fixed_rule(self@, dtype@),
    {
        Ok(Field { name: self.fields[0].name.clone(), dtype })
    }

    /// Number of input fields.
    pub fn get_fields_lens(&self) -> (r: usize)
        ensures
            r == self@.len(),
    {
        self.fields.len()
    }

    /// Map to a float supertype.
    pub fn map_to_float_dtype(&self) -> (r: Resolved)
        requires
            self@.len() > 0,
        ensures
            resolved_view(r) == fixed_rule(self@, float_promotion(self@[0].dtype)),
    {
        let dtype = match &self.fields[0].dtype {
            DataType::Float32 => DataType::Float32,
            _ => DataType::Float64,
        };
        self.with_dtype(dtype)
    }

    /// Map to a physical type.
    pub fn to_physical_type(&self) -> (r: Resolved)
        requires
            self@.len() > 0,
        ensures
            resolved_view(r) == fixed_rule(self@, self@[0].dtype.physical()),
    {
        self.with_dtype(self.fields[0].dtype.to_physical())
    }

    /// Map a single dtype.
    pub fn map_dtype<F: Fn(&DataType) -> DataType>(&self, func: F) -> (r: Resolved)
        requires
            self@.len() > 0,
            func.requires((&self.fields[0].dtype,)),
        ensures
            r is Ok,
            r->Ok_0@.name == self@[0].name,
            func.ensures((&self.fields[0].dtype,), r->Ok_0.dtype),
    {
        let dtype = func(&self.fields[0].dtype);
        Ok(Field { name: self.fields[0].name.clone(), dtype })
    }

    /// Map a single field with a potentially failing mapper function.
    pub fn try_map_field<F: Fn(&Field) -> Resolved>(&self, func: F) -> (r: Resolved)
        requires
            self@.len() > 0,
            func.requires((&self.fields[0],)),
        ensures
            func.ensures((&self.fields[0],), r),
    {
        func(&self.fields[0])
    }

    /// Map a single dtype with a potentially failing mapper function.
    pub fn try_map_dtype<F: Fn(&DataType) -> Result<DataType, ResolveError>>(&self, func: F) -> (r:
        Resolved)
        requires
            self@.len() > 0,
            func.requires((&self.fields[0].dtype,)),
        ensures
            r is Ok ==> r->Ok_0@.name == self@[0].name && func.ensures(
                (&self.fields[0].dtype,),
                Ok(r->Ok_0.dtype),
            ),
            r is Err ==> func.ensures((&self.fields[0].dtype,), Err(r->Err_0)),
    {
        match func(&self.fields[0].dtype) {
            Ok(dtype) => Ok(Field { name: self.fields[0].name.clone(), dtype }),
            Err(e) => Err(e),
        }
    }

    /// Map the dtype to the "supertype" of all fields.
    pub fn map_to_supertype(&self) -> (r: Resolved)
        requires
            self@.len() > 0,
        ensures
            resolved_view(r) == supertype_rule(self@),
            all_of_type(self@, self@[0].dtype) ==> resolved_view(r) == same_rule(self@),
    {
        let mut st = self.fields[0].dtype.clone();
        let mut i: usize = 1;
        while i < self.fields.len()
            invariant
                1 <= i <= self.fields.len(),
                self@.len() == self.fields.len(),
                fold_supertype(dtypes_of(self@), i as nat) == Ok::<
                    SpecDataType,
                    (SpecDataType, SpecDataType),
                >(st@),
                all_of_type(self@, self@[0].dtype) ==> st@ == self@[0].dtype,
            decreases self.fields.len() - i,
        {
            match try_get_supertype(&st, &self.fields[i].dtype) {
                Ok(next) => {
                    st = next;
                },
                Err(e) => {
                    proof {
                        lemma_fold_supertype_fails(dtypes_of(self@), (i + 1) as nat, self@.len());
                    }
                    return Err(e);
                },
            }
            i += 1;
        }
        self.with_dtype(st)
    }

    /// Map the dtype to the dtype of the list elements.
    pub fn map_to_list_inner_dtype(&self) -> (r: Resolved)
        requires
            self@.len() > 0,
        ensures
            resolved_view(r) == fixed_rule(self@, inner_or_unknown(self@[0].dtype)),
    {
        let dtype = match self.fields[0].dtype.inner_dtype() {
            Some(inner) => inner.clone(),
            None => DataType::Unknown,
        };
        self.with_dtype(dtype)
    }

    /// Sum of the elements of a nested type.
    pub fn nested_sum_type(&self) -> (r: Resolved)
        requires
            self@.len() > 0,
        ensures
            resolved_view(r) == fixed_rule(self@, nested_sum(self@[0].dtype)),
    {
        let inner = match self.fields[0].dtype.inner_dtype() {
            Some(inner) => inner.clone(),
            None => DataType::Unknown,
        };
        let dtype = match inner {
            DataType::UInt8 | DataType::Int8 | DataType::Int16 | DataType::UInt16 => {
                DataType::Int64
            },
            other => other,
        };
        self.with_dtype(dtype)
    }

    /// Set a dtype, or `Unknown` where none is given.
    pub fn with_opt_dtype(&self, dtype: Option<DataType>) -> (r: Resolved)
        requires
            self@.len() > 0,
        ensures
            resolved_view(r) == fixed_rule(self@, given_or_unknown(dtype)),
    {
        match dtype {
            Some(dtype) => self.with_dtype(dtype),
            None => self.with_dtype(DataType::Unknown),
        }
    }

    /// Set the timezone of a datetime dtype.
    pub fn map_datetime_dtype_timezone(&self, tz: Option<&String>) -> (r: Resolved)
        requires
            self@.len() > 0,
        ensures
            resolved_view(r) == datetime_timezone_rule(self@, time_zone_ref_view(tz)),
    {
        match &self.fields[0].dtype {
            DataType::Datetime(tu, _) => {
                let tz = match tz {
                    Some(tz) => Some(tz.clone()),
                    None => None,
                };
                self.with_dtype(DataType::Datetime(*tu, tz))
            },
            other => Err(
                ResolveError::TypeMismatch {
                    op: String::from_str("replace-time-zone"),
                    got: other.clone(),
                    expected: String::from_str("Datetime"),
                },
            ),
        }
    }

    /// Map all dtypes with a potentially failing mapper function.
    pub fn try_map_dtypes<F: Fn(&[&DataType]) -> Result<DataType, ResolveError>>(
        &self,
        func: F,
    ) -> (r: Resolved)
        requires
            self@.len() > 0,
            forall|dtypes: &[&DataType]| self.lists(dtypes) ==> func.requires((dtypes,)),
        ensures
            r is Ok ==> r->Ok_0@.name == self@[0].name && exists|dtypes: &[&DataType]|
                self.lists(dtypes) && func.ensures((dtypes,), Ok(r->Ok_0.dtype)),
            r is Err ==> exists|dtypes: &[&DataType]|
                self.lists(dtypes) && func.ensures((dtypes,), Err(r->Err_0)),
    {
        let mut dtypes: Vec<&DataType> = Vec::new();
        let mut i: usize = 0;
        while i < self.fields.len()
            invariant
                i <= self.fields.len(),
                dtypes.len() == i,
                forall|j: int| 0 <= j < i ==> *dtypes[j] == self.fields[j].dtype,
            decreases self.fields.len() - i,
        {
            dtypes.push(&self.fields[i].dtype);
            i += 1;
        }
        let dtypes = dtypes.as_slice();
        assert(self.lists(dtypes));
        match func(dtypes) {
            Ok(dtype) => Ok(Field { name: self.fields[0].name.clone(), dtype }),
            Err(e) => Err(e),
        }
    }

    /// Whether `dtypes` holds the data types of the input fields, in order.
    pub open spec fn lists(&self, dtypes: &[&DataType]) -> bool {
        &&& dtypes@.len() == self.fields@.len()
        &&& forall|i: int| 0 <= i < dtypes@.len() ==> *dtypes@[i] == self.fields@[i].dtype
    }

    /// Map the dtypes to the "supertype" of a list of lists.
    pub fn map_to_list_supertype(&self) -> (r: Resolved)
        requires
            self@.len() > 0,
        ensures
            resolved_view(r) == list_supertype_rule(self@),
    {
        let r = self.try_map_dtypes(list_supertype);
        proof {
            let dtypes = choose|dtypes: &[&DataType]|
                self.lists(dtypes) && match r {
                    Ok(field) => call_ensures(list_supertype, (dtypes,), Ok(field.dtype)),
                    Err(e) => call_ensures(list_supertype, (dtypes,), Err(e)),
                };
            assert(element_views(dtypes@) =~= Seq::new(
                self@.len(),
                |i: int| element_view(self@[i].dtype),
            ));
        }
        r
    }
}

/// The element views of a list of data types, in order.
pub open spec fn element_views(dtypes: Seq<&DataType>) -> Seq<SpecDataType> {
    Seq::new(dtypes.len(), |i: int| element_view(dtypes[i]@))
}

/// The list type around the supertype of the element views of the given
/// types, folded from the left. Fails with the first pair that has no
/// supertype.
pub fn list_supertype(dtypes: &[&DataType]) -> (r: Result<DataType, ResolveError>)
    requires
        dtypes@.len() > 0,
    ensures
        match fold_supertype(element_views(dtypes@), dtypes@.len()) {
            Ok(st) => r is Ok && r->Ok_0@ == SpecDataType::List(Box::new(st)),
            Err((left, right)) => r is Err && r->Err_0@ == (SpecResolveError::NoCommonSupertype {
                left,
                right,
            }),
        },
{
    let mut st = element_of(dtypes[0]).clone();
    let mut i: usize = 1;
    while i < dtypes.len()
        invariant
            1 <= i <= dtypes@.len(),
            fold_supertype(element_views(dtypes@), i as nat) == Ok::<
                SpecDataType,
                (SpecDataType, SpecDataType),
            >(st@),
        decreases dtypes.len() - i,
    {
        match try_get_supertype(&st, element_of(dtypes[i])) {
            Ok(next) => {
                st = next;
            },
            Err(e) => {
                proof {
                    lemma_fold_supertype_fails(
                        element_views(dtypes@),
                        (i + 1) as nat,
                        dtypes@.len(),
                    );
                }
                return Err(e);
            },
        }
        i += 1;
    }
    Ok(DataType::List(Box::new(st)))
}

/// The type that stands for an input in a concatenation of lists.
pub fn element_of(dtype: &DataType) -> (r: &DataType)
    ensures
        r@ == element_view(dtype@),
{
    match dtype {
        DataType::List(inner) => &**inner,
        other => other,
    }
}

} // verus!
