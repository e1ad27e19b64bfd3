use expr_schema::datatypes::{DataType, Field, TimeUnit};
use expr_schema::error::ResolveError;
use expr_schema::mapper::{element_of, list_supertype, FieldsMapper};

fn list(inner: DataType) -> DataType {
    DataType::List(Box::new(inner))
}

fn one(dtype: DataType) -> Vec<Field> {
    vec![Field::new("a", dtype)]
}

#[test]
fn new_holds_the_fields() {
    let fields = vec![Field::new("a", DataType::Int8), Field::new("b", DataType::Utf8)];
    let mapper = FieldsMapper::new(&fields);
    assert_eq!(mapper.fields, &fields[..]);
    assert_eq!(mapper.get_fields_lens(), 2);
    assert_eq!(FieldsMapper::new(&[]).get_fields_lens(), 0);
}

#[test]
fn with_same_dtype_gives_the_primary_input() {
    let fields = vec![Field::new("a", list(DataType::Date)), Field::new("b", DataType::Utf8)];
    assert_eq!(FieldsMapper::new(&fields).with_same_dtype(), Ok(Field::new("a", list(DataType::Date))));
}

#[test]
fn with_dtype_keeps_the_name_only() {
    let fields = one(DataType::Int8);
    assert_eq!(
        FieldsMapper::new(&fields).with_dtype(DataType::Utf8),
        Ok(Field::new("a", DataType::Utf8))
    );
}

#[test]
fn with_opt_dtype_falls_back_to_unknown() {
    let fields = one(DataType::Utf8);
    let mapper = FieldsMapper::new(&fields);
    assert_eq!(mapper.with_opt_dtype(Some(DataType::Int64)), Ok(Field::new("a", DataType::Int64)));
    assert_eq!(mapper.with_opt_dtype(None), Ok(Field::new("a", DataType::Unknown)));
}

#[test]
fn map_dtype_applies_the_function_to_the_primary_type() {
    let fields = vec![Field::new("a", DataType::Int8), Field::new("b", DataType::Utf8)];
    let mapper = FieldsMapper::new(&fields);
    assert_eq!(
        mapper.map_dtype(|dt: &DataType| DataType::List(Box::new(dt.clone()))),
        Ok(Field::new("a", list(DataType::Int8)))
    );
}

#[test]
fn try_map_dtype_hands_the_outcome_on() {
    let fields = one(DataType::Int8);
    let mapper = FieldsMapper::new(&fields);
    assert_eq!(
        mapper.try_map_dtype(|dt: &DataType| Ok(DataType::List(Box::new(dt.clone())))),
        Ok(Field::new("a", list(DataType::Int8)))
    );
    let refused = || ResolveError::UnsupportedShape { op: "op".to_string(), got: DataType::Int8 };
    assert_eq!(mapper.try_map_dtype(|_dt: &DataType| Err(refused())), Err(refused()));
}

#[test]
fn try_map_field_hands_the_outcome_on() {
    let fields = vec![Field::new("a", DataType::Int8), Field::new("b", DataType::Utf8)];
    let mapper = FieldsMapper::new(&fields);
    assert_eq!(
        mapper.try_map_field(|f: &Field| Ok(Field::new("renamed", f.dtype.clone()))),
        Ok(Field::new("renamed", DataType::Int8))
    );
    let refused = || ResolveError::UnsupportedShape { op: "op".to_string(), got: DataType::Int8 };
    assert_eq!(mapper.try_map_field(|_f: &Field| Err(refused())), Err(refused()));
}

#[test]
fn try_map_dtypes_sees_all_types_in_order() {
    let fields = vec![
        Field::new("a", DataType::Int8),
        Field::new("b", DataType::Utf8),
        Field::new("c", DataType::Date),
    ];
    let mapper = FieldsMapper::new(&fields);
    let out = mapper.try_map_dtypes(|dts: &[&DataType]| {
        Ok(DataType::Struct(
            dts.iter().map(|dt| Field::new("x", (*dt).clone())).collect(),
        ))
    });
    assert_eq!(
        out,
        Ok(Field::new(
            "a",
            DataType::Struct(vec![
                Field::new("x", DataType::Int8),
                Field::new("x", DataType::Utf8),
                Field::new("x", DataType::Date),
            ])
        ))
    );
    let refused = || ResolveError::UnsupportedShape { op: "op".to_string(), got: DataType::Int8 };
    assert_eq!(mapper.try_map_dtypes(|_dts: &[&DataType]| Err(refused())), Err(refused()));
}

#[test]
fn float_promotion_keeps_precision_and_widens_the_rest() {
    let promoted = |dtype: DataType| FieldsMapper::new(&one(dtype)).map_to_float_dtype();
    assert_eq!(promoted(DataType::Float64), Ok(Field::new("a", DataType::Float64)));
    assert_eq!(promoted(DataType::Float32), Ok(Field::new("a", DataType::Float32)));
    for int in [
        DataType::Int8,
        DataType::Int16,
        DataType::Int32,
        DataType::Int64,
        DataType::UInt8,
        DataType::UInt16,
        DataType::UInt32,
        DataType::UInt64,
    ] {
        assert_eq!(promoted(int), Ok(Field::new("a", DataType::Float64)));
    }
    assert_eq!(promoted(DataType::Utf8), Ok(Field::new("a", DataType::Float64)));
    assert_eq!(promoted(list(DataType::Float32)), Ok(Field::new("a", DataType::Float64)));
}

#[test]
fn to_physical_type_gives_the_stored_type() {
    let stored = |dtype: DataType| FieldsMapper::new(&one(dtype)).to_physical_type();
    assert_eq!(stored(DataType::Date), Ok(Field::new("a", DataType::Int32)));
    assert_eq!(stored(DataType::Categorical), Ok(Field::new("a", DataType::UInt32)));
    assert_eq!(stored(DataType::Float32), Ok(Field::new("a", DataType::Float32)));
}

#[test]
fn supertype_of_one_input_is_its_type() {
    let fields = one(DataType::Struct(vec![Field::new("x", DataType::Time)]));
    assert_eq!(FieldsMapper::new(&fields).map_to_supertype(), Ok(fields[0].clone()));
}

#[test]
fn supertype_folds_over_all_inputs_from_the_left() {
    let fields = vec![
        Field::new("a", DataType::Int8),
        Field::new("b", DataType::UInt8),
        Field::new("c", DataType::Float32),
    ];
    assert_eq!(FieldsMapper::new(&fields).map_to_supertype(), Ok(Field::new("a", DataType::Float32)));
    let fields = vec![
        Field::new("a", DataType::Int32),
        Field::new("b", DataType::Int32),
        Field::new("c", DataType::Int32),
    ];
    assert_eq!(FieldsMapper::new(&fields).map_to_supertype(), Ok(Field::new("a", DataType::Int32)));
}

#[test]
fn supertype_fails_on_the_first_pair_without_one() {
    let fields = vec![
        Field::new("a", DataType::Boolean),
        Field::new("b", DataType::UInt8),
        Field::new("c", DataType::Date),
        Field::new("d", DataType::Time),
    ];
    assert_eq!(
        FieldsMapper::new(&fields).map_to_supertype(),
        Err(ResolveError::NoCommonSupertype { left: DataType::UInt8, right: DataType::Date })
    );
}

#[test]
fn list_inner_dtype_unwraps_one_level() {
    let inner = |dtype: DataType| FieldsMapper::new(&one(dtype)).map_to_list_inner_dtype();
    assert_eq!(inner(list(DataType::Int8)), Ok(Field::new("a", DataType::Int8)));
    assert_eq!(inner(list(list(DataType::Int8))), Ok(Field::new("a", list(DataType::Int8))));
    assert_eq!(
        inner(DataType::Array(Box::new(DataType::Utf8), 2)),
        Ok(Field::new("a", DataType::Utf8))
    );
    assert_eq!(inner(DataType::Int8), Ok(Field::new("a", DataType::Unknown)));
}

#[test]
fn wrapping_in_a_list_and_unwrapping_gives_the_type_back() {
    for dtype in [
        DataType::Boolean,
        DataType::Int64,
        DataType::Utf8,
        DataType::Datetime(TimeUnit::Microseconds, Some("UTC".to_string())),
        list(DataType::Float32),
        DataType::Struct(vec![Field::new("x", DataType::Date)]),
    ] {
        let fields = one(list(dtype.clone()));
        assert_eq!(
            FieldsMapper::new(&fields).map_to_list_inner_dtype(),
            Ok(Field::new("a", dtype))
        );
    }
}

#[test]
fn list_supertype_unwraps_lists_and_takes_scalars_as_they_are() {
    let fields = vec![
        Field::new("a", list(DataType::Int32)),
        Field::new("b", DataType::Int64),
        Field::new("c", list(DataType::Int8)),
    ];
    assert_eq!(
        FieldsMapper::new(&fields).map_to_list_supertype(),
        Ok(Field::new("a", list(DataType::Int64)))
    );
    let fields = one(DataType::Int8);
    assert_eq!(
        FieldsMapper::new(&fields).map_to_list_supertype(),
        Ok(Field::new("a", list(DataType::Int8)))
    );
    let fields = one(list(list(DataType::Int8)));
    assert_eq!(
        FieldsMapper::new(&fields).map_to_list_supertype(),
        Ok(Field::new("a", list(list(DataType::Int8))))
    );
}

#[test]
fn list_supertype_fails_where_elements_have_none() {
    let fields = vec![Field::new("a", list(DataType::Boolean)), Field::new("b", list(DataType::Date))];
    assert_eq!(
        FieldsMapper::new(&fields).map_to_list_supertype(),
        Err(ResolveError::NoCommonSupertype { left: DataType::Boolean, right: DataType::Date })
    );
}

#[test]
fn list_supertype_of_types() {
    let a = list(DataType::Int16);
    let b = DataType::Int32;
    assert_eq!(list_supertype(&[&a, &b]), Ok(list(DataType::Int32)));
    assert_eq!(element_of(&a), &DataType::Int16);
    assert_eq!(element_of(&b), &DataType::Int32);
    let array = DataType::Array(Box::new(DataType::Int8), 2);
    assert_eq!(element_of(&array), &array);
}

#[test]
fn datetime_timezone_is_replaced_and_the_unit_kept() {
    let fields = one(DataType::Datetime(TimeUnit::Nanoseconds, Some("CET".to_string())));
    let mapper = FieldsMapper::new(&fields);
    let utc = "UTC".to_string();
    assert_eq!(
        mapper.map_datetime_dtype_timezone(Some(&utc)),
        Ok(Field::new("a", DataType::Datetime(TimeUnit::Nanoseconds, Some("UTC".to_string()))))
    );
    assert_eq!(
        mapper.map_datetime_dtype_timezone(None),
        Ok(Field::new("a", DataType::Datetime(TimeUnit::Nanoseconds, None)))
    );
}

#[test]
fn datetime_timezone_refuses_other_types() {
    let fields = one(DataType::Date);
    assert_eq!(
        FieldsMapper::new(&fields).map_datetime_dtype_timezone(None),
        Err(ResolveError::TypeMismatch {
            op: "replace-time-zone".to_string(),
            got: DataType::Date,
            expected: "Datetime".to_string(),
        })
    );
}

#[test]
fn nested_sum_widens_narrow_integers() {
    let sum = |dtype: DataType| FieldsMapper::new(&one(dtype)).nested_sum_type();
    for narrow in [DataType::UInt8, DataType::Int8, DataType::Int16, DataType::UInt16] {
        assert_eq!(sum(list(narrow.clone())), Ok(Field::new("a", DataType::Int64)));
        assert_eq!(sum(DataType::Array(Box::new(narrow), 3)), Ok(Field::new("a", DataType::Int64)));
    }
    assert_eq!(sum(list(DataType::Int32)), Ok(Field::new("a", DataType::Int32)));
    assert_eq!(sum(list(DataType::UInt32)), Ok(Field::new("a", DataType::UInt32)));
    assert_eq!(sum(list(DataType::UInt64)), Ok(Field::new("a", DataType::UInt64)));
    assert_eq!(sum(list(DataType::Float32)), Ok(Field::new("a", DataType::Float32)));
    assert_eq!(sum(list(DataType::Utf8)), Ok(Field::new("a", DataType::Utf8)));
    assert_eq!(sum(DataType::Int8), Ok(Field::new("a", DataType::Unknown)));
}
