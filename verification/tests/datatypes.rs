use expr_schema::datatypes::{
    clone_fields, clone_time_zone, physical_fields, same_fields, same_time_zone, same_unit,
    DataType, Field, TimeUnit,
};
use expr_schema::lattice::{from_lattice, to_lattice};

fn samples() -> Vec<DataType> {
    vec![
        DataType::Boolean,
        DataType::UInt8,
        DataType::UInt16,
        DataType::UInt32,
        DataType::UInt64,
        DataType::Int8,
        DataType::Int16,
        DataType::Int32,
        DataType::Int64,
        DataType::Float32,
        DataType::Float64,
        DataType::Utf8,
        DataType::Binary,
        DataType::Date,
        DataType::Datetime(TimeUnit::Milliseconds, None),
        DataType::Datetime(TimeUnit::Nanoseconds, Some("UTC".to_string())),
        DataType::Duration(TimeUnit::Microseconds),
        DataType::Time,
        DataType::Array(Box::new(DataType::Date), 2),
        DataType::List(Box::new(DataType::Date)),
        DataType::List(Box::new(DataType::List(Box::new(DataType::Categorical)))),
        DataType::Null,
        DataType::Categorical,
        DataType::Struct(vec![
            Field::new("when", DataType::Time),
            Field::new("what", DataType::Utf8),
            Field::new("all", DataType::List(Box::new(DataType::Duration(TimeUnit::Nanoseconds)))),
        ]),
        DataType::Unknown,
    ]
}

#[test]
fn field_new_holds_name_and_type() {
    let f = Field::new("Temperature", DataType::Int32);
    assert_eq!(f.name(), "Temperature");
    assert_eq!(f.data_type(), &DataType::Int32);
    assert_eq!(f.name, "Temperature".to_string());
    assert_eq!(f.dtype, DataType::Int32);
}

#[test]
fn coerce_replaces_the_type_and_keeps_the_name() {
    let original = Field::new("Temperature", DataType::Int32);
    let mut copy = original.clone();
    copy.coerce(DataType::Float32);
    assert_eq!(copy, Field::new("Temperature", DataType::Float32));
    assert_eq!(original, Field::new("Temperature", DataType::Int32));
}

#[test]
fn clone_is_equal_to_the_original() {
    for dtype in samples() {
        assert_eq!(dtype.clone(), dtype);
        let field = Field::new("f", dtype);
        assert_eq!(field.clone(), field);
    }
    let fields = vec![Field::new("a", DataType::Int8), Field::new("b", DataType::Utf8)];
    assert_eq!(clone_fields(&fields), fields);
    assert_eq!(clone_time_zone(&Some("UTC".to_string())), Some("UTC".to_string()));
    assert_eq!(clone_time_zone(&None), None);
}

#[test]
fn same_as_agrees_with_equality() {
    let all = samples();
    for (i, a) in all.iter().enumerate() {
        for (j, b) in all.iter().enumerate() {
            assert_eq!(a.same_as(b), i == j);
        }
    }
    assert!(!DataType::Array(Box::new(DataType::Int8), 2)
        .same_as(&DataType::Array(Box::new(DataType::Int8), 3)));
    assert!(!DataType::Struct(vec![Field::new("a", DataType::Int8)])
        .same_as(&DataType::Struct(vec![Field::new("b", DataType::Int8)])));
    assert!(!DataType::Struct(vec![Field::new("a", DataType::Int8)])
        .same_as(&DataType::Struct(vec![])));
}

#[test]
fn same_helpers_compare_their_arguments() {
    assert!(same_unit(TimeUnit::Nanoseconds, TimeUnit::Nanoseconds));
    assert!(!same_unit(TimeUnit::Nanoseconds, TimeUnit::Microseconds));
    assert!(same_time_zone(&None, &None));
    assert!(same_time_zone(&Some("UTC".to_string()), &Some("UTC".to_string())));
    assert!(!same_time_zone(&Some("UTC".to_string()), &None));
    assert!(!same_time_zone(&Some("UTC".to_string()), &Some("CET".to_string())));
    let a = vec![Field::new("a", DataType::Int8)];
    let b = vec![Field::new("a", DataType::Int16)];
    assert!(same_fields(&a, &a));
    assert!(!same_fields(&a, &b));
}

#[test]
fn inner_dtype_unwraps_lists_and_arrays() {
    assert_eq!(DataType::List(Box::new(DataType::Int8)).inner_dtype(), Some(&DataType::Int8));
    assert_eq!(DataType::Array(Box::new(DataType::Utf8), 3).inner_dtype(), Some(&DataType::Utf8));
    assert_eq!(DataType::Int8.inner_dtype(), None);
    assert_eq!(DataType::Struct(vec![]).inner_dtype(), None);
}

#[test]
fn physical_types() {
    assert_eq!(DataType::Date.to_physical(), DataType::Int32);
    assert_eq!(DataType::Datetime(TimeUnit::Milliseconds, None).to_physical(), DataType::Int64);
    assert_eq!(DataType::Duration(TimeUnit::Nanoseconds).to_physical(), DataType::Int64);
    assert_eq!(DataType::Time.to_physical(), DataType::Int64);
    assert_eq!(DataType::Categorical.to_physical(), DataType::UInt32);
    assert_eq!(DataType::Utf8.to_physical(), DataType::Utf8);
    assert_eq!(
        DataType::List(Box::new(DataType::Date)).to_physical(),
        DataType::List(Box::new(DataType::Int32))
    );
    assert_eq!(
        DataType::Array(Box::new(DataType::Date), 2).to_physical(),
        DataType::Array(Box::new(DataType::Date), 2)
    );
    assert_eq!(
        DataType::Struct(vec![Field::new("t", DataType::Time), Field::new("s", DataType::Utf8)])
            .to_physical(),
        DataType::Struct(vec![Field::new("t", DataType::Int64), Field::new("s", DataType::Utf8)])
    );
    assert_eq!(
        physical_fields(&vec![Field::new("t", DataType::Date)]),
        vec![Field::new("t", DataType::Int32)]
    );
}

#[test]
fn physical_types_agree_with_the_lattice() {
    for dtype in samples() {
        assert_eq!(dtype.to_physical(), from_lattice(&to_lattice(&dtype).to_physical()));
    }
}

#[test]
fn inner_types_agree_with_the_lattice() {
    for dtype in samples() {
        let expected = to_lattice(&dtype).inner_dtype().map(from_lattice);
        assert_eq!(dtype.inner_dtype().cloned(), expected);
    }
}

#[test]
fn numeric_classes_agree_with_the_lattice() {
    for dtype in samples() {
        let lattice = to_lattice(&dtype);
        assert_eq!(dtype.is_float(), lattice.is_float());
        assert_eq!(dtype.is_integer(), lattice.is_integer());
        assert_eq!(dtype.is_signed(), lattice.is_signed());
        assert_eq!(dtype.is_unsigned(), lattice.is_unsigned());
        assert_eq!(dtype.is_numeric(), lattice.is_numeric());
    }
}

#[test]
fn numeric_classes() {
    assert!(DataType::Float32.is_float());
    assert!(!DataType::Int32.is_float());
    assert!(DataType::Int8.is_signed());
    assert!(!DataType::UInt8.is_signed());
    assert!(DataType::UInt64.is_integer());
    assert!(!DataType::Float64.is_integer());
    assert!(DataType::UInt16.is_unsigned());
    assert!(DataType::Float64.is_unsigned());
    assert!(!DataType::Int16.is_unsigned());
    assert!(!DataType::Utf8.is_unsigned());
    assert!(DataType::Float64.is_numeric());
    assert!(!DataType::Boolean.is_numeric());
}
