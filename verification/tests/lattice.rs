use expr_schema::datatypes::{DataType, Field, TimeUnit};
use expr_schema::error::ResolveError;
use expr_schema::lattice::{from_lattice, idx_dtype, to_lattice, to_lattice_fields, try_get_supertype};
use polars_core::datatypes::DataType as Polars;
use polars_core::datatypes::Field as PolarsField;
use polars_core::datatypes::TimeUnit as PolarsUnit;

fn pairs() -> Vec<(DataType, Polars)> {
    vec![
        (DataType::Boolean, Polars::Boolean),
        (DataType::UInt8, Polars::UInt8),
        (DataType::UInt16, Polars::UInt16),
        (DataType::UInt32, Polars::UInt32),
        (DataType::UInt64, Polars::UInt64),
        (DataType::Int8, Polars::Int8),
        (DataType::Int16, Polars::Int16),
        (DataType::Int32, Polars::Int32),
        (DataType::Int64, Polars::Int64),
        (DataType::Float32, Polars::Float32),
        (DataType::Float64, Polars::Float64),
        (DataType::Utf8, Polars::Utf8),
        (DataType::Binary, Polars::Binary),
        (DataType::Date, Polars::Date),
        (DataType::Time, Polars::Time),
        (DataType::Null, Polars::Null),
        (DataType::Categorical, Polars::Categorical(None)),
        (DataType::Unknown, Polars::Unknown),
        (
            DataType::Datetime(TimeUnit::Nanoseconds, None),
            Polars::Datetime(PolarsUnit::Nanoseconds, None),
        ),
        (
            DataType::Datetime(TimeUnit::Microseconds, Some("UTC".to_string())),
            Polars::Datetime(PolarsUnit::Microseconds, Some("UTC".to_string())),
        ),
        (
            DataType::Datetime(TimeUnit::Milliseconds, Some("Asia/Tokyo".to_string())),
            Polars::Datetime(PolarsUnit::Milliseconds, Some("Asia/Tokyo".to_string())),
        ),
        (DataType::Duration(TimeUnit::Nanoseconds), Polars::Duration(PolarsUnit::Nanoseconds)),
        (DataType::Duration(TimeUnit::Microseconds), Polars::Duration(PolarsUnit::Microseconds)),
        (DataType::Duration(TimeUnit::Milliseconds), Polars::Duration(PolarsUnit::Milliseconds)),
        (DataType::List(Box::new(DataType::Int16)), Polars::List(Box::new(Polars::Int16))),
        (
            DataType::List(Box::new(DataType::List(Box::new(DataType::Utf8)))),
            Polars::List(Box::new(Polars::List(Box::new(Polars::Utf8)))),
        ),
        (DataType::Array(Box::new(DataType::Float32), 4), Polars::Array(Box::new(Polars::Float32), 4)),
        (DataType::Array(Box::new(DataType::Float32), 0), Polars::Array(Box::new(Polars::Float32), 0)),
        (DataType::Struct(vec![]), Polars::Struct(vec![])),
        (
            DataType::Struct(vec![
                Field::new("a", DataType::Int8),
                Field::new("b", DataType::List(Box::new(DataType::Date))),
                Field::new("c", DataType::Struct(vec![Field::new("d", DataType::Time)])),
            ]),
            Polars::Struct(vec![
                PolarsField::new("a", Polars::Int8),
                PolarsField::new("b", Polars::List(Box::new(Polars::Date))),
                PolarsField::new("c", Polars::Struct(vec![PolarsField::new("d", Polars::Time)])),
            ]),
        ),
    ]
}

#[test]
fn to_lattice_gives_the_variant_of_the_same_name() {
    for (own, polars) in pairs() {
        assert_eq!(to_lattice(&own), polars);
    }
}

#[test]
fn to_lattice_tells_widths_and_zones_apart() {
    assert_ne!(
        to_lattice(&DataType::Array(Box::new(DataType::Int8), 3)),
        Polars::Array(Box::new(Polars::Int8), 4)
    );
    assert_ne!(
        to_lattice(&DataType::Datetime(TimeUnit::Milliseconds, Some("UTC".to_string()))),
        Polars::Datetime(PolarsUnit::Milliseconds, None)
    );
    assert_ne!(
        to_lattice(&DataType::Duration(TimeUnit::Milliseconds)),
        Polars::Duration(PolarsUnit::Microseconds)
    );
}

#[test]
fn from_lattice_gives_the_variant_of_the_same_name() {
    for (own, polars) in pairs() {
        assert_eq!(from_lattice(&polars), own);
    }
}

#[test]
fn conversion_round_trips() {
    for (own, _) in pairs() {
        assert_eq!(from_lattice(&to_lattice(&own)), own);
    }
}

#[test]
fn to_lattice_fields_keeps_names_types_and_order() {
    let fields = vec![Field::new("x", DataType::Int64), Field::new("y", DataType::Utf8)];
    assert_eq!(
        to_lattice_fields(&fields),
        vec![PolarsField::new("x", Polars::Int64), PolarsField::new("y", Polars::Utf8)]
    );
    assert_eq!(to_lattice_fields(&vec![]), Vec::<PolarsField>::new());
}

#[test]
fn index_type_is_unsigned_32_bits() {
    assert_eq!(idx_dtype(), DataType::UInt32);
}

#[test]
fn supertype_of_integers_is_the_wider_one() {
    assert_eq!(try_get_supertype(&DataType::Int32, &DataType::Int64), Ok(DataType::Int64));
    assert_eq!(try_get_supertype(&DataType::Int8, &DataType::UInt8), Ok(DataType::Int16));
    assert_eq!(try_get_supertype(&DataType::Int64, &DataType::UInt64), Ok(DataType::Float64));
    assert_eq!(try_get_supertype(&DataType::Int32, &DataType::Float32), Ok(DataType::Float64));
    assert_eq!(try_get_supertype(&DataType::Int32, &DataType::Utf8), Ok(DataType::Utf8));
}

#[test]
fn supertype_is_commutative_on_these_pairs() {
    let types = vec![
        DataType::Boolean,
        DataType::UInt8,
        DataType::UInt16,
        DataType::UInt32,
        DataType::UInt64,
        DataType::Int8,
        DataType::Int16,
        DataType::Int32,
        DataType::Int64,
        DataType::Float32,
        DataType::Float64,
        DataType::Date,
        DataType::Time,
        DataType::Duration(TimeUnit::Milliseconds),
        DataType::Datetime(TimeUnit::Microseconds, None),
    ];
    for a in &types {
        for b in &types {
            let ab = try_get_supertype(a, b);
            let ba = try_get_supertype(b, a);
            if let (Ok(ab), Ok(ba)) = (ab, ba) {
                assert_eq!(ab, ba);
            }
        }
    }
}

#[test]
fn supertype_depends_on_the_order_for_a_list_and_a_string() {
    let list = DataType::List(Box::new(DataType::Int32));
    assert_eq!(try_get_supertype(&list, &DataType::Utf8), Ok(DataType::Utf8));
    assert_eq!(
        try_get_supertype(&DataType::Utf8, &list),
        Ok(DataType::List(Box::new(DataType::Utf8)))
    );
}

#[test]
fn supertype_of_a_type_and_itself_is_the_type() {
    for (own, _) in pairs() {
        assert_eq!(try_get_supertype(&own, &own), Ok(own.clone()));
    }
}

#[test]
fn supertype_of_nested_types() {
    let list_i32 = DataType::List(Box::new(DataType::Int32));
    let list_i64 = DataType::List(Box::new(DataType::Int64));
    assert_eq!(try_get_supertype(&list_i32, &list_i64), Ok(list_i64.clone()));
    assert_eq!(try_get_supertype(&list_i32, &DataType::Int64), Ok(list_i64));
    let a = DataType::Struct(vec![Field::new("a", DataType::Int8)]);
    let b = DataType::Struct(vec![Field::new("a", DataType::Int32)]);
    assert_eq!(try_get_supertype(&a, &b), Ok(b.clone()));
}

#[test]
fn supertype_of_datetimes_takes_the_coarser_unit() {
    let ns = DataType::Datetime(TimeUnit::Nanoseconds, None);
    let ms = DataType::Datetime(TimeUnit::Milliseconds, None);
    assert_eq!(try_get_supertype(&ns, &ms), Ok(ms));
}

#[test]
fn types_without_a_supertype_are_named_in_the_failure() {
    assert_eq!(
        try_get_supertype(&DataType::Boolean, &DataType::Date),
        Err(ResolveError::NoCommonSupertype { left: DataType::Boolean, right: DataType::Date })
    );
    let zoned = DataType::Datetime(TimeUnit::Milliseconds, Some("UTC".to_string()));
    let naive = DataType::Datetime(TimeUnit::Milliseconds, None);
    assert_eq!(
        try_get_supertype(&zoned, &naive),
        Err(ResolveError::NoCommonSupertype { left: zoned.clone(), right: naive.clone() })
    );
}
