use expr_schema::array::ArrayFunction;
use expr_schema::datatypes::{DataType, Field, TimeUnit};
use expr_schema::error::ResolveError;
use expr_schema::function_expr::{Context, FunctionExpr};
use expr_schema::list::ListFunction;
use expr_schema::plugin::unavailable;
use expr_schema::temporal::TemporalFunction;
use polars_core::schema::Schema;

fn resolve(op: &FunctionExpr, fields: &[Field]) -> Result<Field, ResolveError> {
    op.get_field(&Schema::new(), Context::Default, fields, unavailable)
}

fn list(inner: DataType) -> DataType {
    DataType::List(Box::new(inner))
}

#[test]
fn extract_year_of_datetime_is_int32() {
    let fields = vec![Field::new("ts", DataType::Datetime(TimeUnit::Milliseconds, None))];
    let op = FunctionExpr::TemporalExpr(TemporalFunction::Year);
    assert_eq!(resolve(&op, &fields), Ok(Field::new("ts", DataType::Int32)));
}

#[test]
fn list_concat_takes_the_supertype_of_the_elements() {
    let fields = vec![
        Field::new("a", list(DataType::Int32)),
        Field::new("b", list(DataType::Int64)),
    ];
    let op = FunctionExpr::ListExpr(ListFunction::Concat);
    assert_eq!(resolve(&op, &fields), Ok(Field::new("a", list(DataType::Int64))));
}

#[test]
fn replace_time_zone_refuses_an_integer() {
    let fields = vec![Field::new("a", DataType::Int32)];
    let op = FunctionExpr::TemporalExpr(TemporalFunction::ReplaceTimeZone(Some("UTC".to_string())));
    assert_eq!(
        resolve(&op, &fields),
        Err(ResolveError::TypeMismatch {
            op: "replace-time-zone".to_string(),
            got: DataType::Int32,
            expected: "Datetime".to_string(),
        })
    );
}

#[test]
fn replace_time_zone_rewrites_the_zone_of_a_datetime() {
    let fields = vec![Field::new(
        "ts",
        DataType::Datetime(TimeUnit::Microseconds, Some("Europe/Paris".to_string())),
    )];
    let op = FunctionExpr::TemporalExpr(TemporalFunction::ReplaceTimeZone(Some("UTC".to_string())));
    assert_eq!(
        resolve(&op, &fields),
        Ok(Field::new("ts", DataType::Datetime(TimeUnit::Microseconds, Some("UTC".to_string()))))
    );
    let op = FunctionExpr::TemporalExpr(TemporalFunction::ReplaceTimeZone(None));
    assert_eq!(
        resolve(&op, &fields),
        Ok(Field::new("ts", DataType::Datetime(TimeUnit::Microseconds, None)))
    );
}

#[test]
fn array_unique_gives_a_list_of_the_element_type() {
    let fields = vec![Field::new("a", DataType::Array(Box::new(DataType::Float32), 4))];
    let op = FunctionExpr::ArrayExpr(ArrayFunction::Unique);
    assert_eq!(resolve(&op, &fields), Ok(Field::new("a", list(DataType::Float32))));
}

#[test]
fn array_unique_refuses_a_list() {
    let fields = vec![Field::new("a", list(DataType::Float32))];
    let op = FunctionExpr::ArrayExpr(ArrayFunction::Unique);
    assert_eq!(
        resolve(&op, &fields),
        Err(ResolveError::UnsupportedShape {
            op: "arr.unique".to_string(),
            got: list(DataType::Float32),
        })
    );
}

#[test]
fn run_length_encoding_gives_lengths_and_values() {
    let fields = vec![Field::new("x", DataType::Utf8)];
    let expected = DataType::Struct(vec![
        Field::new("lengths", DataType::UInt64),
        Field::new("values", DataType::Utf8),
    ]);
    assert_eq!(resolve(&FunctionExpr::RLE, &fields), Ok(Field::new("x", expected)));
    assert_eq!(resolve(&FunctionExpr::RLEID, &fields), Ok(Field::new("x", DataType::UInt32)));
}

#[test]
fn shrink_type_narrows_numbers_and_keeps_the_rest() {
    let shrunk = |dtype: DataType| {
        resolve(&FunctionExpr::ShrinkType, &[Field::new("a", dtype)]).map(|f| f.dtype)
    };
    assert_eq!(shrunk(DataType::UInt64), Ok(DataType::Int8));
    assert_eq!(shrunk(DataType::UInt8), Ok(DataType::Int8));
    assert_eq!(shrunk(DataType::Int64), Ok(DataType::UInt8));
    assert_eq!(shrunk(DataType::Int8), Ok(DataType::UInt8));
    assert_eq!(shrunk(DataType::Float64), Ok(DataType::Float32));
    assert_eq!(shrunk(DataType::Float32), Ok(DataType::Float32));
    assert_eq!(shrunk(DataType::Utf8), Ok(DataType::Utf8));
    assert_eq!(shrunk(DataType::Boolean), Ok(DataType::Boolean));
    assert_eq!(shrunk(list(DataType::Int64)), Ok(list(DataType::Int64)));
}
