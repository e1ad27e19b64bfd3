//! The temporal operators and their type rules.

use crate::datatypes::{
    clone_time_zone, time_zone_view, DataType, Field, SpecDataType, SpecField, TimeUnit,
};
use crate::error::{ResolveError, SpecResolveError};
use crate::mapper::{
    datetime_timezone_rule, fixed_rule, resolved_view, same_rule, FieldsMapper, Resolved,
    SpecResolved,
};
use vstd::prelude::*;
use vstd::string::StringExecFns;

verus! {

/// An operator on dates, times, datetimes and durations.
#[derive(Clone, Debug, PartialEq, Eq)]
pub enum TemporalFunction {
    Year,
    IsoYear,
    Month,
    Quarter,
    Week,
    WeekDay,
    Day,
    OrdinalDay,
    Hour,
    Minute,
    Millisecond,
    Microsecond,
    Nanosecond,
    Second,
    /// The number of the given units since the epoch.
    TimeStamp(TimeUnit),
    IsLeapYear,
    Time,
    Date,
    /// The datetime without its time zone.
    Datetime,
    Truncate,
    MonthStart,
    MonthEnd,
    BaseUtcOffset,
    DSTOffset,
    Round,
    /// The same datetime in another time zone, or in none.
    ReplaceTimeZone(Option<String>),
    /// A datetime built from its parts.
    DatetimeFunction { time_unit: TimeUnit, time_zone: Option<String> },
    /// A date or datetime combined with a time, in the given unit.
    Combine(TimeUnit),
}

impl TemporalFunction {
    /// Whether the rule of this operator looks at the primary input.
    pub open spec fn reads_primary(&self) -> bool {
        !(self is DatetimeFunction)
    }

    /// Whether the rule of this operator looks at the primary input.
    pub fn needs_primary(&self) -> (r: bool)
        ensures
            r == self.reads_primary(),
    {
        match self {
            TemporalFunction::DatetimeFunction { .. } => false,
            _ => true,
        }
    }

    /// The output field of this operator for the given input fields.
    pub open spec fn rule(&self, fields: Seq<SpecField>) -> SpecResolved {
        let input = fields[0].dtype;
        match self {
            TemporalFunction::Year | TemporalFunction::IsoYear => fixed_rule(
                fields,
                SpecDataType::Int32,
            ),
            TemporalFunction::Month
            | TemporalFunction::Quarter
            | TemporalFunction::Week
            | TemporalFunction::WeekDay
            | TemporalFunction::Day
            | TemporalFunction::OrdinalDay
            | TemporalFunction::Hour
            | TemporalFunction::Minute
            | TemporalFunction::Millisecond
            | TemporalFunction::Microsecond
            | TemporalFunction::Nanosecond
            | TemporalFunction::Second => fixed_rule(fields, SpecDataType::UInt32),
            TemporalFunction::TimeStamp(_) => fixed_rule(fields, SpecDataType::Int64),
            TemporalFunction::IsLeapYear => fixed_rule(fields, SpecDataType::Boolean),
            TemporalFunction::Time => fixed_rule(fields, SpecDataType::Time),
            TemporalFunction::Date => fixed_rule(fields, SpecDataType::Date),
            TemporalFunction::Datetime => match input {
                SpecDataType::Datetime(tu, _) => fixed_rule(
                    fields,
                    SpecDataType::Datetime(tu, None),
                ),
                _ => Err(
                    SpecResolveError::TypeMismatch {
                        op: "datetime"@,
                        got: input,
                        expected: "Datetime"@,
                    },
                ),
            },
            TemporalFunction::Truncate
            | TemporalFunction::MonthStart
            | TemporalFunction::MonthEnd
            | TemporalFunction::Round => same_rule(fields),
            TemporalFunction::BaseUtcOffset | TemporalFunction::DSTOffset => fixed_rule(
                fields,
                SpecDataType::Duration(TimeUnit::Milliseconds),
            ),
            TemporalFunction::ReplaceTimeZone(tz) => datetime_timezone_rule(
                fields,
                time_zone_view(*tz),
            ),
            TemporalFunction::DatetimeFunction { time_unit, time_zone } => Ok(
                SpecField {
                    name: "datetime"@,
                    dtype: SpecDataType::Datetime(*time_unit, time_zone_view(*time_zone)),
                },
            ),
            TemporalFunction::Combine(tu) => match input {
                SpecDataType::Datetime(_, tz) => fixed_rule(
                    fields,
                    SpecDataType::Datetime(*tu, tz),
                ),
                SpecDataType::Date => fixed_rule(fields, SpecDataType::Datetime(*tu, None)),
                _ => Err(
                    SpecResolveError::TypeMismatch {
                        op: "combine"@,
                        got: input,
                        expected: "Date or Datetime"@,
                    },
                ),
            },
        }
    }

    /// Resolves the output field of this operator.
    pub fn get_field(&self, mapper: FieldsMapper) -> (r: Resolved)
        requires
            self.reads_primary() ==> mapper@.len() > 0,
        ensures
            resolved_view(r) == self.rule(mapper@),
    {
        let dtype = match self {
            TemporalFunction::Year | TemporalFunction::IsoYear => DataType::Int32,
            TemporalFunction::Month
            | TemporalFunction::Quarter
            | TemporalFunction::Week
            | TemporalFunction::WeekDay
            | TemporalFunction::Day
            | TemporalFunction::OrdinalDay
            | TemporalFunction::Hour
            | TemporalFunction::Minute
            | TemporalFunction::Millisecond
            | TemporalFunction::Microsecond
            | TemporalFunction::Nanosecond
            | TemporalFunction::Second => DataType::UInt32,
            TemporalFunction::TimeStamp(_) => DataType::Int64,
            TemporalFunction::IsLeapYear => DataType::Boolean,
            TemporalFunction::Time => DataType::Time,
            TemporalFunction::Date => DataType::Date,
            TemporalFunction::Datetime => match &mapper.fields[0].dtype {
                DataType::Datetime(tu, _) => DataType::Datetime(*tu, None),
                dtype => {
                    return Err(
                        ResolveError::TypeMismatch {
                            op: String::from_str("datetime"),
                            got: dtype.clone(),
                            expected: String::from_str("Datetime"),
                        },
                    );
                },
            },
            TemporalFunction::Truncate
            | TemporalFunction::MonthStart
            | TemporalFunction::MonthEnd
            | TemporalFunction::Round => {
                return mapper.with_same_dtype();
            },
            TemporalFunction::BaseUtcOffset | TemporalFunction::DSTOffset => DataType::Duration(
                TimeUnit::Milliseconds,
            ),
            TemporalFunction::ReplaceTimeZone(tz) => {
                return mapper.map_datetime_dtype_timezone(tz.as_ref());
            },
            TemporalFunction::DatetimeFunction { time_unit, time_zone } => {
                return Ok(
                    Field::new(
                        "datetime",
                        DataType::Datetime(*time_unit, clone_time_zone(time_zone)),
                    ),
                );
            },
            TemporalFunction::Combine(tu) => match &mapper.fields[0].dtype {
                DataType::Datetime(_, tz) => DataType::Datetime(*tu, clone_time_zone(tz)),
                DataType::Date => DataType::Datetime(*tu, None),
                dtype => {
                    return Err(
                        ResolveError::TypeMismatch {
                            op: String::from_str("combine"),
                            got: dtype.clone(),
                            expected: String::from_str("Date or Datetime"),
                        },
                    );
                },
            },
        };
        mapper.with_dtype(dtype)
    }
}

} // verus!
