use vstd::prelude::*;
use vstd::string::*;

use crate::error::{is_property_error, policy_py_error, NativeError};
use crate::text::{ascii_lowercase, spec_ascii_lowercase, str_eq};
use crate::value::{DateTimeParts, Number, PublicType, PyValue, Timedelta, UtcOffset};

verus! {

/// Custom-ellipse cross-section geometry model.
#[derive(Clone, Copy, Debug, PartialEq, Eq, Structural)]
pub enum CustomEllipseModel {
    EpaLegacy,
    TrueEllipse,
}

/// Surcharge treatment of closed conduits.
#[derive(Clone, Copy, Debug, PartialEq, Eq, Structural)]
pub enum SurchargeMethodType {
    Extran,
    Slot,
}

/// Inertial damping of dynamic-wave routing.
#[derive(Clone, Copy, Debug, PartialEq, Eq, Structural)]
pub enum InertialDampingType {
    NoDamping,
    PartialDamping,
    FullDamping,
}

/// Normal-flow limitation criterion.
#[derive(Clone, Copy, Debug, PartialEq, Eq, Structural)]
pub enum NormalFlowType {
    Slope,
    Froude,
    Both,
    Neither,
}

/// A sparse simulation-schedule update.
#[derive(Clone, Copy, Debug)]
pub struct SimulationSchedulePatch {
    pub start_time: Option<DateTimeParts>,
    pub report_start: Option<DateTimeParts>,
    pub end_time: Option<DateTimeParts>,
}

/// A sparse simulation-options update; durations stay in their `timedelta` components and
/// numbers in the form they were given.
#[derive(Clone, Copy, Debug)]
pub struct SimulationOptionsPatch {
    pub routing_step_seconds: Option<Timedelta>,
    pub report_step_seconds: Option<i32>,
    pub detailed_reporting_enabled: Option<bool>,
    pub custom_ellipse_model: Option<CustomEllipseModel>,
    pub surcharge_method: Option<SurchargeMethodType>,
    pub allow_ponding: Option<bool>,
    pub inertia_damping: Option<InertialDampingType>,
    pub normal_flow_limit: Option<NormalFlowType>,
    pub skip_steady_state: Option<bool>,
    pub rainfall_enabled: Option<bool>,
    pub rdii_enabled: Option<bool>,
    pub snowmelt_enabled: Option<bool>,
    pub groundwater_enabled: Option<bool>,
    pub routing_enabled: Option<bool>,
    pub quality_enabled: Option<bool>,
    pub rule_step_seconds: Option<i32>,
    pub sweep_start: Option<i32>,
    pub sweep_end: Option<i32>,
    pub maximum_trials: Option<i32>,
    pub requested_threads: Option<i32>,
    pub minimum_routing_step_seconds: Option<Timedelta>,
    pub lengthening_step_seconds: Option<Timedelta>,
    pub antecedent_dry_seconds: Option<Timedelta>,
    pub courant_factor: Option<Number>,
    pub minimum_surface_area: Option<Number>,
    pub minimum_conduit_slope: Option<Number>,
}

/// True when `result` carries `spec`: the same value, or a property failure of `operation`
/// whose detail is the spec's.
pub open spec fn spec_policy_outcome<X>(
    result: Result<X, NativeError>,
    spec: Result<X, Seq<char>>,
    operation: &'static str,
) -> bool {
    match spec {
        Ok(x) => result == Ok::<X, NativeError>(x),
        Err(detail) => result is Err && is_property_error(
            result->Err_0,
            operation,
            crate::error::ErrorCode::ApiPropertyValue,
            detail,
        ),
    }
}

/// Builds the detail `name` followed by `suffix`.
fn named(name: &str, suffix: &str) -> (detail: String)
    ensures
        detail@ == name@ + suffix@,
{
    String::from_str(name).concat(suffix)
}

/// A strict Python `bool`.
pub open spec fn spec_option_bool(value: PyValue, name: Seq<char>) -> Result<bool, Seq<char>> {
    match value {
        PyValue::Bool(b) => Ok(b),
        _ => Err(name + " must be bool"@),
    }
}

/// Extracts one strict Python boolean.
pub fn option_bool(value: &PyValue, name: &str) -> (result: Result<bool, NativeError>)
    ensures
        spec_policy_outcome(result, spec_option_bool(*value, name@), "update_options"),
{
    match value {
        PyValue::Bool(b) => Ok(*b),
        _ => Err(policy_py_error("update_options", named(name, " must be bool"))),
    }
}

/// A strict non-boolean Python `int` within the native 32-bit range.
pub open spec fn spec_option_integer(value: PyValue, name: Seq<char>) -> Result<i32, Seq<char>> {
    match value {
        PyValue::Int(i) => if i32::MIN <= i && i <= i32::MAX {
            Ok(i as i32)
        } else {
            Err(name + " is outside native integer range"@)
        },
        PyValue::BigInt { .. } => Err(name + " is outside native integer range"@),
        _ => Err(name + " must be int"@),
    }
}

/// Extracts one strict Python integer within native range.
pub fn option_integer(value: &PyValue, name: &str) -> (result: Result<i32, NativeError>)
    ensures
        spec_policy_outcome(result, spec_option_integer(*value, name@), "update_options"),
{
    match value {
        PyValue::Int(i) => {
            if i32::MIN as i128 <= *i && *i <= i32::MAX as i128 {
                Ok(*i as i32)
            } else {
                Err(policy_py_error("update_options", named(name, " is outside native integer range")))
            }
        },
        PyValue::BigInt { .. } => Err(
            policy_py_error("update_options", named(name, " is outside native integer range")),
        ),
        _ => Err(policy_py_error("update_options", named(name, " must be int"))),
    }
}

/// A strict non-boolean Python number.
pub open spec fn spec_option_float(value: PyValue, name: Seq<char>) -> Result<Number, Seq<char>> {
    match value {
        PyValue::Int(i) => Ok(Number::Int(i)),
        PyValue::Float(bits) => Ok(Number::Float(bits)),
        PyValue::BigInt { float_bits } => match float_bits {
            Some(bits) => Ok(Number::Float(bits)),
            None => Err(name + " must be finite numeric"@),
        },
        _ => Err(name + " must be int or float, not bool"@),
    }
}

/// Extracts one strict non-boolean Python number.
pub fn option_float(value: &PyValue, name: &str) -> (result: Result<Number, NativeError>)
    ensures
        spec_policy_outcome(result, spec_option_float(*value, name@), "update_options"),
{
    match value {
        PyValue::Int(i) => Ok(Number::Int(*i)),
        PyValue::Float(bits) => Ok(Number::Float(*bits)),
        PyValue::BigInt { float_bits } => match float_bits {
            Some(bits) => Ok(Number::Float(*bits)),
            None => Err(policy_py_error("update_options", named(name, " must be finite numeric"))),
        },
        _ => Err(policy_py_error("update_options", named(name, " must be int or float, not bool"))),
    }
}

/// An exact Python `timedelta`, whole seconds only when `whole_seconds`.
pub open spec fn spec_option_duration(
    value: PyValue,
    name: Seq<char>,
    whole_seconds: bool,
) -> Result<Timedelta, Seq<char>> {
    match value {
        PyValue::Timedelta { days, seconds, microseconds } => if whole_seconds && microseconds
            != 0 {
            Err(name + " must use whole seconds"@)
        } else {
            Ok(Timedelta { days, seconds, microseconds })
        },
        _ => Err(name + " must be timedelta"@),
    }
}

/// Extracts one exact Python `timedelta`.
pub fn option_duration(value: &PyValue, name: &str, whole_seconds: bool) -> (result: Result<
    Timedelta,
    NativeError,
>)
    ensures
        spec_policy_outcome(
            result,
            spec_option_duration(*value, name@, whole_seconds),
            "update_options",
        ),
{
    match value {
        PyValue::Timedelta { days, seconds, microseconds } => {
            if whole_seconds && *microseconds != 0 {
                Err(policy_py_error("update_options", named(name, " must use whole seconds")))
            } else {
                Ok(Timedelta { days: *days, seconds: *seconds, microseconds: *microseconds })
            }
        },
        _ => Err(policy_py_error("update_options", named(name, " must be timedelta"))),
    }
}

/// The whole seconds of a duration as a native step: durations above the 32-bit range are
/// refused, and those below it saturate to its minimum.
pub open spec fn spec_step_seconds(duration: Timedelta, name: Seq<char>) -> Result<i32, Seq<char>> {
    let total = duration.days * 86400 + duration.seconds;
    if total > i32::MAX {
        Err(name + " exceeds native integer range"@)
    } else if total < i32::MIN {
        Ok(i32::MIN)
    } else {
        Ok(total as i32)
    }
}

/// Converts a whole-second duration to a native step.
pub fn step_seconds(duration: Timedelta, name: &str) -> (result: Result<i32, NativeError>)
    ensures
        spec_policy_outcome(result, spec_step_seconds(duration, name@), "update_options"),
{
    let total = duration.days as i128 * 86400 + duration.seconds as i128;
    if total > i32::MAX as i128 {
        Err(policy_py_error("update_options", named(name, " exceeds native integer range")))
    } else if total < i32::MIN as i128 {
        Ok(i32::MIN)
    } else {
        Ok(total as i32)
    }
}

/// The class name of an exported public type, as used in validation messages.
pub open spec fn spec_public_type_name(kind: PublicType) -> Seq<char> {
    match kind {
        PublicType::DateTime => "datetime"@,
        PublicType::Timedelta => "timedelta"@,
        PublicType::Int => "int"@,
        PublicType::Float => "float"@,
        PublicType::Str => "str"@,
        PublicType::Tuple => "tuple"@,
        PublicType::CustomEllipseModel => "CustomEllipseModel"@,
        PublicType::SurchargeMethod => "SurchargeMethod"@,
        PublicType::InertiaDamping => "InertiaDamping"@,
        PublicType::NormalFlowLimit => "NormalFlowLimit"@,
        PublicType::OrificeKind => "OrificeKind"@,
        PublicType::WeirKind => "WeirKind"@,
        PublicType::RoadSurface => "RoadSurface"@,
        PublicType::OutletHeadBasis => "OutletHeadBasis"@,
        PublicType::StandardCrossSectionShape => "StandardCrossSectionShape"@,
        PublicType::CircularCrossSection => "CircularCrossSection"@,
        PublicType::StandardCrossSection => "StandardCrossSection"@,
        PublicType::CustomCrossSection => "CustomCrossSection"@,
        PublicType::IrregularCrossSection => "IrregularCrossSection"@,
        PublicType::StreetCrossSection => "StreetCrossSection"@,
        PublicType::FunctionalOutletRating => "FunctionalOutletRating"@,
        PublicType::TabularOutletRating => "TabularOutletRating"@,
        PublicType::StorageShape => "StorageShape"@,
        PublicType::StorageExfiltration => "StorageExfiltration"@,
        PublicType::OutfallBoundary => "OutfallBoundary"@,
        PublicType::DividerRule => "DividerRule"@,
    }
}

/// Returns the class name of an exported public type.
pub fn public_type_name(kind: PublicType) -> (name: &'static str)
    ensures
        name@ == spec_public_type_name(kind),
{
    match kind {
        PublicType::DateTime => "datetime",
        PublicType::Timedelta => "timedelta",
        PublicType::Int => "int",
        PublicType::Float => "float",
        PublicType::Str => "str",
        PublicType::Tuple => "tuple",
        PublicType::CustomEllipseModel => "CustomEllipseModel",
        PublicType::SurchargeMethod => "SurchargeMethod",
        PublicType::InertiaDamping => "InertiaDamping",
        PublicType::NormalFlowLimit => "NormalFlowLimit",
        PublicType::OrificeKind => "OrificeKind",
        PublicType::WeirKind => "WeirKind",
        PublicType::RoadSurface => "RoadSurface",
        PublicType::OutletHeadBasis => "OutletHeadBasis",
        PublicType::StandardCrossSectionShape => "StandardCrossSectionShape",
        PublicType::CircularCrossSection => "CircularCrossSection",
        PublicType::StandardCrossSection => "StandardCrossSection",
        PublicType::CustomCrossSection => "CustomCrossSection",
        PublicType::IrregularCrossSection => "IrregularCrossSection",
        PublicType::StreetCrossSection => "StreetCrossSection",
        PublicType::FunctionalOutletRating => "FunctionalOutletRating",
        PublicType::TabularOutletRating => "TabularOutletRating",
        PublicType::StorageShape => "StorageShape",
        PublicType::StorageExfiltration => "StorageExfiltration",
        PublicType::OutfallBoundary => "OutfallBoundary",
        PublicType::DividerRule => "DividerRule",
    }
}

/// A member of the exact exported enum `enum_type`, or a string, as a lowercase categorical value.
pub open spec fn spec_option_enum(
    value: PyValue,
    name: Seq<char>,
    enum_type: PublicType,
) -> Result<Seq<char>, Seq<char>> {
    match value {
        PyValue::Enum { class, value: v } => if class == enum_type {
            Ok(spec_ascii_lowercase(v@))
        } else {
            Err(name + " must be "@ + spec_public_type_name(enum_type) + " or string"@)
        },
        PyValue::Str(s) => Ok(spec_ascii_lowercase(s@)),
        _ => Err(name + " must be "@ + spec_public_type_name(enum_type) + " or string"@),
    }
}

/// Extracts one exact public enum member or case-insensitive string value.
pub fn option_enum(value: &PyValue, name: &str, enum_type: PublicType) -> (result: Result<
    String,
    NativeError,
>)
    ensures
        match spec_option_enum(*value, name@, enum_type) {
            Ok(v) => result is Ok && result->Ok_0@ == v,
            Err(d) => result is Err && is_property_error(
                result->Err_0,
                "update_options",
                crate::error::ErrorCode::ApiPropertyValue,
                d,
            ),
        },
{
    match value {
        PyValue::Enum { class, value: v } => {
            if *class == enum_type {
                return Ok(ascii_lowercase(v.as_str()));
            }
        },
        PyValue::Str(s) => {
            return Ok(ascii_lowercase(s.as_str()));
        },
        _ => {},
    }
    let detail = String::from_str(name).concat(" must be ").concat(public_type_name(enum_type)).concat(
        " or string",
    );
    Err(policy_py_error("update_options", detail))
}

/// Days in each month of a non-leap year.
pub open spec fn spec_month_days(month: int) -> int {
    if month == 2 {
        28
    } else if month == 4 || month == 6 || month == 9 || month == 11 {
        30
    } else {
        31
    }
}

/// Days of a non-leap year before the first of `month`.
pub open spec fn spec_days_before(month: int) -> int
    decreases month,
{
    if month <= 1 {
        0
    } else {
        spec_days_before(month - 1) + spec_month_days(month - 1)
    }
}

/// The non-leap day of year of a `(month, day)` tuple of integers.
pub open spec fn spec_option_sweep_day(value: PyValue, name: Seq<char>) -> Result<i32, Seq<char>> {
    match value {
        PyValue::Tuple(items) => if items@.len() != 2 {
            Err(name + " must be a (month, day) integer tuple"@)
        } else {
            match spec_option_integer(items@[0], name) {
                Err(d) => Err(d),
                Ok(month) => match spec_option_integer(items@[1], name) {
                    Err(d) => Err(d),
                    Ok(day) => if 1 <= month && month <= 12 && 1 <= day && day
                        <= spec_month_days(month as int) {
                        Ok((spec_days_before(month as int) + day) as i32)
                    } else {
                        Err(name + " must be a non-leap calendar date"@)
                    },
                },
            }
        },
        _ => Err(name + " must be a (month, day) integer tuple"@),
    }
}

/// The lengths of the months of a non-leap year, January first.
pub open spec fn spec_calendar_month_lengths() -> Seq<int> {
    seq![31, 28, 31, 30, 31, 30, 31, 31, 30, 31, 30, 31]
}

/// The days of a non-leap year before the first of each month, January first.
pub open spec fn spec_calendar_days_before() -> Seq<int> {
    seq![0, 31, 59, 90, 120, 151, 181, 212, 243, 273, 304, 334]
}

/// The calendar of a non-leap year: each month's days before it are the lengths of the months
/// before it added up, and the year has 365 days.
pub proof fn lemma_non_leap_calendar()
    ensures
        spec_calendar_days_before()[0] == 0,
        forall|m: int| 0 <= m < 11 ==> #[trigger] spec_calendar_days_before()[m + 1]
            == spec_calendar_days_before()[m] + spec_calendar_month_lengths()[m],
        spec_calendar_days_before()[11] + spec_calendar_month_lengths()[11] == 365,
{
    assert forall|m: int| 0 <= m < 11 implies #[trigger] spec_calendar_days_before()[m + 1]
        == spec_calendar_days_before()[m] + spec_calendar_month_lengths()[m] by {
        if m == 0 {} else if m == 1 {} else if m == 2 {} else if m == 3 {} else if m == 4 {}
        else if m == 5 {} else if m == 6 {} else if m == 7 {} else if m == 8 {} else if m == 9 {}
        else {}
    }
}

/// A sweep day given as a `(month, day)` tuple of integers is accepted exactly when it is a date
/// of a non-leap year, and then it is that date's day of the year: the lengths of the months
/// before the month added up, plus the day.
pub proof fn lemma_sweep_day_is_day_of_year(items: Vec<PyValue>, month: i128, day: i128, name: Seq<char>)
    requires
        items@ == seq![PyValue::Int(month), PyValue::Int(day)],
    ensures
        spec_option_sweep_day(PyValue::Tuple(items), name) is Ok <==> (1 <= month <= 12 && 1 <= day
            <= spec_calendar_month_lengths()[month - 1]),
        spec_option_sweep_day(PyValue::Tuple(items), name) is Ok ==> spec_option_sweep_day(
            PyValue::Tuple(items),
            name,
        )->Ok_0 == spec_calendar_days_before()[month - 1] + day,
{
    reveal_with_fuel(spec_days_before, 13);
    assert(items@[0] == PyValue::Int(month));
    assert(items@[1] == PyValue::Int(day));
    if 1 <= month <= 12 {
        let m = month as int;
        assert(spec_month_days(m) == spec_calendar_month_lengths()[m - 1]) by {
            if m == 1 {} else if m == 2 {} else if m == 3 {} else if m == 4 {} else if m == 5 {}
            else if m == 6 {} else if m == 7 {} else if m == 8 {} else if m == 9 {} else if m == 10 {}
            else if m == 11 {} else {}
        }
        assert(spec_days_before(m) == spec_calendar_days_before()[m - 1]) by {
            if m == 1 {} else if m == 2 {} else if m == 3 {} else if m == 4 {} else if m == 5 {}
            else if m == 6 {} else if m == 7 {} else if m == 8 {} else if m == 9 {} else if m == 10 {}
            else if m == 11 {} else {}
        }
    }
}

/// Returns the days in `month` of a non-leap year.
fn month_days(month: i32) -> (days: i32)
    requires
        1 <= month <= 12,
    ensures
        days == spec_month_days(month as int),
{
    if month == 2 {
        28
    } else if month == 4 || month == 6 || month == 9 || month == 11 {
        30
    } else {
        31
    }
}

/// Converts an exact non-leap `(month, day)` tuple to its day of year.
pub fn option_sweep_day(value: &PyValue, name: &str) -> (result: Result<i32, NativeError>)
    ensures
        spec_policy_outcome(result, spec_option_sweep_day(*value, name@), "update_options"),
{
    let items = match value {
        PyValue::Tuple(items) => items,
        _ => {
            return Err(
                policy_py_error("update_options", named(name, " must be a (month, day) integer tuple")),
            );
        },
    };
    if items.len() != 2 {
        return Err(
            policy_py_error("update_options", named(name, " must be a (month, day) integer tuple")),
        );
    }
    let month = match option_integer(&items[0], name) {
        Ok(month) => month,
        Err(error) => {
            return Err(error);
        },
    };
    let day = match option_integer(&items[1], name) {
        Ok(day) => day,
        Err(error) => {
            return Err(error);
        },
    };
    if month < 1 || month > 12 || day < 1 || day > month_days(month) {
        return Err(
            policy_py_error("update_options", named(name, " must be a non-leap calendar date")),
        );
    }
    let mut before: i32 = 0;
    let mut m: i32 = 1;
    while m < month
        invariant
            1 <= m <= month <= 12,
            before == spec_days_before(m as int),
            0 <= before <= 334,
        decreases month - m,
    {
        proof {
            assert(spec_days_before(m as int + 1) == spec_days_before(m as int) + spec_month_days(
                m as int,
            ));
            lemma_days_before_bound(m as int + 1);
        }
        before = before + month_days(m);
        m = m + 1;
    }
    Ok(before + day)
}

/// Days before any month of a non-leap year are at most 334.
pub proof fn lemma_days_before_bound(month: int)
    requires
        month <= 12,
    ensures
        0 <= spec_days_before(month) <= 334,
        month >= 1 ==> spec_days_before(month) + spec_month_days(month) <= 365,
    decreases month,
{
    if month > 1 {
        lemma_days_before_bound(month - 1);
        reveal_with_fuel(spec_days_before, 12);
    } else {
        reveal_with_fuel(spec_days_before, 2);
    }
    reveal_with_fuel(spec_days_before, 13);
}

/// An exact timezone-naive whole-second Python `datetime`.
pub open spec fn spec_schedule_datetime(value: PyValue, name: Seq<char>) -> Result<
    DateTimeParts,
    Seq<char>,
> {
    match value {
        PyValue::DateTime { offset, year, month, day, hour, minute, second, microsecond } => {
            if offset == UtcOffset::Invalid {
                Err(name + " has invalid timezone information"@)
            } else if offset == UtcOffset::Aware {
                Err(name + " must be timezone-naive"@)
            } else if microsecond != 0 {
                Err(name + " must use whole-second resolution"@)
            } else {
                Ok(DateTimeParts { year, month, day, hour, minute, second })
            }
        },
        _ => Err(name + " must be datetime"@),
    }
}

/// Extracts one exact timezone-naive whole-second Python `datetime`.
pub fn schedule_datetime(value: &PyValue, name: &str) -> (result: Result<DateTimeParts, NativeError>)
    ensures
        spec_policy_outcome(result, spec_schedule_datetime(*value, name@), "update_schedule"),
{
    match value {
        PyValue::DateTime { offset, year, month, day, hour, minute, second, microsecond } => {
            if *offset == UtcOffset::Invalid {
                Err(policy_py_error("update_schedule", named(name, " has invalid timezone information")))
            } else if *offset == UtcOffset::Aware {
                Err(policy_py_error("update_schedule", named(name, " must be timezone-naive")))
            } else if *microsecond != 0 {
                Err(policy_py_error("update_schedule", named(name, " must use whole-second resolution")))
            } else {
                Ok(
                    DateTimeParts {
                        year: *year,
                        month: *month,
                        day: *day,
                        hour: *hour,
                        minute: *minute,
                        second: *second,
                    },
                )
            }
        },
        _ => Err(policy_py_error("update_schedule", named(name, " must be datetime"))),
    }
}

/// The empty schedule patch.
pub open spec fn spec_empty_schedule_patch() -> SimulationSchedulePatch {
    SimulationSchedulePatch { start_time: None, report_start: None, end_time: None }
}

/// The schedule patch after applying one named field.
pub open spec fn spec_apply_schedule(
    patch: SimulationSchedulePatch,
    key: Option<String>,
    value: PyValue,
) -> Result<SimulationSchedulePatch, Seq<char>> {
    match key {
        None => Err("schedule fields must be strings"@),
        Some(k) => {
            let name = k@;
            if name == "start_time"@ || name == "report_start"@ || name == "end_time"@ {
                match spec_schedule_datetime(value, name) {
                    Err(d) => Err(d),
                    Ok(t) => Ok(
                        if name == "start_time"@ {
                            SimulationSchedulePatch { start_time: Some(t), ..patch }
                        } else if name == "report_start"@ {
                            SimulationSchedulePatch { report_start: Some(t), ..patch }
                        } else {
                            SimulationSchedulePatch { end_time: Some(t), ..patch }
                        },
                    ),
                }
            } else {
                Err("unknown schedule field: "@ + name)
            }
        },
    }
}

/// Each schedule date lands in its own field of the schedule patch, taking the date read from
/// what was supplied for it, and nothing else changes.
pub proof fn lemma_schedule_dates_land_in_their_fields(patch: SimulationSchedulePatch)
    ensures
        forall|k: String, value: PyValue| k@ == "start_time"@ && spec_schedule_datetime(value, k@) is Ok ==> #[trigger] spec_apply_schedule(patch, Some(k), value) == Ok::<SimulationSchedulePatch, Seq<char>>(SimulationSchedulePatch { start_time: Some(spec_schedule_datetime(value, k@)->Ok_0), ..patch }),
        forall|k: String, value: PyValue| k@ == "report_start"@ && spec_schedule_datetime(value, k@) is Ok ==> #[trigger] spec_apply_schedule(patch, Some(k), value) == Ok::<SimulationSchedulePatch, Seq<char>>(SimulationSchedulePatch { report_start: Some(spec_schedule_datetime(value, k@)->Ok_0), ..patch }),
        forall|k: String, value: PyValue| k@ == "end_time"@ && spec_schedule_datetime(value, k@) is Ok ==> #[trigger] spec_apply_schedule(patch, Some(k), value) == Ok::<SimulationSchedulePatch, Seq<char>>(SimulationSchedulePatch { end_time: Some(spec_schedule_datetime(value, k@)->Ok_0), ..patch }),
{
    assert forall|k: String, value: PyValue| k@ == "start_time"@ && spec_schedule_datetime(value, k@) is Ok implies #[trigger] spec_apply_schedule(patch, Some(k), value) == Ok::<SimulationSchedulePatch, Seq<char>>(SimulationSchedulePatch { start_time: Some(spec_schedule_datetime(value, k@)->Ok_0), ..patch }) by {
        reveal_strlit("start_time");
        reveal_strlit("report_start");
        reveal_strlit("end_time");
        assert("start_time"@.len() != "report_start"@.len());
        assert("start_time"@.len() != "end_time"@.len());
        assert("report_start"@.len() != "end_time"@.len());
    }
    assert forall|k: String, value: PyValue| k@ == "report_start"@ && spec_schedule_datetime(value, k@) is Ok implies #[trigger] spec_apply_schedule(patch, Some(k), value) == Ok::<SimulationSchedulePatch, Seq<char>>(SimulationSchedulePatch { report_start: Some(spec_schedule_datetime(value, k@)->Ok_0), ..patch }) by {
        reveal_strlit("start_time");
        reveal_strlit("report_start");
        reveal_strlit("end_time");
        assert("start_time"@.len() != "report_start"@.len());
        assert("start_time"@.len() != "end_time"@.len());
        assert("report_start"@.len() != "end_time"@.len());
    }
    assert forall|k: String, value: PyValue| k@ == "end_time"@ && spec_schedule_datetime(value, k@) is Ok implies #[trigger] spec_apply_schedule(patch, Some(k), value) == Ok::<SimulationSchedulePatch, Seq<char>>(SimulationSchedulePatch { end_time: Some(spec_schedule_datetime(value, k@)->Ok_0), ..patch }) by {
        reveal_strlit("start_time");
        reveal_strlit("report_start");
        reveal_strlit("end_time");
        assert("start_time"@.len() != "report_start"@.len());
        assert("start_time"@.len() != "end_time"@.len());
        assert("report_start"@.len() != "end_time"@.len());
    }
}

/// The schedule patch after applying the first `n` changes in order, stopping at the first failure.
pub open spec fn spec_schedule_patch(changes: Seq<(Option<String>, PyValue)>, n: int) -> Result<
    SimulationSchedulePatch,
    Seq<char>,
>
    decreases n,
{
    if n <= 0 {
        Ok(spec_empty_schedule_patch())
    } else {
        match spec_schedule_patch(changes, n - 1) {
            Err(d) => Err(d),
            Ok(patch) => spec_apply_schedule(patch, changes[n - 1].0, changes[n - 1].1),
        }
    }
}

/// A failure while applying changes is the failure of the whole patch.
pub proof fn lemma_schedule_patch_failure(changes: Seq<(Option<String>, PyValue)>, i: int, n: int)
    requires
        0 <= i <= n,
        spec_schedule_patch(changes, i) is Err,
    ensures
        spec_schedule_patch(changes, n) == spec_schedule_patch(changes, i),
    decreases n - i,
{
    if n > i {
        lemma_schedule_patch_failure(changes, i, n - 1);
    }
}

/// Applies one raw schedule change to `patch`.
fn apply_schedule(patch: &mut SimulationSchedulePatch, key: &Option<String>, value: &PyValue) -> (result:
    Result<(), NativeError>)
    ensures
        match spec_apply_schedule(*old(patch), *key, *value) {
            Ok(p) => result is Ok && *final(patch) == p,
            Err(d) => result is Err && is_property_error(
                result->Err_0,
                "update_schedule",
                crate::error::ErrorCode::ApiPropertyValue,
                d,
            ),
        },
{
    let name = match key {
        Some(name) => name,
        None => {
            return Err(
                policy_py_error("update_schedule", String::from_str("schedule fields must be strings")),
            );
        },
    };
    if str_eq(name.as_str(), "start_time") {
        match schedule_datetime(value, name.as_str()) {
            Ok(t) => {
                patch.start_time = Some(t);
            },
            Err(error) => {
                return Err(error);
            },
        }
    } else if str_eq(name.as_str(), "report_start") {
        match schedule_datetime(value, name.as_str()) {
            Ok(t) => {
                patch.report_start = Some(t);
            },
            Err(error) => {
                return Err(error);
            },
        }
    } else if str_eq(name.as_str(), "end_time") {
        match schedule_datetime(value, name.as_str()) {
            Ok(t) => {
                patch.end_time = Some(t);
            },
            Err(error) => {
                return Err(error);
            },
        }
    } else {
        let detail = String::from_str("unknown schedule field: ").concat(name.as_str());
        return Err(policy_py_error("update_schedule", detail));
    }
    Ok(())
}

/// Extracts a sparse schedule patch from raw `(field, value)` changes in mapping order.
pub fn extract_schedule_patch(changes: &Vec<(Option<String>, PyValue)>) -> (result: Result<
    SimulationSchedulePatch,
    NativeError,
>)
    ensures
        spec_policy_outcome(
            result,
            spec_schedule_patch(changes@, changes@.len() as int),
            "update_schedule",
        ),
{
    let mut patch = SimulationSchedulePatch { start_time: None, report_start: None, end_time: None };
    let mut i: usize = 0;
    while i < changes.len()
        invariant
            i <= changes@.len(),
            spec_schedule_patch(changes@, i as int) == Ok::<SimulationSchedulePatch, Seq<char>>(patch),
        decreases changes@.len() - i,
    {
        let (key, value) = &changes[i];
        match apply_schedule(&mut patch, key, value) {
            Ok(()) => {},
            Err(error) => {
                proof {
                    lemma_schedule_patch_failure(changes@, i as int + 1, changes@.len() as int);
                }
                return Err(error);
            },
        }
        i = i + 1;
    }
    Ok(patch)
}

/// The CustomEllipseModel named by a lowercase categorical value.
pub open spec fn spec_parse_custom_ellipse_model(value: Seq<char>) -> Option<CustomEllipseModel> {
    if value == "epa_legacy"@ {
        Some(CustomEllipseModel::EpaLegacy)
    } else if value == "true_ellipse"@ {
        Some(CustomEllipseModel::TrueEllipse)
    } else {
        None
    }
}

/// Parses a lowercase categorical value into a CustomEllipseModel.
pub fn parse_custom_ellipse_model(value: &str) -> (parsed: Option<CustomEllipseModel>)
    ensures
        parsed == spec_parse_custom_ellipse_model(value@),
{
    if str_eq(value, "epa_legacy") {
        Some(CustomEllipseModel::EpaLegacy)
    } else if str_eq(value, "true_ellipse") {
        Some(CustomEllipseModel::TrueEllipse)
    } else {
        None
    }
}

/// The SurchargeMethodType named by a lowercase categorical value.
pub open spec fn spec_parse_surcharge_method(value: Seq<char>) -> Option<SurchargeMethodType> {
    if value == "extran"@ {
        Some(SurchargeMethodType::Extran)
    } else if value == "slot"@ {
        Some(SurchargeMethodType::Slot)
    } else {
        None
    }
}

/// Parses a lowercase categorical value into a SurchargeMethodType.
pub fn parse_surcharge_method(value: &str) -> (parsed: Option<SurchargeMethodType>)
    ensures
        parsed == spec_parse_surcharge_method(value@),
{
    if str_eq(value, "extran") {
        Some(SurchargeMethodType::Extran)
    } else if str_eq(value, "slot") {
        Some(SurchargeMethodType::Slot)
    } else {
        None
    }
}

/// The InertialDampingType named by a lowercase categorical value.
pub open spec fn spec_parse_inertia_damping(value: Seq<char>) -> Option<InertialDampingType> {
    if value == "none"@ {
        Some(InertialDampingType::NoDamping)
    } else if value == "partial"@ {
        Some(InertialDampingType::PartialDamping)
    } else if value == "full"@ {
        Some(InertialDampingType::FullDamping)
    } else {
        None
    }
}

/// Parses a lowercase categorical value into a InertialDampingType.
pub fn parse_inertia_damping(value: &str) -> (parsed: Option<InertialDampingType>)
    ensures
        parsed == spec_parse_inertia_damping(value@),
{
    if str_eq(value, "none") {
        Some(InertialDampingType::NoDamping)
    } else if str_eq(value, "partial") {
        Some(InertialDampingType::PartialDamping)
    } else if str_eq(value, "full") {
        Some(InertialDampingType::FullDamping)
    } else {
        None
    }
}

/// The NormalFlowType named by a lowercase categorical value.
pub open spec fn spec_parse_normal_flow_limit(value: Seq<char>) -> Option<NormalFlowType> {
    if value == "slope"@ {
        Some(NormalFlowType::Slope)
    } else if value == "froude"@ {
        Some(NormalFlowType::Froude)
    } else if value == "both"@ {
        Some(NormalFlowType::Both)
    } else if value == "neither"@ {
        Some(NormalFlowType::Neither)
    } else {
        None
    }
}

/// Parses a lowercase categorical value into a NormalFlowType.
pub fn parse_normal_flow_limit(value: &str) -> (parsed: Option<NormalFlowType>)
    ensures
        parsed == spec_parse_normal_flow_limit(value@),
{
    if str_eq(value, "slope") {
        Some(NormalFlowType::Slope)
    } else if str_eq(value, "froude") {
        Some(NormalFlowType::Froude)
    } else if str_eq(value, "both") {
        Some(NormalFlowType::Both)
    } else if str_eq(value, "neither") {
        Some(NormalFlowType::Neither)
    } else {
        None
    }
}

/// The empty options patch.
pub open spec fn spec_empty_options_patch() -> SimulationOptionsPatch {
    SimulationOptionsPatch {
        routing_step_seconds: None,
        report_step_seconds: None,
        detailed_reporting_enabled: None,
        custom_ellipse_model: None,
        surcharge_method: None,
        allow_ponding: None,
        inertia_damping: None,
        normal_flow_limit: None,
        skip_steady_state: None,
        rainfall_enabled: None,
        rdii_enabled: None,
        snowmelt_enabled: None,
        groundwater_enabled: None,
        routing_enabled: None,
        quality_enabled: None,
        rule_step_seconds: None,
        sweep_start: None,
        sweep_end: None,
        maximum_trials: None,
        requested_threads: None,
        minimum_routing_step_seconds: None,
        lengthening_step_seconds: None,
        antecedent_dry_seconds: None,
        courant_factor: None,
        minimum_surface_area: None,
        minimum_conduit_slope: None,
    }
}

/// The options patch after applying one named field.
pub open spec fn spec_apply_option(
    patch: SimulationOptionsPatch,
    key: Option<String>,
    value: PyValue,
) -> Result<SimulationOptionsPatch, Seq<char>> {
    match key {
        None => Err("option fields must be strings"@),
        Some(k) => {
            let name = k@;
            if name == "routing_step"@ {
                match spec_option_duration(value, name, false) { Err(d) => Err(d), Ok(v) => Ok(SimulationOptionsPatch { routing_step_seconds: Some(v), ..patch }) }
            } else if name == "report_step"@ {
                match spec_option_duration(value, name, true) { Err(d) => Err(d), Ok(v) => match spec_step_seconds(v, name) { Err(d) => Err(d), Ok(s) => Ok(SimulationOptionsPatch { report_step_seconds: Some(s), ..patch }) } }
            } else if name == "detailed_reporting_enabled"@ {
                match spec_option_bool(value, name) { Err(d) => Err(d), Ok(v) => Ok(SimulationOptionsPatch { detailed_reporting_enabled: Some(v), ..patch }) }
            } else if name == "custom_ellipse_model"@ {
                match spec_option_enum(value, name, PublicType::CustomEllipseModel) { Err(d) => Err(d), Ok(v) => match spec_parse_custom_ellipse_model(v) { None => Err("custom_ellipse_model is not supported"@), Some(m) => Ok(SimulationOptionsPatch { custom_ellipse_model: Some(m), ..patch }) } }
            } else if name == "surcharge_method"@ {
                match spec_option_enum(value, name, PublicType::SurchargeMethod) { Err(d) => Err(d), Ok(v) => match spec_parse_surcharge_method(v) { None => Err("surcharge_method is not supported"@), Some(m) => Ok(SimulationOptionsPatch { surcharge_method: Some(m), ..patch }) } }
            } else if name == "allow_ponding"@ {
                match spec_option_bool(value, name) { Err(d) => Err(d), Ok(v) => Ok(SimulationOptionsPatch { allow_ponding: Some(v), ..patch }) }
            } else if name == "inertia_damping"@ {
                match spec_option_enum(value, name, PublicType::InertiaDamping) { Err(d) => Err(d), Ok(v) => match spec_parse_inertia_damping(v) { None => Err("inertia_damping is not supported"@), Some(m) => Ok(SimulationOptionsPatch { inertia_damping: Some(m), ..patch }) } }
            } else if name == "normal_flow_limit"@ {
                match spec_option_enum(value, name, PublicType::NormalFlowLimit) { Err(d) => Err(d), Ok(v) => match spec_parse_normal_flow_limit(v) { None => Err("normal_flow_limit is not supported"@), Some(m) => Ok(SimulationOptionsPatch { normal_flow_limit: Some(m), ..patch }) } }
            } else if name == "skip_steady_state"@ {
                match spec_option_bool(value, name) { Err(d) => Err(d), Ok(v) => Ok(SimulationOptionsPatch { skip_steady_state: Some(v), ..patch }) }
            } else if name == "rainfall_enabled"@ {
                match spec_option_bool(value, name) { Err(d) => Err(d), Ok(v) => Ok(SimulationOptionsPatch { rainfall_enabled: Some(v), ..patch }) }
            } else if name == "rdii_enabled"@ {
                match spec_option_bool(value, name) { Err(d) => Err(d), Ok(v) => Ok(SimulationOptionsPatch { rdii_enabled: Some(v), ..patch }) }
            } else if name == "snowmelt_enabled"@ {
                match spec_option_bool(value, name) { Err(d) => Err(d), Ok(v) => Ok(SimulationOptionsPatch { snowmelt_enabled: Some(v), ..patch }) }
            } else if name == "groundwater_enabled"@ {
                match spec_option_bool(value, name) { Err(d) => Err(d), Ok(v) => Ok(SimulationOptionsPatch { groundwater_enabled: Some(v), ..patch }) }
            } else if name == "routing_enabled"@ {
                match spec_option_bool(value, name) { Err(d) => Err(d), Ok(v) => Ok(SimulationOptionsPatch { routing_enabled: Some(v), ..patch }) }
            } else if name == "quality_enabled"@ {
                match spec_option_bool(value, name) { Err(d) => Err(d), Ok(v) => Ok(SimulationOptionsPatch { quality_enabled: Some(v), ..patch }) }
            } else if name == "rule_step"@ {
                match spec_option_duration(value, name, true) { Err(d) => Err(d), Ok(v) => match spec_step_seconds(v, name) { Err(d) => Err(d), Ok(s) => Ok(SimulationOptionsPatch { rule_step_seconds: Some(s), ..patch }) } }
            } else if name == "sweep_start"@ {
                match spec_option_sweep_day(value, name) { Err(d) => Err(d), Ok(v) => Ok(SimulationOptionsPatch { sweep_start: Some(v), ..patch }) }
            } else if name == "sweep_end"@ {
                match spec_option_sweep_day(value, name) { Err(d) => Err(d), Ok(v) => Ok(SimulationOptionsPatch { sweep_end: Some(v), ..patch }) }
            } else if name == "maximum_trials"@ {
                match spec_option_integer(value, name) { Err(d) => Err(d), Ok(v) => Ok(SimulationOptionsPatch { maximum_trials: Some(v), ..patch }) }
            } else if name == "requested_threads"@ {
                match spec_option_integer(value, name) { Err(d) => Err(d), Ok(v) => Ok(SimulationOptionsPatch { requested_threads: Some(v), ..patch }) }
            } else if name == "minimum_routing_step"@ {
                match spec_option_duration(value, name, false) { Err(d) => Err(d), Ok(v) => Ok(SimulationOptionsPatch { minimum_routing_step_seconds: Some(v), ..patch }) }
            } else if name == "lengthening_step"@ {
                match spec_option_duration(value, name, false) { Err(d) => Err(d), Ok(v) => Ok(SimulationOptionsPatch { lengthening_step_seconds: Some(v), ..patch }) }
            } else if name == "antecedent_dry_duration"@ {
                match spec_option_duration(value, name, false) { Err(d) => Err(d), Ok(v) => Ok(SimulationOptionsPatch { antecedent_dry_seconds: Some(v), ..patch }) }
            } else if name == "courant_factor"@ {
                match spec_option_float(value, name) { Err(d) => Err(d), Ok(v) => Ok(SimulationOptionsPatch { courant_factor: Some(v), ..patch }) }
            } else if name == "minimum_surface_area"@ {
                match spec_option_float(value, name) { Err(d) => Err(d), Ok(v) => Ok(SimulationOptionsPatch { minimum_surface_area: Some(v), ..patch }) }
            } else if name == "minimum_conduit_slope"@ {
                match spec_option_float(value, name) { Err(d) => Err(d), Ok(v) => Ok(SimulationOptionsPatch { minimum_conduit_slope: Some(v), ..patch }) }
            } else {
                Err("unknown or read-only option field: "@ + name)
            }
        },
    }
}

/// Each supported option lands in its own field of the options patch, taking the value read from what was supplied for it, and nothing else changes.
pub proof fn lemma_options_land_in_their_fields(patch: SimulationOptionsPatch)
    ensures
        forall|k: String, value: PyValue| k@ == "routing_step"@ && spec_option_duration(value, k@, false) is Ok ==> #[trigger] spec_apply_option(patch, Some(k), value) == Ok::<SimulationOptionsPatch, Seq<char>>(SimulationOptionsPatch { routing_step_seconds: Some((spec_option_duration(value, k@, false)->Ok_0)), ..patch }),
        forall|k: String, value: PyValue| k@ == "detailed_reporting_enabled"@ && spec_option_bool(value, k@) is Ok ==> #[trigger] spec_apply_option(patch, Some(k), value) == Ok::<SimulationOptionsPatch, Seq<char>>(SimulationOptionsPatch { detailed_reporting_enabled: Some((spec_option_bool(value, k@)->Ok_0)), ..patch }),
        forall|k: String, value: PyValue| k@ == "allow_ponding"@ && spec_option_bool(value, k@) is Ok ==> #[trigger] spec_apply_option(patch, Some(k), value) == Ok::<SimulationOptionsPatch, Seq<char>>(SimulationOptionsPatch { allow_ponding: Some((spec_option_bool(value, k@)->Ok_0)), ..patch }),
        forall|k: String, value: PyValue| k@ == "skip_steady_state"@ && spec_option_bool(value, k@) is Ok ==> #[trigger] spec_apply_option(patch, Some(k), value) == Ok::<SimulationOptionsPatch, Seq<char>>(SimulationOptionsPatch { skip_steady_state: Some((spec_option_bool(value, k@)->Ok_0)), ..patch }),
        forall|k: String, value: PyValue| k@ == "rainfall_enabled"@ && spec_option_bool(value, k@) is Ok ==> #[trigger] spec_apply_option(patch, Some(k), value) == Ok::<SimulationOptionsPatch, Seq<char>>(SimulationOptionsPatch { rainfall_enabled: Some((spec_option_bool(value, k@)->Ok_0)), ..patch }),
        forall|k: String, value: PyValue| k@ == "rdii_enabled"@ && spec_option_bool(value, k@) is Ok ==> #[trigger] spec_apply_option(patch, Some(k), value) == Ok::<SimulationOptionsPatch, Seq<char>>(SimulationOptionsPatch { rdii_enabled: Some((spec_option_bool(value, k@)->Ok_0)), ..patch }),
        forall|k: String, value: PyValue| k@ == "snowmelt_enabled"@ && spec_option_bool(value, k@) is Ok ==> #[trigger] spec_apply_option(patch, Some(k), value) == Ok::<SimulationOptionsPatch, Seq<char>>(SimulationOptionsPatch { snowmelt_enabled: Some((spec_option_bool(value, k@)->Ok_0)), ..patch }),
        forall|k: String, value: PyValue| k@ == "groundwater_enabled"@ && spec_option_bool(value, k@) is Ok ==> #[trigger] spec_apply_option(patch, Some(k), value) == Ok::<SimulationOptionsPatch, Seq<char>>(SimulationOptionsPatch { groundwater_enabled: Some((spec_option_bool(value, k@)->Ok_0)), ..patch }),
        forall|k: String, value: PyValue| k@ == "routing_enabled"@ && spec_option_bool(value, k@) is Ok ==> #[trigger] spec_apply_option(patch, Some(k), value) == Ok::<SimulationOptionsPatch, Seq<char>>(SimulationOptionsPatch { routing_enabled: Some((spec_option_bool(value, k@)->Ok_0)), ..patch }),
        forall|k: String, value: PyValue| k@ == "quality_enabled"@ && spec_option_bool(value, k@) is Ok ==> #[trigger] spec_apply_option(patch, Some(k), value) == Ok::<SimulationOptionsPatch, Seq<char>>(SimulationOptionsPatch { quality_enabled: Some((spec_option_bool(value, k@)->Ok_0)), ..patch }),
        forall|k: String, value: PyValue| k@ == "sweep_start"@ && spec_option_sweep_day(value, k@) is Ok ==> #[trigger] spec_apply_option(patch, Some(k), value) == Ok::<SimulationOptionsPatch, Seq<char>>(SimulationOptionsPatch { sweep_start: Some((spec_option_sweep_day(value, k@)->Ok_0)), ..patch }),
        forall|k: String, value: PyValue| k@ == "sweep_end"@ && spec_option_sweep_day(value, k@) is Ok ==> #[trigger] spec_apply_option(patch, Some(k), value) == Ok::<SimulationOptionsPatch, Seq<char>>(SimulationOptionsPatch { sweep_end: Some((spec_option_sweep_day(value, k@)->Ok_0)), ..patch }),
        forall|k: String, value: PyValue| k@ == "maximum_trials"@ && spec_option_integer(value, k@) is Ok ==> #[trigger] spec_apply_option(patch, Some(k), value) == Ok::<SimulationOptionsPatch, Seq<char>>(SimulationOptionsPatch { maximum_trials: Some((spec_option_integer(value, k@)->Ok_0)), ..patch }),
        forall|k: String, value: PyValue| k@ == "requested_threads"@ && spec_option_integer(value, k@) is Ok ==> #[trigger] spec_apply_option(patch, Some(k), value) == Ok::<SimulationOptionsPatch, Seq<char>>(SimulationOptionsPatch { requested_threads: Some((spec_option_integer(value, k@)->Ok_0)), ..patch }),
        forall|k: String, value: PyValue| k@ == "minimum_routing_step"@ && spec_option_duration(value, k@, false) is Ok ==> #[trigger] spec_apply_option(patch, Some(k), value) == Ok::<SimulationOptionsPatch, Seq<char>>(SimulationOptionsPatch { minimum_routing_step_seconds: Some((spec_option_duration(value, k@, false)->Ok_0)), ..patch }),
        forall|k: String, value: PyValue| k@ == "lengthening_step"@ && spec_option_duration(value, k@, false) is Ok ==> #[trigger] spec_apply_option(patch, Some(k), value) == Ok::<SimulationOptionsPatch, Seq<char>>(SimulationOptionsPatch { lengthening_step_seconds: Some((spec_option_duration(value, k@, false)->Ok_0)), ..patch }),
        forall|k: String, value: PyValue| k@ == "antecedent_dry_duration"@ && spec_option_duration(value, k@, false) is Ok ==> #[trigger] spec_apply_option(patch, Some(k), value) == Ok::<SimulationOptionsPatch, Seq<char>>(SimulationOptionsPatch { antecedent_dry_seconds: Some((spec_option_duration(value, k@, false)->Ok_0)), ..patch }),
        forall|k: String, value: PyValue| k@ == "courant_factor"@ && spec_option_float(value, k@) is Ok ==> #[trigger] spec_apply_option(patch, Some(k), value) == Ok::<SimulationOptionsPatch, Seq<char>>(SimulationOptionsPatch { courant_factor: Some((spec_option_float(value, k@)->Ok_0)), ..patch }),
        forall|k: String, value: PyValue| k@ == "minimum_surface_area"@ && spec_option_float(value, k@) is Ok ==> #[trigger] spec_apply_option(patch, Some(k), value) == Ok::<SimulationOptionsPatch, Seq<char>>(SimulationOptionsPatch { minimum_surface_area: Some((spec_option_float(value, k@)->Ok_0)), ..patch }),
        forall|k: String, value: PyValue| k@ == "minimum_conduit_slope"@ && spec_option_float(value, k@) is Ok ==> #[trigger] spec_apply_option(patch, Some(k), value) == Ok::<SimulationOptionsPatch, Seq<char>>(SimulationOptionsPatch { minimum_conduit_slope: Some((spec_option_float(value, k@)->Ok_0)), ..patch }),
{
    assert forall|k: String, value: PyValue| k@ == "routing_step"@ && spec_option_duration(value, k@, false) is Ok implies #[trigger] spec_apply_option(patch, Some(k), value) == Ok::<SimulationOptionsPatch, Seq<char>>(SimulationOptionsPatch { routing_step_seconds: Some((spec_option_duration(value, k@, false)->Ok_0)), ..patch }) by {
        reveal_strlit("routing_step");
    }
    assert forall|k: String, value: PyValue| k@ == "detailed_reporting_enabled"@ && spec_option_bool(value, k@) is Ok implies #[trigger] spec_apply_option(patch, Some(k), value) == Ok::<SimulationOptionsPatch, Seq<char>>(SimulationOptionsPatch { detailed_reporting_enabled: Some((spec_option_bool(value, k@)->Ok_0)), ..patch }) by {
        reveal_strlit("detailed_reporting_enabled");
        reveal_strlit("routing_step");
        assert("detailed_reporting_enabled"@.len() != "routing_step"@.len());
        reveal_strlit("report_step");
        assert("detailed_reporting_enabled"@.len() != "report_step"@.len());
    }
    assert forall|k: String, value: PyValue| k@ == "allow_ponding"@ && spec_option_bool(value, k@) is Ok implies #[trigger] spec_apply_option(patch, Some(k), value) == Ok::<SimulationOptionsPatch, Seq<char>>(SimulationOptionsPatch { allow_ponding: Some((spec_option_bool(value, k@)->Ok_0)), ..patch }) by {
        reveal_strlit("allow_ponding");
        reveal_strlit("routing_step");
        assert("allow_ponding"@.len() != "routing_step"@.len());
        reveal_strlit("report_step");
        assert("allow_ponding"@.len() != "report_step"@.len());
        reveal_strlit("detailed_reporting_enabled");
        assert("allow_ponding"@.len() != "detailed_reporting_enabled"@.len());
        reveal_strlit("custom_ellipse_model");
        assert("allow_ponding"@.len() != "custom_ellipse_model"@.len());
        reveal_strlit("surcharge_method");
        assert("allow_ponding"@.len() != "surcharge_method"@.len());
    }
    assert forall|k: String, value: PyValue| k@ == "skip_steady_state"@ && spec_option_bool(value, k@) is Ok implies #[trigger] spec_apply_option(patch, Some(k), value) == Ok::<SimulationOptionsPatch, Seq<char>>(SimulationOptionsPatch { skip_steady_state: Some((spec_option_bool(value, k@)->Ok_0)), ..patch }) by {
        reveal_strlit("skip_steady_state");
        reveal_strlit("routing_step");
        assert("skip_steady_state"@.len() != "routing_step"@.len());
        reveal_strlit("report_step");
        assert("skip_steady_state"@.len() != "report_step"@.len());
        reveal_strlit("detailed_reporting_enabled");
        assert("skip_steady_state"@.len() != "detailed_reporting_enabled"@.len());
        reveal_strlit("custom_ellipse_model");
        assert("skip_steady_state"@.len() != "custom_ellipse_model"@.len());
        reveal_strlit("surcharge_method");
        assert("skip_steady_state"@.len() != "surcharge_method"@.len());
        reveal_strlit("allow_ponding");
        assert("skip_steady_state"@.len() != "allow_ponding"@.len());
        reveal_strlit("inertia_damping");
        assert("skip_steady_state"@.len() != "inertia_damping"@.len());
        reveal_strlit("normal_flow_limit");
        assert("skip_steady_state"@ != "normal_flow_limit"@) by { assert("skip_steady_state"@[0] != "normal_flow_limit"@[0]); }
    }
    assert forall|k: String, value: PyValue| k@ == "rainfall_enabled"@ && spec_option_bool(value, k@) is Ok implies #[trigger] spec_apply_option(patch, Some(k), value) == Ok::<SimulationOptionsPatch, Seq<char>>(SimulationOptionsPatch { rainfall_enabled: Some((spec_option_bool(value, k@)->Ok_0)), ..patch }) by {
        reveal_strlit("rainfall_enabled");
        reveal_strlit("routing_step");
        assert("rainfall_enabled"@.len() != "routing_step"@.len());
        reveal_strlit("report_step");
        assert("rainfall_enabled"@.len() != "report_step"@.len());
        reveal_strlit("detailed_reporting_enabled");
        assert("rainfall_enabled"@.len() != "detailed_reporting_enabled"@.len());
        reveal_strlit("custom_ellipse_model");
        assert("rainfall_enabled"@.len() != "custom_ellipse_model"@.len());
        reveal_strlit("surcharge_method");
        assert("rainfall_enabled"@ != "surcharge_method"@) by { assert("rainfall_enabled"@[0] != "surcharge_method"@[0]); }
        reveal_strlit("allow_ponding");
        assert("rainfall_enabled"@.len() != "allow_ponding"@.len());
        reveal_strlit("inertia_damping");
        assert("rainfall_enabled"@.len() != "inertia_damping"@.len());
        reveal_strlit("normal_flow_limit");
        assert("rainfall_enabled"@.len() != "normal_flow_limit"@.len());
        reveal_strlit("skip_steady_state");
        assert("rainfall_enabled"@.len() != "skip_steady_state"@.len());
    }
    assert forall|k: String, value: PyValue| k@ == "rdii_enabled"@ && spec_option_bool(value, k@) is Ok implies #[trigger] spec_apply_option(patch, Some(k), value) == Ok::<SimulationOptionsPatch, Seq<char>>(SimulationOptionsPatch { rdii_enabled: Some((spec_option_bool(value, k@)->Ok_0)), ..patch }) by {
        reveal_strlit("rdii_enabled");
        reveal_strlit("routing_step");
        assert("rdii_enabled"@ != "routing_step"@) by { assert("rdii_enabled"@[1] != "routing_step"@[1]); }
        reveal_strlit("report_step");
        assert("rdii_enabled"@.len() != "report_step"@.len());
        reveal_strlit("detailed_reporting_enabled");
        assert("rdii_enabled"@.len() != "detailed_reporting_enabled"@.len());
        reveal_strlit("custom_ellipse_model");
        assert("rdii_enabled"@.len() != "custom_ellipse_model"@.len());
        reveal_strlit("surcharge_method");
        assert("rdii_enabled"@.len() != "surcharge_method"@.len());
        reveal_strlit("allow_ponding");
        assert("rdii_enabled"@.len() != "allow_ponding"@.len());
        reveal_strlit("inertia_damping");
        assert("rdii_enabled"@.len() != "inertia_damping"@.len());
        reveal_strlit("normal_flow_limit");
        assert("rdii_enabled"@.len() != "normal_flow_limit"@.len());
        reveal_strlit("skip_steady_state");
        assert("rdii_enabled"@.len() != "skip_steady_state"@.len());
        reveal_strlit("rainfall_enabled");
        assert("rdii_enabled"@.len() != "rainfall_enabled"@.len());
    }
    assert forall|k: String, value: PyValue| k@ == "snowmelt_enabled"@ && spec_option_bool(value, k@) is Ok implies #[trigger] spec_apply_option(patch, Some(k), value) == Ok::<SimulationOptionsPatch, Seq<char>>(SimulationOptionsPatch { snowmelt_enabled: Some((spec_option_bool(value, k@)->Ok_0)), ..patch }) by {
        reveal_strlit("snowmelt_enabled");
        reveal_strlit("routing_step");
        assert("snowmelt_enabled"@.len() != "routing_step"@.len());
        reveal_strlit("report_step");
        assert("snowmelt_enabled"@.len() != "report_step"@.len());
        reveal_strlit("detailed_reporting_enabled");
        assert("snowmelt_enabled"@.len() != "detailed_reporting_enabled"@.len());
        reveal_strlit("custom_ellipse_model");
        assert("snowmelt_enabled"@.len() != "custom_ellipse_model"@.len());
        reveal_strlit("surcharge_method");
        assert("snowmelt_enabled"@ != "surcharge_method"@) by { assert("snowmelt_enabled"@[1] != "surcharge_method"@[1]); }
        reveal_strlit("allow_ponding");
        assert("snowmelt_enabled"@.len() != "allow_ponding"@.len());
        reveal_strlit("inertia_damping");
        assert("snowmelt_enabled"@.len() != "inertia_damping"@.len());
        reveal_strlit("normal_flow_limit");
        assert("snowmelt_enabled"@.len() != "normal_flow_limit"@.len());
        reveal_strlit("skip_steady_state");
        assert("snowmelt_enabled"@.len() != "skip_steady_state"@.len());
        reveal_strlit("rainfall_enabled");
        assert("snowmelt_enabled"@ != "rainfall_enabled"@) by { assert("snowmelt_enabled"@[0] != "rainfall_enabled"@[0]); }
        reveal_strlit("rdii_enabled");
        assert("snowmelt_enabled"@.len() != "rdii_enabled"@.len());
    }
    assert forall|k: String, value: PyValue| k@ == "groundwater_enabled"@ && spec_option_bool(value, k@) is Ok implies #[trigger] spec_apply_option(patch, Some(k), value) == Ok::<SimulationOptionsPatch, Seq<char>>(SimulationOptionsPatch { groundwater_enabled: Some((spec_option_bool(value, k@)->Ok_0)), ..patch }) by {
        reveal_strlit("groundwater_enabled");
        reveal_strlit("routing_step");
        assert("groundwater_enabled"@.len() != "routing_step"@.len());
        reveal_strlit("report_step");
        assert("groundwater_enabled"@.len() != "report_step"@.len());
        reveal_strlit("detailed_reporting_enabled");
        assert("groundwater_enabled"@.len() != "detailed_reporting_enabled"@.len());
        reveal_strlit("custom_ellipse_model");
        assert("groundwater_enabled"@.len() != "custom_ellipse_model"@.len());
        reveal_strlit("surcharge_method");
        assert("groundwater_enabled"@.len() != "surcharge_method"@.len());
        reveal_strlit("allow_ponding");
        assert("groundwater_enabled"@.len() != "allow_ponding"@.len());
        reveal_strlit("inertia_damping");
        assert("groundwater_enabled"@.len() != "inertia_damping"@.len());
        reveal_strlit("normal_flow_limit");
        assert("groundwater_enabled"@.len() != "normal_flow_limit"@.len());
        reveal_strlit("skip_steady_state");
        assert("groundwater_enabled"@.len() != "skip_steady_state"@.len());
        reveal_strlit("rainfall_enabled");
        assert("groundwater_enabled"@.len() != "rainfall_enabled"@.len());
        reveal_strlit("rdii_enabled");
        assert("groundwater_enabled"@.len() != "rdii_enabled"@.len());
        reveal_strlit("snowmelt_enabled");
        assert("groundwater_enabled"@.len() != "snowmelt_enabled"@.len());
    }
    assert forall|k: String, value: PyValue| k@ == "routing_enabled"@ && spec_option_bool(value, k@) is Ok implies #[trigger] spec_apply_option(patch, Some(k), value) == Ok::<SimulationOptionsPatch, Seq<char>>(SimulationOptionsPatch { routing_enabled: Some((spec_option_bool(value, k@)->Ok_0)), ..patch }) by {
        reveal_strlit("routing_enabled");
        reveal_strlit("routing_step");
        assert("routing_enabled"@.len() != "routing_step"@.len());
        reveal_strlit("report_step");
        assert("routing_enabled"@.len() != "report_step"@.len());
        reveal_strlit("detailed_reporting_enabled");
        assert("routing_enabled"@.len() != "detailed_reporting_enabled"@.len());
        reveal_strlit("custom_ellipse_model");
        assert("routing_enabled"@.len() != "custom_ellipse_model"@.len());
        reveal_strlit("surcharge_method");
        assert("routing_enabled"@.len() != "surcharge_method"@.len());
        reveal_strlit("allow_ponding");
        assert("routing_enabled"@.len() != "allow_ponding"@.len());
        reveal_strlit("inertia_damping");
        assert("routing_enabled"@ != "inertia_damping"@) by { assert("routing_enabled"@[0] != "inertia_damping"@[0]); }
        reveal_strlit("normal_flow_limit");
        assert("routing_enabled"@.len() != "normal_flow_limit"@.len());
        reveal_strlit("skip_steady_state");
        assert("routing_enabled"@.len() != "skip_steady_state"@.len());
        reveal_strlit("rainfall_enabled");
        assert("routing_enabled"@.len() != "rainfall_enabled"@.len());
        reveal_strlit("rdii_enabled");
        assert("routing_enabled"@.len() != "rdii_enabled"@.len());
        reveal_strlit("snowmelt_enabled");
        assert("routing_enabled"@.len() != "snowmelt_enabled"@.len());
        reveal_strlit("groundwater_enabled");
        assert("routing_enabled"@.len() != "groundwater_enabled"@.len());
    }
    assert forall|k: String, value: PyValue| k@ == "quality_enabled"@ && spec_option_bool(value, k@) is Ok implies #[trigger] spec_apply_option(patch, Some(k), value) == Ok::<SimulationOptionsPatch, Seq<char>>(SimulationOptionsPatch { quality_enabled: Some((spec_option_bool(value, k@)->Ok_0)), ..patch }) by {
        reveal_strlit("quality_enabled");
        reveal_strlit("routing_step");
        assert("quality_enabled"@.len() != "routing_step"@.len());
        reveal_strlit("report_step");
        assert("quality_enabled"@.len() != "report_step"@.len());
        reveal_strlit("detailed_reporting_enabled");
        assert("quality_enabled"@.len() != "detailed_reporting_enabled"@.len());
        reveal_strlit("custom_ellipse_model");
        assert("quality_enabled"@.len() != "custom_ellipse_model"@.len());
        reveal_strlit("surcharge_method");
        assert("quality_enabled"@.len() != "surcharge_method"@.len());
        reveal_strlit("allow_ponding");
        assert("quality_enabled"@.len() != "allow_ponding"@.len());
        reveal_strlit("inertia_damping");
        assert("quality_enabled"@ != "inertia_damping"@) by { assert("quality_enabled"@[0] != "inertia_damping"@[0]); }
        reveal_strlit("normal_flow_limit");
        assert("quality_enabled"@.len() != "normal_flow_limit"@.len());
        reveal_strlit("skip_steady_state");
        assert("quality_enabled"@.len() != "skip_steady_state"@.len());
        reveal_strlit("rainfall_enabled");
        assert("quality_enabled"@.len() != "rainfall_enabled"@.len());
        reveal_strlit("rdii_enabled");
        assert("quality_enabled"@.len() != "rdii_enabled"@.len());
        reveal_strlit("snowmelt_enabled");
        assert("quality_enabled"@.len() != "snowmelt_enabled"@.len());
        reveal_strlit("groundwater_enabled");
        assert("quality_enabled"@.len() != "groundwater_enabled"@.len());
        reveal_strlit("routing_enabled");
        assert("quality_enabled"@ != "routing_enabled"@) by { assert("quality_enabled"@[0] != "routing_enabled"@[0]); }
    }
    assert forall|k: String, value: PyValue| k@ == "sweep_start"@ && spec_option_sweep_day(value, k@) is Ok implies #[trigger] spec_apply_option(patch, Some(k), value) == Ok::<SimulationOptionsPatch, Seq<char>>(SimulationOptionsPatch { sweep_start: Some((spec_option_sweep_day(value, k@)->Ok_0)), ..patch }) by {
        reveal_strlit("sweep_start");
        reveal_strlit("routing_step");
        assert("sweep_start"@.len() != "routing_step"@.len());
        reveal_strlit("report_step");
        assert("sweep_start"@ != "report_step"@) by { assert("sweep_start"@[0] != "report_step"@[0]); }
        reveal_strlit("detailed_reporting_enabled");
        assert("sweep_start"@.len() != "detailed_reporting_enabled"@.len());
        reveal_strlit("custom_ellipse_model");
        assert("sweep_start"@.len() != "custom_ellipse_model"@.len());
        reveal_strlit("surcharge_method");
        assert("sweep_start"@.len() != "surcharge_method"@.len());
        reveal_strlit("allow_ponding");
        assert("sweep_start"@.len() != "allow_ponding"@.len());
        reveal_strlit("inertia_damping");
        assert("sweep_start"@.len() != "inertia_damping"@.len());
        reveal_strlit("normal_flow_limit");
        assert("sweep_start"@.len() != "normal_flow_limit"@.len());
        reveal_strlit("skip_steady_state");
        assert("sweep_start"@.len() != "skip_steady_state"@.len());
        reveal_strlit("rainfall_enabled");
        assert("sweep_start"@.len() != "rainfall_enabled"@.len());
        reveal_strlit("rdii_enabled");
        assert("sweep_start"@.len() != "rdii_enabled"@.len());
        reveal_strlit("snowmelt_enabled");
        assert("sweep_start"@.len() != "snowmelt_enabled"@.len());
        reveal_strlit("groundwater_enabled");
        assert("sweep_start"@.len() != "groundwater_enabled"@.len());
        reveal_strlit("routing_enabled");
        assert("sweep_start"@.len() != "routing_enabled"@.len());
        reveal_strlit("quality_enabled");
        assert("sweep_start"@.len() != "quality_enabled"@.len());
        reveal_strlit("rule_step");
        assert("sweep_start"@.len() != "rule_step"@.len());
    }
    assert forall|k: String, value: PyValue| k@ == "sweep_end"@ && spec_option_sweep_day(value, k@) is Ok implies #[trigger] spec_apply_option(patch, Some(k), value) == Ok::<SimulationOptionsPatch, Seq<char>>(SimulationOptionsPatch { sweep_end: Some((spec_option_sweep_day(value, k@)->Ok_0)), ..patch }) by {
        reveal_strlit("sweep_end");
        reveal_strlit("routing_step");
        assert("sweep_end"@.len() != "routing_step"@.len());
        reveal_strlit("report_step");
        assert("sweep_end"@.len() != "report_step"@.len());
        reveal_strlit("detailed_reporting_enabled");
        assert("sweep_end"@.len() != "detailed_reporting_enabled"@.len());
        reveal_strlit("custom_ellipse_model");
        assert("sweep_end"@.len() != "custom_ellipse_model"@.len());
        reveal_strlit("surcharge_method");
        assert("sweep_end"@.len() != "surcharge_method"@.len());
        reveal_strlit("allow_ponding");
        assert("sweep_end"@.len() != "allow_ponding"@.len());
        reveal_strlit("inertia_damping");
        assert("sweep_end"@.len() != "inertia_damping"@.len());
        reveal_strlit("normal_flow_limit");
        assert("sweep_end"@.len() != "normal_flow_limit"@.len());
        reveal_strlit("skip_steady_state");
        assert("sweep_end"@.len() != "skip_steady_state"@.len());
        reveal_strlit("rainfall_enabled");
        assert("sweep_end"@.len() != "rainfall_enabled"@.len());
        reveal_strlit("rdii_enabled");
        assert("sweep_end"@.len() != "rdii_enabled"@.len());
        reveal_strlit("snowmelt_enabled");
        assert("sweep_end"@.len() != "snowmelt_enabled"@.len());
        reveal_strlit("groundwater_enabled");
        assert("sweep_end"@.len() != "groundwater_enabled"@.len());
        reveal_strlit("routing_enabled");
        assert("sweep_end"@.len() != "routing_enabled"@.len());
        reveal_strlit("quality_enabled");
        assert("sweep_end"@.len() != "quality_enabled"@.len());
        reveal_strlit("rule_step");
        assert("sweep_end"@ != "rule_step"@) by { assert("sweep_end"@[0] != "rule_step"@[0]); }
        reveal_strlit("sweep_start");
        assert("sweep_end"@.len() != "sweep_start"@.len());
    }
    assert forall|k: String, value: PyValue| k@ == "maximum_trials"@ && spec_option_integer(value, k@) is Ok implies #[trigger] spec_apply_option(patch, Some(k), value) == Ok::<SimulationOptionsPatch, Seq<char>>(SimulationOptionsPatch { maximum_trials: Some((spec_option_integer(value, k@)->Ok_0)), ..patch }) by {
        reveal_strlit("maximum_trials");
        reveal_strlit("routing_step");
        assert("maximum_trials"@.len() != "routing_step"@.len());
        reveal_strlit("report_step");
        assert("maximum_trials"@.len() != "report_step"@.len());
        reveal_strlit("detailed_reporting_enabled");
        assert("maximum_trials"@.len() != "detailed_reporting_enabled"@.len());
        reveal_strlit("custom_ellipse_model");
        assert("maximum_trials"@.len() != "custom_ellipse_model"@.len());
        reveal_strlit("surcharge_method");
        assert("maximum_trials"@.len() != "surcharge_method"@.len());
        reveal_strlit("allow_ponding");
        assert("maximum_trials"@.len() != "allow_ponding"@.len());
        reveal_strlit("inertia_damping");
        assert("maximum_trials"@.len() != "inertia_damping"@.len());
        reveal_strlit("normal_flow_limit");
        assert("maximum_trials"@.len() != "normal_flow_limit"@.len());
        reveal_strlit("skip_steady_state");
        assert("maximum_trials"@.len() != "skip_steady_state"@.len());
        reveal_strlit("rainfall_enabled");
        assert("maximum_trials"@.len() != "rainfall_enabled"@.len());
        reveal_strlit("rdii_enabled");
        assert("maximum_trials"@.len() != "rdii_enabled"@.len());
        reveal_strlit("snowmelt_enabled");
        assert("maximum_trials"@.len() != "snowmelt_enabled"@.len());
        reveal_strlit("groundwater_enabled");
        assert("maximum_trials"@.len() != "groundwater_enabled"@.len());
        reveal_strlit("routing_enabled");
        assert("maximum_trials"@.len() != "routing_enabled"@.len());
        reveal_strlit("quality_enabled");
        assert("maximum_trials"@.len() != "quality_enabled"@.len());
        reveal_strlit("rule_step");
        assert("maximum_trials"@.len() != "rule_step"@.len());
        reveal_strlit("sweep_start");
        assert("maximum_trials"@.len() != "sweep_start"@.len());
        reveal_strlit("sweep_end");
        assert("maximum_trials"@.len() != "sweep_end"@.len());
    }
    assert forall|k: String, value: PyValue| k@ == "requested_threads"@ && spec_option_integer(value, k@) is Ok implies #[trigger] spec_apply_option(patch, Some(k), value) == Ok::<SimulationOptionsPatch, Seq<char>>(SimulationOptionsPatch { requested_threads: Some((spec_option_integer(value, k@)->Ok_0)), ..patch }) by {
        reveal_strlit("requested_threads");
        reveal_strlit("routing_step");
        assert("requested_threads"@.len() != "routing_step"@.len());
        reveal_strlit("report_step");
        assert("requested_threads"@.len() != "report_step"@.len());
        reveal_strlit("detailed_reporting_enabled");
        assert("requested_threads"@.len() != "detailed_reporting_enabled"@.len());
        reveal_strlit("custom_ellipse_model");
        assert("requested_threads"@.len() != "custom_ellipse_model"@.len());
        reveal_strlit("surcharge_method");
        assert("requested_threads"@.len() != "surcharge_method"@.len());
        reveal_strlit("allow_ponding");
        assert("requested_threads"@.len() != "allow_ponding"@.len());
        reveal_strlit("inertia_damping");
        assert("requested_threads"@.len() != "inertia_damping"@.len());
        reveal_strlit("normal_flow_limit");
        assert("requested_threads"@ != "normal_flow_limit"@) by { assert("requested_threads"@[0] != "normal_flow_limit"@[0]); }
        reveal_strlit("skip_steady_state");
        assert("requested_threads"@ != "skip_steady_state"@) by { assert("requested_threads"@[0] != "skip_steady_state"@[0]); }
        reveal_strlit("rainfall_enabled");
        assert("requested_threads"@.len() != "rainfall_enabled"@.len());
        reveal_strlit("rdii_enabled");
        assert("requested_threads"@.len() != "rdii_enabled"@.len());
        reveal_strlit("snowmelt_enabled");
        assert("requested_threads"@.len() != "snowmelt_enabled"@.len());
        reveal_strlit("groundwater_enabled");
        assert("requested_threads"@.len() != "groundwater_enabled"@.len());
        reveal_strlit("routing_enabled");
        assert("requested_threads"@.len() != "routing_enabled"@.len());
        reveal_strlit("quality_enabled");
        assert("requested_threads"@.len() != "quality_enabled"@.len());
        reveal_strlit("rule_step");
        assert("requested_threads"@.len() != "rule_step"@.len());
        reveal_strlit("sweep_start");
        assert("requested_threads"@.len() != "sweep_start"@.len());
        reveal_strlit("sweep_end");
        assert("requested_threads"@.len() != "sweep_end"@.len());
        reveal_strlit("maximum_trials");
        assert("requested_threads"@.len() != "maximum_trials"@.len());
    }
    assert forall|k: String, value: PyValue| k@ == "minimum_routing_step"@ && spec_option_duration(value, k@, false) is Ok implies #[trigger] spec_apply_option(patch, Some(k), value) == Ok::<SimulationOptionsPatch, Seq<char>>(SimulationOptionsPatch { minimum_routing_step_seconds: Some((spec_option_duration(value, k@, false)->Ok_0)), ..patch }) by {
        reveal_strlit("minimum_routing_step");
        reveal_strlit("routing_step");
        assert("minimum_routing_step"@.len() != "routing_step"@.len());
        reveal_strlit("report_step");
        assert("minimum_routing_step"@.len() != "report_step"@.len());
        reveal_strlit("detailed_reporting_enabled");
        assert("minimum_routing_step"@.len() != "detailed_reporting_enabled"@.len());
        reveal_strlit("custom_ellipse_model");
        assert("minimum_routing_step"@ != "custom_ellipse_model"@) by { assert("minimum_routing_step"@[0] != "custom_ellipse_model"@[0]); }
        reveal_strlit("surcharge_method");
        assert("minimum_routing_step"@.len() != "surcharge_method"@.len());
        reveal_strlit("allow_ponding");
        assert("minimum_routing_step"@.len() != "allow_ponding"@.len());
        reveal_strlit("inertia_damping");
        assert("minimum_routing_step"@.len() != "inertia_damping"@.len());
        reveal_strlit("normal_flow_limit");
        assert("minimum_routing_step"@.len() != "normal_flow_limit"@.len());
        reveal_strlit("skip_steady_state");
        assert("minimum_routing_step"@.len() != "skip_steady_state"@.len());
        reveal_strlit("rainfall_enabled");
        assert("minimum_routing_step"@.len() != "rainfall_enabled"@.len());
        reveal_strlit("rdii_enabled");
        assert("minimum_routing_step"@.len() != "rdii_enabled"@.len());
        reveal_strlit("snowmelt_enabled");
        assert("minimum_routing_step"@.len() != "snowmelt_enabled"@.len());
        reveal_strlit("groundwater_enabled");
        assert("minimum_routing_step"@.len() != "groundwater_enabled"@.len());
        reveal_strlit("routing_enabled");
        assert("minimum_routing_step"@.len() != "routing_enabled"@.len());
        reveal_strlit("quality_enabled");
        assert("minimum_routing_step"@.len() != "quality_enabled"@.len());
        reveal_strlit("rule_step");
        assert("minimum_routing_step"@.len() != "rule_step"@.len());
        reveal_strlit("sweep_start");
        assert("minimum_routing_step"@.len() != "sweep_start"@.len());
        reveal_strlit("sweep_end");
        assert("minimum_routing_step"@.len() != "sweep_end"@.len());
        reveal_strlit("maximum_trials");
        assert("minimum_routing_step"@.len() != "maximum_trials"@.len());
        reveal_strlit("requested_threads");
        assert("minimum_routing_step"@.len() != "requested_threads"@.len());
    }
    assert forall|k: String, value: PyValue| k@ == "lengthening_step"@ && spec_option_duration(value, k@, false) is Ok implies #[trigger] spec_apply_option(patch, Some(k), value) == Ok::<SimulationOptionsPatch, Seq<char>>(SimulationOptionsPatch { lengthening_step_seconds: Some((spec_option_duration(value, k@, false)->Ok_0)), ..patch }) by {
        reveal_strlit("lengthening_step");
        reveal_strlit("routing_step");
        assert("lengthening_step"@.len() != "routing_step"@.len());
        reveal_strlit("report_step");
        assert("lengthening_step"@.len() != "report_step"@.len());
        reveal_strlit("detailed_reporting_enabled");
        assert("lengthening_step"@.len() != "detailed_reporting_enabled"@.len());
        reveal_strlit("custom_ellipse_model");
        assert("lengthening_step"@.len() != "custom_ellipse_model"@.len());
        reveal_strlit("surcharge_method");
        assert("lengthening_step"@ != "surcharge_method"@) by { assert("lengthening_step"@[0] != "surcharge_method"@[0]); }
        reveal_strlit("allow_ponding");
        assert("lengthening_step"@.len() != "allow_ponding"@.len());
        reveal_strlit("inertia_damping");
        assert("lengthening_step"@.len() != "inertia_damping"@.len());
        reveal_strlit("normal_flow_limit");
        assert("lengthening_step"@.len() != "normal_flow_limit"@.len());
        reveal_strlit("skip_steady_state");
        assert("lengthening_step"@.len() != "skip_steady_state"@.len());
        reveal_strlit("rainfall_enabled");
        assert("lengthening_step"@ != "rainfall_enabled"@) by { assert("lengthening_step"@[0] != "rainfall_enabled"@[0]); }
        reveal_strlit("rdii_enabled");
        assert("lengthening_step"@.len() != "rdii_enabled"@.len());
        reveal_strlit("snowmelt_enabled");
        assert("lengthening_step"@ != "snowmelt_enabled"@) by { assert("lengthening_step"@[0] != "snowmelt_enabled"@[0]); }
        reveal_strlit("groundwater_enabled");
        assert("lengthening_step"@.len() != "groundwater_enabled"@.len());
        reveal_strlit("routing_enabled");
        assert("lengthening_step"@.len() != "routing_enabled"@.len());
        reveal_strlit("quality_enabled");
        assert("lengthening_step"@.len() != "quality_enabled"@.len());
        reveal_strlit("rule_step");
        assert("lengthening_step"@.len() != "rule_step"@.len());
        reveal_strlit("sweep_start");
        assert("lengthening_step"@.len() != "sweep_start"@.len());
        reveal_strlit("sweep_end");
        assert("lengthening_step"@.len() != "sweep_end"@.len());
        reveal_strlit("maximum_trials");
        assert("lengthening_step"@.len() != "maximum_trials"@.len());
        reveal_strlit("requested_threads");
        assert("lengthening_step"@.len() != "requested_threads"@.len());
        reveal_strlit("minimum_routing_step");
        assert("lengthening_step"@.len() != "minimum_routing_step"@.len());
    }
    assert forall|k: String, value: PyValue| k@ == "antecedent_dry_duration"@ && spec_option_duration(value, k@, false) is Ok implies #[trigger] spec_apply_option(patch, Some(k), value) == Ok::<SimulationOptionsPatch, Seq<char>>(SimulationOptionsPatch { antecedent_dry_seconds: Some((spec_option_duration(value, k@, false)->Ok_0)), ..patch }) by {
        reveal_strlit("antecedent_dry_duration");
        reveal_strlit("routing_step");
        assert("antecedent_dry_duration"@.len() != "routing_step"@.len());
        reveal_strlit("report_step");
        assert("antecedent_dry_duration"@.len() != "report_step"@.len());
        reveal_strlit("detailed_reporting_enabled");
        assert("antecedent_dry_duration"@.len() != "detailed_reporting_enabled"@.len());
        reveal_strlit("custom_ellipse_model");
        assert("antecedent_dry_duration"@.len() != "custom_ellipse_model"@.len());
        reveal_strlit("surcharge_method");
        assert("antecedent_dry_duration"@.len() != "surcharge_method"@.len());
        reveal_strlit("allow_ponding");
        assert("antecedent_dry_duration"@.len() != "allow_ponding"@.len());
        reveal_strlit("inertia_damping");
        assert("antecedent_dry_duration"@.len() != "inertia_damping"@.len());
        reveal_strlit("normal_flow_limit");
        assert("antecedent_dry_duration"@.len() != "normal_flow_limit"@.len());
        reveal_strlit("skip_steady_state");
        assert("antecedent_dry_duration"@.len() != "skip_steady_state"@.len());
        reveal_strlit("rainfall_enabled");
        assert("antecedent_dry_duration"@.len() != "rainfall_enabled"@.len());
        reveal_strlit("rdii_enabled");
        assert("antecedent_dry_duration"@.len() != "rdii_enabled"@.len());
        reveal_strlit("snowmelt_enabled");
        assert("antecedent_dry_duration"@.len() != "snowmelt_enabled"@.len());
        reveal_strlit("groundwater_enabled");
        assert("antecedent_dry_duration"@.len() != "groundwater_enabled"@.len());
        reveal_strlit("routing_enabled");
        assert("antecedent_dry_duration"@.len() != "routing_enabled"@.len());
        reveal_strlit("quality_enabled");
        assert("antecedent_dry_duration"@.len() != "quality_enabled"@.len());
        reveal_strlit("rule_step");
        assert("antecedent_dry_duration"@.len() != "rule_step"@.len());
        reveal_strlit("sweep_start");
        assert("antecedent_dry_duration"@.len() != "sweep_start"@.len());
        reveal_strlit("sweep_end");
        assert("antecedent_dry_duration"@.len() != "sweep_end"@.len());
        reveal_strlit("maximum_trials");
        assert("antecedent_dry_duration"@.len() != "maximum_trials"@.len());
        reveal_strlit("requested_threads");
        assert("antecedent_dry_duration"@.len() != "requested_threads"@.len());
        reveal_strlit("minimum_routing_step");
        assert("antecedent_dry_duration"@.len() != "minimum_routing_step"@.len());
        reveal_strlit("lengthening_step");
        assert("antecedent_dry_duration"@.len() != "lengthening_step"@.len());
    }
    assert forall|k: String, value: PyValue| k@ == "courant_factor"@ && spec_option_float(value, k@) is Ok implies #[trigger] spec_apply_option(patch, Some(k), value) == Ok::<SimulationOptionsPatch, Seq<char>>(SimulationOptionsPatch { courant_factor: Some((spec_option_float(value, k@)->Ok_0)), ..patch }) by {
        reveal_strlit("courant_factor");
        reveal_strlit("routing_step");
        assert("courant_factor"@.len() != "routing_step"@.len());
        reveal_strlit("report_step");
        assert("courant_factor"@.len() != "report_step"@.len());
        reveal_strlit("detailed_reporting_enabled");
        assert("courant_factor"@.len() != "detailed_reporting_enabled"@.len());
        reveal_strlit("custom_ellipse_model");
        assert("courant_factor"@.len() != "custom_ellipse_model"@.len());
        reveal_strlit("surcharge_method");
        assert("courant_factor"@.len() != "surcharge_method"@.len());
        reveal_strlit("allow_ponding");
        assert("courant_factor"@.len() != "allow_ponding"@.len());
        reveal_strlit("inertia_damping");
        assert("courant_factor"@.len() != "inertia_damping"@.len());
        reveal_strlit("normal_flow_limit");
        assert("courant_factor"@.len() != "normal_flow_limit"@.len());
        reveal_strlit("skip_steady_state");
        assert("courant_factor"@.len() != "skip_steady_state"@.len());
        reveal_strlit("rainfall_enabled");
        assert("courant_factor"@.len() != "rainfall_enabled"@.len());
        reveal_strlit("rdii_enabled");
        assert("courant_factor"@.len() != "rdii_enabled"@.len());
        reveal_strlit("snowmelt_enabled");
        assert("courant_factor"@.len() != "snowmelt_enabled"@.len());
        reveal_strlit("groundwater_enabled");
        assert("courant_factor"@.len() != "groundwater_enabled"@.len());
        reveal_strlit("routing_enabled");
        assert("courant_factor"@.len() != "routing_enabled"@.len());
        reveal_strlit("quality_enabled");
        assert("courant_factor"@.len() != "quality_enabled"@.len());
        reveal_strlit("rule_step");
        assert("courant_factor"@.len() != "rule_step"@.len());
        reveal_strlit("sweep_start");
        assert("courant_factor"@.len() != "sweep_start"@.len());
        reveal_strlit("sweep_end");
        assert("courant_factor"@.len() != "sweep_end"@.len());
        reveal_strlit("maximum_trials");
        assert("courant_factor"@ != "maximum_trials"@) by { assert("courant_factor"@[0] != "maximum_trials"@[0]); }
        reveal_strlit("requested_threads");
        assert("courant_factor"@.len() != "requested_threads"@.len());
        reveal_strlit("minimum_routing_step");
        assert("courant_factor"@.len() != "minimum_routing_step"@.len());
        reveal_strlit("lengthening_step");
        assert("courant_factor"@.len() != "lengthening_step"@.len());
        reveal_strlit("antecedent_dry_duration");
        assert("courant_factor"@.len() != "antecedent_dry_duration"@.len());
    }
    assert forall|k: String, value: PyValue| k@ == "minimum_surface_area"@ && spec_option_float(value, k@) is Ok implies #[trigger] spec_apply_option(patch, Some(k), value) == Ok::<SimulationOptionsPatch, Seq<char>>(SimulationOptionsPatch { minimum_surface_area: Some((spec_option_float(value, k@)->Ok_0)), ..patch }) by {
        reveal_strlit("minimum_surface_area");
        reveal_strlit("routing_step");
        assert("minimum_surface_area"@.len() != "routing_step"@.len());
        reveal_strlit("report_step");
        assert("minimum_surface_area"@.len() != "report_step"@.len());
        reveal_strlit("detailed_reporting_enabled");
        assert("minimum_surface_area"@.len() != "detailed_reporting_enabled"@.len());
        reveal_strlit("custom_ellipse_model");
        assert("minimum_surface_area"@ != "custom_ellipse_model"@) by { assert("minimum_surface_area"@[0] != "custom_ellipse_model"@[0]); }
        reveal_strlit("surcharge_method");
        assert("minimum_surface_area"@.len() != "surcharge_method"@.len());
        reveal_strlit("allow_ponding");
        assert("minimum_surface_area"@.len() != "allow_ponding"@.len());
        reveal_strlit("inertia_damping");
        assert("minimum_surface_area"@.len() != "inertia_damping"@.len());
        reveal_strlit("normal_flow_limit");
        assert("minimum_surface_area"@.len() != "normal_flow_limit"@.len());
        reveal_strlit("skip_steady_state");
        assert("minimum_surface_area"@.len() != "skip_steady_state"@.len());
        reveal_strlit("rainfall_enabled");
        assert("minimum_surface_area"@.len() != "rainfall_enabled"@.len());
        reveal_strlit("rdii_enabled");
        assert("minimum_surface_area"@.len() != "rdii_enabled"@.len());
        reveal_strlit("snowmelt_enabled");
        assert("minimum_surface_area"@.len() != "snowmelt_enabled"@.len());
        reveal_strlit("groundwater_enabled");
        assert("minimum_surface_area"@.len() != "groundwater_enabled"@.len());
        reveal_strlit("routing_enabled");
        assert("minimum_surface_area"@.len() != "routing_enabled"@.len());
        reveal_strlit("quality_enabled");
        assert("minimum_surface_area"@.len() != "quality_enabled"@.len());
        reveal_strlit("rule_step");
        assert("minimum_surface_area"@.len() != "rule_step"@.len());
        reveal_strlit("sweep_start");
        assert("minimum_surface_area"@.len() != "sweep_start"@.len());
        reveal_strlit("sweep_end");
        assert("minimum_surface_area"@.len() != "sweep_end"@.len());
        reveal_strlit("maximum_trials");
        assert("minimum_surface_area"@.len() != "maximum_trials"@.len());
        reveal_strlit("requested_threads");
        assert("minimum_surface_area"@.len() != "requested_threads"@.len());
        reveal_strlit("minimum_routing_step");
        assert("minimum_surface_area"@ != "minimum_routing_step"@) by { assert("minimum_surface_area"@[8] != "minimum_routing_step"@[8]); }
        reveal_strlit("lengthening_step");
        assert("minimum_surface_area"@.len() != "lengthening_step"@.len());
        reveal_strlit("antecedent_dry_duration");
        assert("minimum_surface_area"@.len() != "antecedent_dry_duration"@.len());
        reveal_strlit("courant_factor");
        assert("minimum_surface_area"@.len() != "courant_factor"@.len());
    }
    assert forall|k: String, value: PyValue| k@ == "minimum_conduit_slope"@ && spec_option_float(value, k@) is Ok implies #[trigger] spec_apply_option(patch, Some(k), value) == Ok::<SimulationOptionsPatch, Seq<char>>(SimulationOptionsPatch { minimum_conduit_slope: Some((spec_option_float(value, k@)->Ok_0)), ..patch }) by {
        reveal_strlit("minimum_conduit_slope");
        reveal_strlit("routing_step");
        assert("minimum_conduit_slope"@.len() != "routing_step"@.len());
        reveal_strlit("report_step");
        assert("minimum_conduit_slope"@.len() != "report_step"@.len());
        reveal_strlit("detailed_reporting_enabled");
        assert("minimum_conduit_slope"@.len() != "detailed_reporting_enabled"@.len());
        reveal_strlit("custom_ellipse_model");
        assert("minimum_conduit_slope"@.len() != "custom_ellipse_model"@.len());
        reveal_strlit("surcharge_method");
        assert("minimum_conduit_slope"@.len() != "surcharge_method"@.len());
        reveal_strlit("allow_ponding");
        assert("minimum_conduit_slope"@.len() != "allow_ponding"@.len());
        reveal_strlit("inertia_damping");
        assert("minimum_conduit_slope"@.len() != "inertia_damping"@.len());
        reveal_strlit("normal_flow_limit");
        assert("minimum_conduit_slope"@.len() != "normal_flow_limit"@.len());
        reveal_strlit("skip_steady_state");
        assert("minimum_conduit_slope"@.len() != "skip_steady_state"@.len());
        reveal_strlit("rainfall_enabled");
        assert("minimum_conduit_slope"@.len() != "rainfall_enabled"@.len());
        reveal_strlit("rdii_enabled");
        assert("minimum_conduit_slope"@.len() != "rdii_enabled"@.len());
        reveal_strlit("snowmelt_enabled");
        assert("minimum_conduit_slope"@.len() != "snowmelt_enabled"@.len());
        reveal_strlit("groundwater_enabled");
        assert("minimum_conduit_slope"@.len() != "groundwater_enabled"@.len());
        reveal_strlit("routing_enabled");
        assert("minimum_conduit_slope"@.len() != "routing_enabled"@.len());
        reveal_strlit("quality_enabled");
        assert("minimum_conduit_slope"@.len() != "quality_enabled"@.len());
        reveal_strlit("rule_step");
        assert("minimum_conduit_slope"@.len() != "rule_step"@.len());
        reveal_strlit("sweep_start");
        assert("minimum_conduit_slope"@.len() != "sweep_start"@.len());
        reveal_strlit("sweep_end");
        assert("minimum_conduit_slope"@.len() != "sweep_end"@.len());
        reveal_strlit("maximum_trials");
        assert("minimum_conduit_slope"@.len() != "maximum_trials"@.len());
        reveal_strlit("requested_threads");
        assert("minimum_conduit_slope"@.len() != "requested_threads"@.len());
        reveal_strlit("minimum_routing_step");
        assert("minimum_conduit_slope"@.len() != "minimum_routing_step"@.len());
        reveal_strlit("lengthening_step");
        assert("minimum_conduit_slope"@.len() != "lengthening_step"@.len());
        reveal_strlit("antecedent_dry_duration");
        assert("minimum_conduit_slope"@.len() != "antecedent_dry_duration"@.len());
        reveal_strlit("courant_factor");
        assert("minimum_conduit_slope"@.len() != "courant_factor"@.len());
        reveal_strlit("minimum_surface_area");
        assert("minimum_conduit_slope"@.len() != "minimum_surface_area"@.len());
    }
}

/// The options patch after applying the first `n` changes in order, stopping at the first failure.
pub open spec fn spec_options_patch(changes: Seq<(Option<String>, PyValue)>, n: int) -> Result<
    SimulationOptionsPatch,
    Seq<char>,
>
    decreases n,
{
    if n <= 0 {
        Ok(spec_empty_options_patch())
    } else {
        match spec_options_patch(changes, n - 1) {
            Err(d) => Err(d),
            Ok(patch) => spec_apply_option(patch, changes[n - 1].0, changes[n - 1].1),
        }
    }
}

/// Applies one named option field to `patch`.
fn apply_option(patch: &mut SimulationOptionsPatch, key: &Option<String>, value: &PyValue) -> (result:
    Result<(), NativeError>)
    ensures
        match spec_apply_option(*old(patch), *key, *value) {
            Ok(p) => result is Ok && *final(patch) == p,
            Err(d) => result is Err && is_property_error(
                result->Err_0,
                "update_options",
                crate::error::ErrorCode::ApiPropertyValue,
                d,
            ),
        },
{
    let name = match key {
        Some(name) => name,
        None => {
            return Err(
                policy_py_error("update_options", String::from_str("option fields must be strings")),
            );
        },
    };
    let n = name.as_str();
    if str_eq(n, "routing_step") {
        match option_duration(value, n, false) { Ok(v) => { patch.routing_step_seconds = Some(v); }, Err(e) => { return Err(e); } }
    } else if str_eq(n, "report_step") {
        let v = match option_duration(value, n, true) { Ok(v) => v, Err(e) => { return Err(e); } };
        match step_seconds(v, n) { Ok(s) => { patch.report_step_seconds = Some(s); }, Err(e) => { return Err(e); } }
    } else if str_eq(n, "detailed_reporting_enabled") {
        match option_bool(value, n) { Ok(v) => { patch.detailed_reporting_enabled = Some(v); }, Err(e) => { return Err(e); } }
    } else if str_eq(n, "custom_ellipse_model") {
        let v = match option_enum(value, n, PublicType::CustomEllipseModel) { Ok(v) => v, Err(e) => { return Err(e); } };
        match parse_custom_ellipse_model(v.as_str()) { Some(m) => { patch.custom_ellipse_model = Some(m); }, None => { return Err(policy_py_error("update_options", String::from_str("custom_ellipse_model is not supported"))); } }
    } else if str_eq(n, "surcharge_method") {
        let v = match option_enum(value, n, PublicType::SurchargeMethod) { Ok(v) => v, Err(e) => { return Err(e); } };
        match parse_surcharge_method(v.as_str()) { Some(m) => { patch.surcharge_method = Some(m); }, None => { return Err(policy_py_error("update_options", String::from_str("surcharge_method is not supported"))); } }
    } else if str_eq(n, "allow_ponding") {
        match option_bool(value, n) { Ok(v) => { patch.allow_ponding = Some(v); }, Err(e) => { return Err(e); } }
    } else if str_eq(n, "inertia_damping") {
        let v = match option_enum(value, n, PublicType::InertiaDamping) { Ok(v) => v, Err(e) => { return Err(e); } };
        match parse_inertia_damping(v.as_str()) { Some(m) => { patch.inertia_damping = Some(m); }, None => { return Err(policy_py_error("update_options", String::from_str("inertia_damping is not supported"))); } }
    } else if str_eq(n, "normal_flow_limit") {
        let v = match option_enum(value, n, PublicType::NormalFlowLimit) { Ok(v) => v, Err(e) => { return Err(e); } };
        match parse_normal_flow_limit(v.as_str()) { Some(m) => { patch.normal_flow_limit = Some(m); }, None => { return Err(policy_py_error("update_options", String::from_str("normal_flow_limit is not supported"))); } }
    } else if str_eq(n, "skip_steady_state") {
        match option_bool(value, n) { Ok(v) => { patch.skip_steady_state = Some(v); }, Err(e) => { return Err(e); } }
    } else if str_eq(n, "rainfall_enabled") {
        match option_bool(value, n) { Ok(v) => { patch.rainfall_enabled = Some(v); }, Err(e) => { return Err(e); } }
    } else if str_eq(n, "rdii_enabled") {
        match option_bool(value, n) { Ok(v) => { patch.rdii_enabled = Some(v); }, Err(e) => { return Err(e); } }
    } else if str_eq(n, "snowmelt_enabled") {
        match option_bool(value, n) { Ok(v) => { patch.snowmelt_enabled = Some(v); }, Err(e) => { return Err(e); } }
    } else if str_eq(n, "groundwater_enabled") {
        match option_bool(value, n) { Ok(v) => { patch.groundwater_enabled = Some(v); }, Err(e) => { return Err(e); } }
    } else if str_eq(n, "routing_enabled") {
        match option_bool(value, n) { Ok(v) => { patch.routing_enabled = Some(v); }, Err(e) => { return Err(e); } }
    } else if str_eq(n, "quality_enabled") {
        match option_bool(value, n) { Ok(v) => { patch.quality_enabled = Some(v); }, Err(e) => { return Err(e); } }
    } else if str_eq(n, "rule_step") {
        let v = match option_duration(value, n, true) { Ok(v) => v, Err(e) => { return Err(e); } };
        match step_seconds(v, n) { Ok(s) => { patch.rule_step_seconds = Some(s); }, Err(e) => { return Err(e); } }
    } else if str_eq(n, "sweep_start") {
        match option_sweep_day(value, n) { Ok(v) => { patch.sweep_start = Some(v); }, Err(e) => { return Err(e); } }
    } else if str_eq(n, "sweep_end") {
        match option_sweep_day(value, n) { Ok(v) => { patch.sweep_end = Some(v); }, Err(e) => { return Err(e); } }
    } else if str_eq(n, "maximum_trials") {
        match option_integer(value, n) { Ok(v) => { patch.maximum_trials = Some(v); }, Err(e) => { return Err(e); } }
    } else if str_eq(n, "requested_threads") {
        match option_integer(value, n) { Ok(v) => { patch.requested_threads = Some(v); }, Err(e) => { return Err(e); } }
    } else if str_eq(n, "minimum_routing_step") {
        match option_duration(value, n, false) { Ok(v) => { patch.minimum_routing_step_seconds = Some(v); }, Err(e) => { return Err(e); } }
    } else if str_eq(n, "lengthening_step") {
        match option_duration(value, n, false) { Ok(v) => { patch.lengthening_step_seconds = Some(v); }, Err(e) => { return Err(e); } }
    } else if str_eq(n, "antecedent_dry_duration") {
        match option_duration(value, n, false) { Ok(v) => { patch.antecedent_dry_seconds = Some(v); }, Err(e) => { return Err(e); } }
    } else if str_eq(n, "courant_factor") {
        match option_float(value, n) { Ok(v) => { patch.courant_factor = Some(v); }, Err(e) => { return Err(e); } }
    } else if str_eq(n, "minimum_surface_area") {
        match option_float(value, n) { Ok(v) => { patch.minimum_surface_area = Some(v); }, Err(e) => { return Err(e); } }
    } else if str_eq(n, "minimum_conduit_slope") {
        match option_float(value, n) { Ok(v) => { patch.minimum_conduit_slope = Some(v); }, Err(e) => { return Err(e); } }
    } else {
        let detail = String::from_str("unknown or read-only option field: ").concat(n);
        return Err(policy_py_error("update_options", detail));
    }
    Ok(())
}

/// A failure while applying changes is the failure of the whole patch.
pub proof fn lemma_options_patch_failure(changes: Seq<(Option<String>, PyValue)>, i: int, n: int)
    requires
        0 <= i <= n,
        spec_options_patch(changes, i) is Err,
    ensures
        spec_options_patch(changes, n) == spec_options_patch(changes, i),
    decreases n - i,
{
    if n > i {
        lemma_options_patch_failure(changes, i, n - 1);
    }
}

/// Extracts a sparse simulation-options patch from raw `(field, value)` changes in mapping order.
pub fn extract_options_patch(changes: &Vec<(Option<String>, PyValue)>) -> (result: Result<
    SimulationOptionsPatch,
    NativeError,
>)
    ensures
        spec_policy_outcome(
            result,
            spec_options_patch(changes@, changes@.len() as int),
            "update_options",
        ),
{
    let mut patch = SimulationOptionsPatch {
        routing_step_seconds: None,
        report_step_seconds: None,
        detailed_reporting_enabled: None,
        custom_ellipse_model: None,
        surcharge_method: None,
        allow_ponding: None,
        inertia_damping: None,
        normal_flow_limit: None,
        skip_steady_state: None,
        rainfall_enabled: None,
        rdii_enabled: None,
        snowmelt_enabled: None,
        groundwater_enabled: None,
        routing_enabled: None,
        quality_enabled: None,
        rule_step_seconds: None,
        sweep_start: None,
        sweep_end: None,
        maximum_trials: None,
        requested_threads: None,
        minimum_routing_step_seconds: None,
        lengthening_step_seconds: None,
        antecedent_dry_seconds: None,
        courant_factor: None,
        minimum_surface_area: None,
        minimum_conduit_slope: None,
    };
    let mut i: usize = 0;
    while i < changes.len()
        invariant
            i <= changes@.len(),
            spec_options_patch(changes@, i as int) == Ok::<SimulationOptionsPatch, Seq<char>>(patch),
        decreases changes@.len() - i,
    {
        let (key, value) = &changes[i];
        match apply_option(&mut patch, key, value) {
            Ok(()) => {},
            Err(error) => {
                proof {
                    lemma_options_patch_failure(changes@, i as int + 1, changes@.len() as int);
                }
                return Err(error);
            },
        }
        i = i + 1;
    }
    Ok(patch)
}

} // verus!
