use vstd::prelude::*;
use vstd::string::*;

use crate::convert::{
    lenient_number, related_live_view, spec_keys, spec_lenient_number, spec_refusal_outcome, spec_related,
    take_keys, Refusal,
};
use crate::error::{policy_py_error, ErrorCode, NativeError, SwmmError};
use crate::owner::{spec_attached, HandleState, NativeSimulation, Reported};
use crate::policy::spec_policy_outcome;
use crate::text::str_eq;
use crate::value::{Number, ObjectType, PyValue, RelatedObject};
use crate::views::{spec_field_update_checked, spec_field_view};

verus! {

/// Creates one validation error for unit-hydrograph updates.
pub fn rtk_py_error(detail: &str) -> (raised: NativeError)
    ensures
        crate::error::is_property_error(raised, "update_unit_hydrograph", ErrorCode::ApiPropertyValue, detail@),
{
    policy_py_error("update_unit_hydrograph", String::from_str(detail))
}

/// Extracts one non-boolean numeric unit-hydrograph value.
pub fn rtk_float(value: &PyValue, name: &str) -> (result: Result<Number, NativeError>)
    ensures
        spec_policy_outcome(result, spec_lenient_number(*value, name@), "update_unit_hydrograph"),
{
    lenient_number(value, name, "update_unit_hydrograph")
}

/// One RTK response: its six parameters in the native tuple order.
#[derive(Clone, Copy, Debug, PartialEq, Eq, Structural)]
pub struct UnitHydrographResponseConfiguration {
    pub rainfall_fraction: Number,
    pub time_to_peak_hours: Number,
    pub recession_ratio: Number,
    pub maximum_initial_abstraction: Number,
    pub initial_abstraction_recovery_rate: Number,
    pub initial_abstraction_at_start: Number,
}

/// The short-, medium- and long-term responses of one month.
#[derive(Clone, Copy, Debug, PartialEq, Eq, Structural)]
pub struct ResponseMonth {
    pub short_term: UnitHydrographResponseConfiguration,
    pub medium_term: UnitHydrographResponseConfiguration,
    pub long_term: UnitHydrographResponseConfiguration,
}

/// One RTK response in its native six-parameter tuple format.
pub open spec fn spec_extract_response(value: PyValue) -> Result<UnitHydrographResponseConfiguration, Seq<char>> {
    match value {
        PyValue::Tuple(items) => {
            let t = items@;
            if t.len() != 6 {
                Err("each response must contain six parameters"@)
            } else {
                match spec_lenient_number(t[0], "rainfall_fraction"@) {
                    Err(d) => Err(d),
                    Ok(rainfall_fraction) => match spec_lenient_number(t[1], "time_to_peak_hours"@) {
                        Err(d) => Err(d),
                        Ok(time_to_peak_hours) => match spec_lenient_number(t[2], "recession_ratio"@) {
                            Err(d) => Err(d),
                            Ok(recession_ratio) => match spec_lenient_number(t[3], "maximum_initial_abstraction"@) {
                                Err(d) => Err(d),
                                Ok(maximum_initial_abstraction) => match spec_lenient_number(t[4], "initial_abstraction_recovery_rate"@) {
                                    Err(d) => Err(d),
                                    Ok(initial_abstraction_recovery_rate) => match spec_lenient_number(t[5], "initial_abstraction_at_start"@) {
                                        Err(d) => Err(d),
                                        Ok(initial_abstraction_at_start) => Ok(UnitHydrographResponseConfiguration {
                                            rainfall_fraction,
                                            time_to_peak_hours,
                                            recession_ratio,
                                            maximum_initial_abstraction,
                                            initial_abstraction_recovery_rate,
                                            initial_abstraction_at_start,
                                        }),
                                    },
                                },
                            },
                        },
                    },
                }
            }
        },
        _ => Err("each response must use the native tuple format"@),
    }
}

/// A response's parameters are the numbers of its tuple's items, in the declared order: rainfall
/// fraction, time to peak, recession ratio, maximum initial abstraction, initial abstraction
/// recovery rate and initial abstraction at start; a six-item tuple of numbers is always accepted.
pub proof fn lemma_response_fields_follow_the_tuple(items: Vec<PyValue>)
    ensures
        spec_extract_response(PyValue::Tuple(items)) is Ok ==> {
            let r = spec_extract_response(PyValue::Tuple(items))->Ok_0;
            let t = items@;
            &&& t.len() == 6
            &&& spec_lenient_number(t[0], "rainfall_fraction"@) == Ok::<Number, Seq<char>>(r.rainfall_fraction)
            &&& spec_lenient_number(t[1], "time_to_peak_hours"@) == Ok::<Number, Seq<char>>(r.time_to_peak_hours)
            &&& spec_lenient_number(t[2], "recession_ratio"@) == Ok::<Number, Seq<char>>(r.recession_ratio)
            &&& spec_lenient_number(t[3], "maximum_initial_abstraction"@) == Ok::<Number, Seq<char>>(r.maximum_initial_abstraction)
            &&& spec_lenient_number(t[4], "initial_abstraction_recovery_rate"@) == Ok::<Number, Seq<char>>(r.initial_abstraction_recovery_rate)
            &&& spec_lenient_number(t[5], "initial_abstraction_at_start"@) == Ok::<Number, Seq<char>>(r.initial_abstraction_at_start)
        },
        (items@.len() == 6 && forall|k: int| 0 <= k < 6 ==> #[trigger] spec_lenient_number(items@[k], ""@) is Ok)
            ==> spec_extract_response(PyValue::Tuple(items)) is Ok,
{
    if items@.len() == 6 && forall|k: int| 0 <= k < 6 ==> #[trigger] spec_lenient_number(items@[k], ""@) is Ok {
        assert(spec_lenient_number(items@[0], ""@) is Ok);
        assert(spec_lenient_number(items@[1], ""@) is Ok);
        assert(spec_lenient_number(items@[2], ""@) is Ok);
        assert(spec_lenient_number(items@[3], ""@) is Ok);
        assert(spec_lenient_number(items@[4], ""@) is Ok);
        assert(spec_lenient_number(items@[5], ""@) is Ok);
    }
}

/// Extracts one RTK response from its native six-parameter tuple format.
pub fn extract_response(value: &PyValue) -> (result: Result<UnitHydrographResponseConfiguration, NativeError>)
    ensures
        spec_policy_outcome(result, spec_extract_response(*value), "update_unit_hydrograph"),
{
    let items = match value {
        PyValue::Tuple(items) => items,
        _ => {
            return Err(rtk_py_error("each response must use the native tuple format"));
        },
    };
    if items.len() != 6 {
        return Err(rtk_py_error("each response must contain six parameters"));
    }
    let rainfall_fraction = match rtk_float(&items[0], "rainfall_fraction") {
        Ok(n) => n,
        Err(e) => {
            return Err(e);
        },
    };
    let time_to_peak_hours = match rtk_float(&items[1], "time_to_peak_hours") {
        Ok(n) => n,
        Err(e) => {
            return Err(e);
        },
    };
    let recession_ratio = match rtk_float(&items[2], "recession_ratio") {
        Ok(n) => n,
        Err(e) => {
            return Err(e);
        },
    };
    let maximum_initial_abstraction = match rtk_float(&items[3], "maximum_initial_abstraction") {
        Ok(n) => n,
        Err(e) => {
            return Err(e);
        },
    };
    let initial_abstraction_recovery_rate = match rtk_float(&items[4], "initial_abstraction_recovery_rate") {
        Ok(n) => n,
        Err(e) => {
            return Err(e);
        },
    };
    let initial_abstraction_at_start = match rtk_float(&items[5], "initial_abstraction_at_start") {
        Ok(n) => n,
        Err(e) => {
            return Err(e);
        },
    };
    Ok(UnitHydrographResponseConfiguration {
        rainfall_fraction,
        time_to_peak_hours,
        recession_ratio,
        maximum_initial_abstraction,
        initial_abstraction_recovery_rate,
        initial_abstraction_at_start,
    })
}

/// The responses extracted from the first `n` items of a month.
pub open spec fn spec_responses_of(items: Seq<PyValue>, n: int) -> Result<Seq<UnitHydrographResponseConfiguration>, Seq<char>>
    decreases n,
{
    if n <= 0 {
        Ok(Seq::empty())
    } else {
        match spec_responses_of(items, n - 1) {
            Err(d) => Err(d),
            Ok(v) => match spec_extract_response(items[n - 1]) {
                Err(d) => Err(d),
                Ok(r) => Ok(v.push(r)),
            },
        }
    }
}

/// Once a response is refused, every longer prefix is refused the same way.
pub proof fn lemma_responses_refusal(items: Seq<PyValue>, i: int, n: int)
    requires
        0 <= i <= n,
        spec_responses_of(items, i) is Err,
    ensures
        spec_responses_of(items, n) == spec_responses_of(items, i),
    decreases n - i,
{
    if n > i {
        lemma_responses_refusal(items, i, n - 1);
    }
}

/// The month that exactly three responses make, in short, medium, long order.
pub open spec fn spec_response_month(responses: Seq<UnitHydrographResponseConfiguration>) -> Result<ResponseMonth, Seq<char>> {
    if responses.len() == 3 {
        Ok(ResponseMonth { short_term: responses[0], medium_term: responses[1], long_term: responses[2] })
    } else {
        Err("each month must contain short, medium, and long responses"@)
    }
}

/// One month of an RTK unit hydrograph: an iterable of responses (the keys of a `dict`; a
/// `str`'s or string-enum member's one-character items are never responses).
pub open spec fn spec_extract_response_month(value: PyValue) -> Result<ResponseMonth, Seq<char>> {
    match value {
        PyValue::Tuple(items) => match spec_responses_of(items@, items@.len() as int) {
            Err(d) => Err(d),
            Ok(r) => spec_response_month(r),
        },
        PyValue::List(items) => match spec_responses_of(items@, items@.len() as int) {
            Err(d) => Err(d),
            Ok(r) => spec_response_month(r),
        },
        PyValue::Dict(items) => match spec_responses_of(spec_keys(items@), items@.len() as int) {
            Err(d) => Err(d),
            Ok(r) => spec_response_month(r),
        },
        PyValue::Enum { value: s, .. } => if s@.len() == 0 {
            spec_response_month(Seq::empty())
        } else {
            Err("each response must use the native tuple format"@)
        },
        PyValue::Str(s) => if s@.len() == 0 {
            spec_response_month(Seq::empty())
        } else {
            Err("each response must use the native tuple format"@)
        },
        _ => Err("each month must be iterable"@),
    }
}

/// Extracts every response of a month's items, in order.
fn responses_of(items: &Vec<PyValue>) -> (result: Result<Vec<UnitHydrographResponseConfiguration>, NativeError>)
    ensures
        match spec_responses_of(items@, items@.len() as int) {
            Ok(v) => result is Ok && result->Ok_0@ == v,
            Err(d) => result is Err && crate::error::is_property_error(
                result->Err_0,
                "update_unit_hydrograph",
                ErrorCode::ApiPropertyValue,
                d,
            ),
        },
{
    let mut responses: Vec<UnitHydrographResponseConfiguration> = Vec::new();
    let mut i: usize = 0;
    while i < items.len()
        invariant
            i <= items@.len(),
            spec_responses_of(items@, i as int) == Ok::<Seq<UnitHydrographResponseConfiguration>, Seq<char>>(responses@),
        decreases items@.len() - i,
    {
        match extract_response(&items[i]) {
            Ok(r) => {
                responses.push(r);
            },
            Err(e) => {
                proof {
                    lemma_responses_refusal(items@, i + 1, items@.len() as int);
                }
                return Err(e);
            },
        }
        i = i + 1;
    }
    Ok(responses)
}

/// Extracts every response among the keys of a mapping, in order.
fn responses_of_keys(items: &Vec<(PyValue, PyValue)>) -> (result: Result<Vec<UnitHydrographResponseConfiguration>, NativeError>)
    ensures
        match spec_responses_of(spec_keys(items@), items@.len() as int) {
            Ok(v) => result is Ok && result->Ok_0@ == v,
            Err(d) => result is Err && crate::error::is_property_error(
                result->Err_0,
                "update_unit_hydrograph",
                ErrorCode::ApiPropertyValue,
                d,
            ),
        },
{
    let ghost keys = spec_keys(items@);
    let mut responses: Vec<UnitHydrographResponseConfiguration> = Vec::new();
    let mut i: usize = 0;
    while i < items.len()
        invariant
            i <= items@.len(),
            keys == spec_keys(items@),
            spec_responses_of(keys, i as int) == Ok::<Seq<UnitHydrographResponseConfiguration>, Seq<char>>(responses@),
        decreases items@.len() - i,
    {
        assert(keys[i as int] == items@[i as int].0);
        match extract_response(&items[i].0) {
            Ok(r) => {
                responses.push(r);
            },
            Err(e) => {
                proof {
                    lemma_responses_refusal(keys, i + 1, items@.len() as int);
                }
                return Err(e);
            },
        }
        i = i + 1;
    }
    Ok(responses)
}

/// Builds the month of exactly three responses.
fn response_month(responses: Vec<UnitHydrographResponseConfiguration>) -> (result: Result<ResponseMonth, NativeError>)
    ensures
        spec_policy_outcome(result, spec_response_month(responses@), "update_unit_hydrograph"),
{
    if responses.len() != 3 {
        return Err(rtk_py_error("each month must contain short, medium, and long responses"));
    }
    Ok(ResponseMonth { short_term: responses[0], medium_term: responses[1], long_term: responses[2] })
}

/// The responses read from a month's first `n` items are those items' responses, one for each
/// item and in the items' order.
pub proof fn lemma_responses_follow_the_items(items: Seq<PyValue>, n: int)
    requires
        0 <= n,
    ensures
        spec_responses_of(items, n) is Ok ==> {
            let v = spec_responses_of(items, n)->Ok_0;
            &&& v.len() == n
            &&& forall|k: int| 0 <= k < n ==> spec_extract_response(#[trigger] items[k]) == Ok::<UnitHydrographResponseConfiguration, Seq<char>>(v[k])
        },
    decreases n,
{
    if n > 0 {
        lemma_responses_follow_the_items(items, n - 1);
    }
}

/// A month given as a tuple or a list holds exactly three responses, and its short, medium and long
/// term responses are those of its first, second and third items.
pub proof fn lemma_month_keeps_response_order(items: Vec<PyValue>)
    ensures
        spec_extract_response_month(PyValue::Tuple(items)) == spec_extract_response_month(PyValue::List(items)),
        spec_extract_response_month(PyValue::Tuple(items)) is Ok ==> {
            let m = spec_extract_response_month(PyValue::Tuple(items))->Ok_0;
            let t = items@;
            &&& t.len() == 3
            &&& spec_extract_response(t[0]) == Ok::<UnitHydrographResponseConfiguration, Seq<char>>(m.short_term)
            &&& spec_extract_response(t[1]) == Ok::<UnitHydrographResponseConfiguration, Seq<char>>(m.medium_term)
            &&& spec_extract_response(t[2]) == Ok::<UnitHydrographResponseConfiguration, Seq<char>>(m.long_term)
        },
{
    lemma_responses_follow_the_items(items@, items@.len() as int);
}

/// Extracts one month of an RTK unit hydrograph.
pub fn extract_response_month(value: &PyValue) -> (result: Result<ResponseMonth, NativeError>)
    ensures
        spec_policy_outcome(result, spec_extract_response_month(*value), "update_unit_hydrograph"),
{
    match value {
        PyValue::Tuple(items) => match responses_of(items) {
            Err(e) => Err(e),
            Ok(r) => response_month(r),
        },
        PyValue::List(items) => match responses_of(items) {
            Err(e) => Err(e),
            Ok(r) => response_month(r),
        },
        PyValue::Dict(items) => match responses_of_keys(items) {
            Err(e) => Err(e),
            Ok(r) => response_month(r),
        },
        PyValue::Enum { value: s, .. } => {
            if s.as_str().is_empty() {
                response_month(Vec::new())
            } else {
                Err(rtk_py_error("each response must use the native tuple format"))
            }
        },
        PyValue::Str(s) => {
            if s.as_str().is_empty() {
                response_month(Vec::new())
            } else {
                Err(rtk_py_error("each response must use the native tuple format"))
            }
        },
        _ => Err(rtk_py_error("each month must be iterable")),
    }
}

/// The months extracted from the first `n` items of an iterable.
pub open spec fn spec_months_of(items: Seq<PyValue>, n: int) -> Result<Seq<ResponseMonth>, Seq<char>>
    decreases n,
{
    if n <= 0 {
        Ok(Seq::empty())
    } else {
        match spec_months_of(items, n - 1) {
            Err(d) => Err(d),
            Ok(v) => match spec_extract_response_month(items[n - 1]) {
                Err(d) => Err(d),
                Ok(m) => Ok(v.push(m)),
            },
        }
    }
}

/// Once a month is refused, every longer prefix is refused the same way.
pub proof fn lemma_months_refusal(items: Seq<PyValue>, i: int, n: int)
    requires
        0 <= i <= n,
        spec_months_of(items, i) is Err,
    ensures
        spec_months_of(items, n) == spec_months_of(items, i),
    decreases n - i,
{
    if n > i {
        lemma_months_refusal(items, i, n - 1);
    }
}

/// Exactly twelve months.
pub open spec fn spec_twelve_months(months: Seq<ResponseMonth>) -> Result<Seq<ResponseMonth>, Seq<char>> {
    if months.len() == 12 {
        Ok(months)
    } else {
        Err("monthly_responses must contain 12 months"@)
    }
}

/// The twelve months of an RTK unit hydrograph: an iterable of months (the keys of a `dict`;
/// a `str`'s or string-enum member's one-character items are never months).
pub open spec fn spec_extract_monthly_responses(value: PyValue) -> Result<Seq<ResponseMonth>, Seq<char>> {
    match value {
        PyValue::Tuple(items) => match spec_months_of(items@, items@.len() as int) {
            Err(d) => Err(d),
            Ok(m) => spec_twelve_months(m),
        },
        PyValue::List(items) => match spec_months_of(items@, items@.len() as int) {
            Err(d) => Err(d),
            Ok(m) => spec_twelve_months(m),
        },
        PyValue::Dict(items) => match spec_months_of(spec_keys(items@), items@.len() as int) {
            Err(d) => Err(d),
            Ok(m) => spec_twelve_months(m),
        },
        PyValue::Enum { value: s, .. } => if s@.len() == 0 {
            spec_twelve_months(Seq::empty())
        } else {
            Err("each response must use the native tuple format"@)
        },
        PyValue::Str(s) => if s@.len() == 0 {
            spec_twelve_months(Seq::empty())
        } else {
            Err("each response must use the native tuple format"@)
        },
        _ => Err("monthly_responses must be iterable"@),
    }
}

/// Extracts every month of an iterable, in order.
fn months_of(items: &Vec<PyValue>) -> (result: Result<Vec<ResponseMonth>, NativeError>)
    ensures
        match spec_months_of(items@, items@.len() as int) {
            Ok(v) => result is Ok && result->Ok_0@ == v,
            Err(d) => result is Err && crate::error::is_property_error(
                result->Err_0,
                "update_unit_hydrograph",
                ErrorCode::ApiPropertyValue,
                d,
            ),
        },
{
    let mut months: Vec<ResponseMonth> = Vec::new();
    let mut i: usize = 0;
    while i < items.len()
        invariant
            i <= items@.len(),
            spec_months_of(items@, i as int) == Ok::<Seq<ResponseMonth>, Seq<char>>(months@),
        decreases items@.len() - i,
    {
        match extract_response_month(&items[i]) {
            Ok(m) => {
                months.push(m);
            },
            Err(e) => {
                proof {
                    lemma_months_refusal(items@, i + 1, items@.len() as int);
                }
                return Err(e);
            },
        }
        i = i + 1;
    }
    Ok(months)
}

/// Extracts every month among the keys of a mapping, in order.
fn months_of_keys(items: &Vec<(PyValue, PyValue)>) -> (result: Result<Vec<ResponseMonth>, NativeError>)
    ensures
        match spec_months_of(spec_keys(items@), items@.len() as int) {
            Ok(v) => result is Ok && result->Ok_0@ == v,
            Err(d) => result is Err && crate::error::is_property_error(
                result->Err_0,
                "update_unit_hydrograph",
                ErrorCode::ApiPropertyValue,
                d,
            ),
        },
{
    let ghost keys = spec_keys(items@);
    let mut months: Vec<ResponseMonth> = Vec::new();
    let mut i: usize = 0;
    while i < items.len()
        invariant
            i <= items@.len(),
            keys == spec_keys(items@),
            spec_months_of(keys, i as int) == Ok::<Seq<ResponseMonth>, Seq<char>>(months@),
        decreases items@.len() - i,
    {
        assert(keys[i as int] == items@[i as int].0);
        match extract_response_month(&items[i].0) {
            Ok(m) => {
                months.push(m);
            },
            Err(e) => {
                proof {
                    lemma_months_refusal(keys, i + 1, items@.len() as int);
                }
                return Err(e);
            },
        }
        i = i + 1;
    }
    Ok(months)
}

/// Builds the year of exactly twelve months.
fn twelve_months(months: Vec<ResponseMonth>) -> (result: Result<[ResponseMonth; 12], NativeError>)
    ensures
        match spec_twelve_months(months@) {
            Ok(v) => result is Ok && result->Ok_0@ == v,
            Err(d) => result is Err && crate::error::is_property_error(
                result->Err_0,
                "update_unit_hydrograph",
                ErrorCode::ApiPropertyValue,
                d,
            ),
        },
{
    if months.len() != 12 {
        return Err(rtk_py_error("monthly_responses must contain 12 months"));
    }
    let year = [
        months[0],
        months[1],
        months[2],
        months[3],
        months[4],
        months[5],
        months[6],
        months[7],
        months[8],
        months[9],
        months[10],
        months[11],
    ];
    assert(year@ =~= months@);
    Ok(year)
}

/// Extracts the twelve months of an RTK unit hydrograph.
pub fn extract_monthly_responses(value: &PyValue) -> (result: Result<[ResponseMonth; 12], NativeError>)
    ensures
        match spec_extract_monthly_responses(*value) {
            Ok(v) => result is Ok && result->Ok_0@ == v,
            Err(d) => result is Err && crate::error::is_property_error(
                result->Err_0,
                "update_unit_hydrograph",
                ErrorCode::ApiPropertyValue,
                d,
            ),
        },
{
    match value {
        PyValue::Tuple(items) => match months_of(items) {
            Err(e) => Err(e),
            Ok(m) => twelve_months(m),
        },
        PyValue::List(items) => match months_of(items) {
            Err(e) => Err(e),
            Ok(m) => twelve_months(m),
        },
        PyValue::Dict(items) => match months_of_keys(items) {
            Err(e) => Err(e),
            Ok(m) => twelve_months(m),
        },
        PyValue::Enum { value: s, .. } => {
            if s.as_str().is_empty() {
                twelve_months(Vec::new())
            } else {
                Err(rtk_py_error("each response must use the native tuple format"))
            }
        },
        PyValue::Str(s) => {
            if s.as_str().is_empty() {
                twelve_months(Vec::new())
            } else {
                Err(rtk_py_error("each response must use the native tuple format"))
            }
        },
        _ => Err(rtk_py_error("monthly_responses must be iterable")),
    }
}

/// The six parameters of one response, in the native tuple order.
pub open spec fn spec_response_values(r: UnitHydrographResponseConfiguration) -> Seq<Number> {
    seq![
        r.rainfall_fraction,
        r.time_to_peak_hours,
        r.recession_ratio,
        r.maximum_initial_abstraction,
        r.initial_abstraction_recovery_rate,
        r.initial_abstraction_at_start,
    ]
}

/// Converts one response to its six parameters, in the native tuple order.
pub fn response_values(r: UnitHydrographResponseConfiguration) -> (values: Vec<Number>)
    ensures
        values@ == spec_response_values(r),
{
    vec![
        r.rainfall_fraction,
        r.time_to_peak_hours,
        r.recession_ratio,
        r.maximum_initial_abstraction,
        r.initial_abstraction_recovery_rate,
        r.initial_abstraction_at_start,
    ]
}

/// A sparse unit-hydrograph patch; the rain gage is given by its configured index.
#[derive(Debug)]
pub struct UnitHydrographPatch {
    pub monthly_responses: Option<[ResponseMonth; 12]>,
    pub rain_gage_index: Option<usize>,
}

/// Every supplied unit-hydrograph setting, with its rain gage not validated yet.
#[derive(Debug)]
pub struct UnitHydrographUpdate {
    pub patch: UnitHydrographPatch,
    pub rain_gage: Option<RelatedObject>,
}

/// The settings a unit-hydrograph update holds, its months as a sequence.
pub struct UnitHydrographUpdateView {
    pub monthly_responses: Option<Seq<ResponseMonth>>,
    pub rain_gage_index: Option<usize>,
    pub rain_gage: Option<RelatedObject>,
}

impl View for UnitHydrographUpdate {
    type V = UnitHydrographUpdateView;

    open spec fn view(&self) -> UnitHydrographUpdateView {
        UnitHydrographUpdateView {
            monthly_responses: match self.patch.monthly_responses {
                Some(m) => Some(m@),
                None => None,
            },
            rain_gage_index: self.patch.rain_gage_index,
            rain_gage: self.rain_gage,
        }
    }
}

/// The empty unit-hydrograph update.
pub open spec fn spec_empty_unit_hydrograph_update() -> UnitHydrographUpdateView {
    UnitHydrographUpdateView {
        monthly_responses: None,
        rain_gage_index: None,
        rain_gage: None,
    }
}

/// `update` with one supplied `(key, value)` unit-hydrograph setting applied.
pub open spec fn spec_apply_unit_hydrograph_change(u: UnitHydrographUpdateView, key: Option<String>, value: PyValue) -> Result<
    UnitHydrographUpdateView,
    Refusal,
> {
    match key {
        None => Err(Refusal::Detail("unit-hydrograph update fields must be strings"@)),
        Some(k) => {
            let name = k@;
            if name == "rain_gage"@ {
                match spec_related(value) {
                    Err(e) => Err(Refusal::Raised(e)),
                    Ok(r) => Ok(UnitHydrographUpdateView { rain_gage: r, ..u }),
                }
            } else if name == "monthly_responses"@ {
                match spec_extract_monthly_responses(value) {
                    Err(d) => Err(Refusal::Detail(d)),
                    Ok(v) => Ok(UnitHydrographUpdateView { monthly_responses: Some(v), ..u }),
                }
            } else {
                Err(Refusal::Detail("unknown unit-hydrograph field: "@ + name))
            }
        },
    }
}

/// Each supported unit-hydrograph setting lands in its own field of the update, taking the value read from what was supplied for it, and nothing else changes.
pub proof fn lemma_unit_hydrograph_settings_land_in_their_fields(u: UnitHydrographUpdateView)
    ensures
        forall|k: String, value: PyValue| k@ == "rain_gage"@ && spec_related(value) is Ok ==> #[trigger] spec_apply_unit_hydrograph_change(u, Some(k), value) == Ok::<UnitHydrographUpdateView, Refusal>(UnitHydrographUpdateView { rain_gage: (spec_related(value)->Ok_0), ..u }),
        forall|k: String, value: PyValue| k@ == "monthly_responses"@ && spec_extract_monthly_responses(value) is Ok ==> #[trigger] spec_apply_unit_hydrograph_change(u, Some(k), value) == Ok::<UnitHydrographUpdateView, Refusal>(UnitHydrographUpdateView { monthly_responses: Some((spec_extract_monthly_responses(value)->Ok_0)), ..u }),
{
    assert forall|k: String, value: PyValue| k@ == "rain_gage"@ && spec_related(value) is Ok implies #[trigger] spec_apply_unit_hydrograph_change(u, Some(k), value) == Ok::<UnitHydrographUpdateView, Refusal>(UnitHydrographUpdateView { rain_gage: (spec_related(value)->Ok_0), ..u }) by {
        reveal_strlit("rain_gage");
    }
    assert forall|k: String, value: PyValue| k@ == "monthly_responses"@ && spec_extract_monthly_responses(value) is Ok implies #[trigger] spec_apply_unit_hydrograph_change(u, Some(k), value) == Ok::<UnitHydrographUpdateView, Refusal>(UnitHydrographUpdateView { monthly_responses: Some((spec_extract_monthly_responses(value)->Ok_0)), ..u }) by {
        reveal_strlit("monthly_responses");
        reveal_strlit("rain_gage");
        assert("monthly_responses"@.len() != "rain_gage"@.len());
    }
}

/// The update built from the first `n` supplied unit-hydrograph settings.
pub open spec fn spec_unit_hydrograph_update(changes: Seq<(Option<String>, PyValue)>, n: int) -> Result<UnitHydrographUpdateView, Refusal>
    decreases n,
{
    if n <= 0 {
        Ok(spec_empty_unit_hydrograph_update())
    } else {
        match spec_unit_hydrograph_update(changes, n - 1) {
            Err(r) => Err(r),
            Ok(u) => spec_apply_unit_hydrograph_change(u, changes[n - 1].0, changes[n - 1].1),
        }
    }
}

/// Once a unit-hydrograph setting is refused, every longer prefix is refused the same way.
pub proof fn lemma_unit_hydrograph_update_refusal(changes: Seq<(Option<String>, PyValue)>, i: int, n: int)
    requires
        0 <= i <= n,
        spec_unit_hydrograph_update(changes, i) is Err,
    ensures
        spec_unit_hydrograph_update(changes, n) == spec_unit_hydrograph_update(changes, i),
    decreases n - i,
{
    if n > i {
        lemma_unit_hydrograph_update_refusal(changes, i, n - 1);
    }
}

/// `result`, viewed, is the outcome `spec` for `update_unit_hydrograph`.
pub open spec fn spec_unit_hydrograph_outcome(result: Result<UnitHydrographUpdate, NativeError>, spec: Result<UnitHydrographUpdateView, Refusal>) -> bool {
    match spec {
        Ok(v) => result is Ok && result->Ok_0@ == v,
        Err(r) => crate::convert::spec_refusal_raised(result, r, "update_unit_hydrograph"),
    }
}

/// Applies one supplied `(key, value)` unit-hydrograph setting to `update`.
fn apply_unit_hydrograph_change(update: UnitHydrographUpdate, key: Option<String>, value: PyValue) -> (result: Result<
    UnitHydrographUpdate,
    NativeError,
>)
    ensures
        spec_unit_hydrograph_outcome(result, spec_apply_unit_hydrograph_change(update@, key, value)),
{
    let name = match key {
        Some(k) => k,
        None => {
            return Err(rtk_py_error("unit-hydrograph update fields must be strings"));
        },
    };
    let n = name.as_str();
    let mut u = update;
    if str_eq(n, "rain_gage") {
        match related_live_view(value) {
            Err(e) => Err(e),
            Ok(r) => {
                u.rain_gage = r;
                Ok(u)
            },
        }
    } else if str_eq(n, "monthly_responses") {
        match extract_monthly_responses(&value) {
            Err(e) => Err(e),
            Ok(v) => {
                u.patch.monthly_responses = Some(v);
                Ok(u)
            },
        }
    } else {
        Err(crate::error::native_error(
            "update_unit_hydrograph",
            SwmmError::with_detail(ErrorCode::ApiPropertyValue, String::from_str("unknown unit-hydrograph field: ").concat(n)),
        ))
    }
}

/// Extracts every supplied unit-hydrograph setting without touching solver state.
///
/// `changes` are the supplied `(key, value)` pairs in mapping order, a key that is not a `str`
/// given as `None`.
pub fn extract_unit_hydrograph_update(changes: Vec<(Option<String>, PyValue)>) -> (result: Result<UnitHydrographUpdate, NativeError>)
    ensures
        spec_unit_hydrograph_outcome(result, spec_unit_hydrograph_update(changes@, changes@.len() as int)),
{
    let count: usize = changes.len();
    let ghost all = changes@;
    let mut remaining = changes;
    let mut update = UnitHydrographUpdate {
        patch: UnitHydrographPatch {
            monthly_responses: None,
            rain_gage_index: None,
        },
        rain_gage: None,
    };
    let mut taken: usize = 0;
    proof {
        assert(remaining@ =~= all.skip(0));
    }
    while taken < count
        invariant
            count == all.len(),
            all == changes@,
            taken <= count,
            remaining@ == all.skip(taken as int),
            spec_unit_hydrograph_update(all, taken as int) == Ok::<UnitHydrographUpdateView, Refusal>(update@),
        decreases count - taken,
    {
        let (key, value) = remaining.remove(0);
        proof {
            assert(remaining@ =~= all.skip(taken + 1));
            assert(all[taken as int] == (key, value));
        }
        let ghost before = update@;
        match apply_unit_hydrograph_change(update, key, value) {
            Ok(next) => {
                update = next;
            },
            Err(e) => {
                proof {
                    assert(spec_unit_hydrograph_update(all, taken + 1) == spec_apply_unit_hydrograph_change(
                        before,
                        all[taken as int].0,
                        all[taken as int].1,
                    ));
                    lemma_unit_hydrograph_update_refusal(all, taken + 1, count as int);
                }
                return Err(e);
            },
        }
        taken = taken + 1;
    }
    Ok(update)
}

/// `result` is what checking `update` against the configured objects gives: a supplied rain gage is validated as a gage and the patch takes its captured index.
pub open spec fn spec_unit_hydrograph_patch<F: Fn(&RelatedObject, ObjectType, &'static str) -> Result<usize, SwmmError>>(
    validate: F,
    update: UnitHydrographUpdate,
    result: Result<UnitHydrographPatch, SwmmError>,
) -> bool {
    &&& update.rain_gage is None ==> result == Ok::<UnitHydrographPatch, SwmmError>(update.patch)
    &&& update.rain_gage is Some ==> exists|o: Result<usize, SwmmError>|
        {
            &&& call_ensures(validate, (&update.rain_gage->0, ObjectType::Gage, "rain_gage"), o)
            &&& o matches Err(e) ==> result == Err::<UnitHydrographPatch, SwmmError>(e)
            &&& o is Ok ==> result == Ok::<UnitHydrographPatch, SwmmError>(
                UnitHydrographPatch { rain_gage_index: Some((update.rain_gage->0).index), ..update.patch },
            )
        }
}

/// The outcomes that checking a `UnitHydrographUpdate` against the configured objects can give.
pub open spec fn spec_unit_hydrograph_check<F: Fn(&RelatedObject, ObjectType, &'static str) -> Result<usize, SwmmError>>(
    validate: F,
) -> spec_fn(UnitHydrographUpdate, Result<UnitHydrographPatch, SwmmError>) -> bool {
    |update: UnitHydrographUpdate, result: Result<UnitHydrographPatch, SwmmError>| spec_unit_hydrograph_patch(validate, update, result)
}

impl UnitHydrographUpdate {
    /// Validates the rain gage as a gage and builds the unit-hydrograph patch, which takes the rain
    /// gage's captured index.
    pub fn into_patch<F: Fn(&RelatedObject, ObjectType, &'static str) -> Result<usize, SwmmError>>(
        self,
        validate: &F,
    ) -> (result: Result<UnitHydrographPatch, SwmmError>)
        requires
            forall|r: &RelatedObject, t: ObjectType, n: &'static str| call_requires(*validate, (r, t, n)),
        ensures
            spec_unit_hydrograph_patch(*validate, self, result),
    {
        let UnitHydrographUpdate { mut patch, rain_gage } = self;
        match rain_gage {
            None => Ok(patch),
            Some(r) => match crate::convert::resolve_required(validate, &r, ObjectType::Gage, "rain_gage") {
                Err(e) => Err(e),
                Ok(_) => {
                    patch.rain_gage_index = Some(r.index);
                    Ok(patch)
                },
            },
        }
    }
}

/// Creates one RDII assignment failure.
pub fn assignment_error(detail: &str) -> (error: SwmmError)
    ensures
        crate::error::swmm_error_is(error, ErrorCode::ApiPropertyValue, detail@),
{
    SwmmError::with_str(ErrorCode::ApiPropertyValue, detail)
}

/// Creates one validation error for RDII assignment replacement.
pub fn assignment_py_error(detail: &str) -> (raised: NativeError)
    ensures
        crate::error::is_property_error(raised, "replace_rdii_assignments", ErrorCode::ApiPropertyValue, detail@),
{
    crate::error::native_error("replace_rdii_assignments", assignment_error(detail))
}

/// The area of an RDII assignment: a non-boolean number.
pub open spec fn spec_assignment_float(value: PyValue) -> Result<Number, Seq<char>> {
    match value {
        PyValue::Bool(_) => Err("area must not be bool"@),
        _ => match spec_lenient_number(value, "area"@) {
            Ok(n) => Ok(n),
            Err(_) => Err("area must be numeric"@),
        },
    }
}

/// Extracts the area of an RDII assignment.
pub fn assignment_float(value: &PyValue) -> (result: Result<Number, NativeError>)
    ensures
        spec_policy_outcome(result, spec_assignment_float(*value), "replace_rdii_assignments"),
{
    if let PyValue::Bool(_) = value {
        return Err(assignment_py_error("area must not be bool"));
    }
    match lenient_number(value, "area", "replace_rdii_assignments") {
        Ok(n) => Ok(n),
        Err(_) => Err(assignment_py_error("area must be numeric")),
    }
}

/// One RDII assignment whose node and unit hydrograph are not validated yet.
#[derive(Debug)]
pub struct RdiiAssignmentUpdate {
    pub node: RelatedObject,
    pub unit_hydrograph: RelatedObject,
    pub area: Number,
}

/// One resolved RDII assignment.
#[derive(Clone, Copy, Debug, PartialEq, Eq, Structural)]
pub struct RdiiAssignmentConfiguration {
    pub node_index: usize,
    pub unit_hydrograph_index: usize,
    pub area: Number,
}

/// One RDII assignment in its `(node, unit_hydrograph, area)` tuple format.
pub open spec fn spec_extract_assignment(value: PyValue) -> Result<RdiiAssignmentUpdate, Refusal> {
    match value {
        PyValue::Tuple(parts) => if parts@.len() != 3 {
            Err(Refusal::Detail("each assignment must contain node, unit_hydrograph, and area"@))
        } else {
            match spec_related(parts@[0]) {
                Err(e) => Err(Refusal::Raised(e)),
                Ok(None) => Err(Refusal::Detail("node must be a Live View"@)),
                Ok(Some(node)) => match spec_related(parts@[1]) {
                    Err(e) => Err(Refusal::Raised(e)),
                    Ok(None) => Err(Refusal::Detail("unit_hydrograph must be a Live View"@)),
                    Ok(Some(unit_hydrograph)) => match spec_assignment_float(parts@[2]) {
                        Err(d) => Err(Refusal::Detail(d)),
                        Ok(area) => Ok(RdiiAssignmentUpdate { node, unit_hydrograph, area }),
                    },
                },
            }
        },
        _ => Err(Refusal::Detail("each assignment must be a tuple"@)),
    }
}

/// An RDII assignment keeps its tuple's parts in their places: the node is the object that the
/// first part names, the unit hydrograph the one that the second names, and the area the number
/// of the third.
pub proof fn lemma_rdii_assignment_keeps_its_parts(parts: Vec<PyValue>)
    ensures
        spec_extract_assignment(PyValue::Tuple(parts)) is Ok ==> {
            let x = spec_extract_assignment(PyValue::Tuple(parts))->Ok_0;
            let t = parts@;
            &&& t.len() == 3
            &&& spec_related(t[0]) == Ok::<Option<RelatedObject>, NativeError>(Some(x.node))
            &&& spec_related(t[1]) == Ok::<Option<RelatedObject>, NativeError>(Some(x.unit_hydrograph))
            &&& spec_assignment_float(t[2]) == Ok::<Number, Seq<char>>(x.area)
        },
{
}

/// Extracts one RDII assignment from its `(node, unit_hydrograph, area)` tuple format.
pub fn extract_assignment(value: PyValue) -> (result: Result<RdiiAssignmentUpdate, NativeError>)
    ensures
        spec_refusal_outcome(result, spec_extract_assignment(value), "replace_rdii_assignments"),
{
    match value {
        PyValue::Tuple(parts) => {
            if parts.len() != 3 {
                return Err(assignment_py_error("each assignment must contain node, unit_hydrograph, and area"));
            }
            let ghost p = parts@;
            let mut parts = parts;
            let first = parts.remove(0);
            let second = parts.remove(0);
            assert(first == p[0] && second == p[1] && parts@[0] == p[2]);
            let node = match related_live_view(first) {
                Err(e) => {
                    return Err(e);
                },
                Ok(None) => {
                    return Err(assignment_py_error("node must be a Live View"));
                },
                Ok(Some(r)) => r,
            };
            let unit_hydrograph = match related_live_view(second) {
                Err(e) => {
                    return Err(e);
                },
                Ok(None) => {
                    return Err(assignment_py_error("unit_hydrograph must be a Live View"));
                },
                Ok(Some(r)) => r,
            };
            match assignment_float(&parts[0]) {
                Err(e) => Err(e),
                Ok(area) => Ok(RdiiAssignmentUpdate { node, unit_hydrograph, area }),
            }
        },
        _ => Err(assignment_py_error("each assignment must be a tuple")),
    }
}

/// The assignments extracted from the first `n` items of an iterable.
pub open spec fn spec_assignments_of(items: Seq<PyValue>, n: int) -> Result<Seq<RdiiAssignmentUpdate>, Refusal>
    decreases n,
{
    if n <= 0 {
        Ok(Seq::empty())
    } else {
        match spec_assignments_of(items, n - 1) {
            Err(r) => Err(r),
            Ok(v) => match spec_extract_assignment(items[n - 1]) {
                Err(r) => Err(r),
                Ok(a) => Ok(v.push(a)),
            },
        }
    }
}

/// Once an assignment is refused, every longer prefix is refused the same way.
pub proof fn lemma_assignments_refusal(items: Seq<PyValue>, i: int, n: int)
    requires
        0 <= i <= n,
        spec_assignments_of(items, i) is Err,
    ensures
        spec_assignments_of(items, n) == spec_assignments_of(items, i),
    decreases n - i,
{
    if n > i {
        lemma_assignments_refusal(items, i, n - 1);
    }
}

/// The assignments of an iterable value: a tuple or list of assignments, the keys of a
/// `dict`, or a `str` or string-enum member (whose one-character items are never assignments).
pub open spec fn spec_extract_assignments(value: PyValue) -> Result<Seq<RdiiAssignmentUpdate>, Refusal> {
    match value {
        PyValue::Tuple(items) => spec_assignments_of(items@, items@.len() as int),
        PyValue::List(items) => spec_assignments_of(items@, items@.len() as int),
        PyValue::Dict(items) => spec_assignments_of(spec_keys(items@), items@.len() as int),
        PyValue::Enum { value: s, .. } => if s@.len() == 0 {
            Ok(Seq::empty())
        } else {
            Err(Refusal::Detail("each assignment must be a tuple"@))
        },
        PyValue::Str(s) => if s@.len() == 0 {
            Ok(Seq::empty())
        } else {
            Err(Refusal::Detail("each assignment must be a tuple"@))
        },
        _ => Err(Refusal::Detail("assignments must be iterable"@)),
    }
}

/// `result`, viewed, is the outcome `spec` for `replace_rdii_assignments`.
pub open spec fn spec_assignments_outcome(
    result: Result<Vec<RdiiAssignmentUpdate>, NativeError>,
    spec: Result<Seq<RdiiAssignmentUpdate>, Refusal>,
) -> bool {
    match spec {
        Ok(v) => result is Ok && result->Ok_0@ == v,
        Err(r) => crate::convert::spec_refusal_raised(result, r, "replace_rdii_assignments"),
    }
}

/// Extracts every assignment of a sequence of items, in order.
fn assignments_of(items: Vec<PyValue>) -> (result: Result<Vec<RdiiAssignmentUpdate>, NativeError>)
    ensures
        spec_assignments_outcome(result, spec_assignments_of(items@, items@.len() as int)),
{
    let count: usize = items.len();
    let ghost all = items@;
    let mut remaining = items;
    let mut assignments: Vec<RdiiAssignmentUpdate> = Vec::new();
    let mut taken: usize = 0;
    proof {
        assert(remaining@ =~= all.skip(0));
    }
    while taken < count
        invariant
            count == all.len(),
            all == items@,
            taken <= count,
            remaining@ == all.skip(taken as int),
            spec_assignments_of(all, taken as int) == Ok::<Seq<RdiiAssignmentUpdate>, Refusal>(assignments@),
        decreases count - taken,
    {
        let item = remaining.remove(0);
        proof {
            assert(remaining@ =~= all.skip(taken + 1));
            assert(all[taken as int] == item);
        }
        match extract_assignment(item) {
            Ok(a) => {
                assignments.push(a);
            },
            Err(e) => {
                proof {
                    lemma_assignments_refusal(all, taken + 1, count as int);
                }
                return Err(e);
            },
        }
        taken = taken + 1;
    }
    Ok(assignments)
}

/// Extracts every RDII assignment of an iterable, in order.
pub fn extract_assignments(value: PyValue) -> (result: Result<Vec<RdiiAssignmentUpdate>, NativeError>)
    ensures
        spec_assignments_outcome(result, spec_extract_assignments(value)),
{
    match value {
        PyValue::Tuple(items) => assignments_of(items),
        PyValue::List(items) => assignments_of(items),
        PyValue::Dict(items) => {
            let keys = take_keys(items);
            assignments_of(keys)
        },
        PyValue::Enum { value: s, .. } => {
            if s.as_str().is_empty() {
                Ok(Vec::new())
            } else {
                Err(assignment_py_error("each assignment must be a tuple"))
            }
        },
        PyValue::Str(s) => {
            if s.as_str().is_empty() {
                Ok(Vec::new())
            } else {
                Err(assignment_py_error("each assignment must be a tuple"))
            }
        },
        _ => Err(assignment_py_error("assignments must be iterable")),
    }
}

/// `out` is what validating one assignment gives: its node as a node, then its unit hydrograph as a unit
/// hydrograph; the assignment takes their captured indices.
pub open spec fn spec_assignment_resolved<
    F: Fn(&RelatedObject, ObjectType, &'static str) -> Result<usize, SwmmError>,
>(validate: F, a: RdiiAssignmentUpdate, out: Result<RdiiAssignmentConfiguration, SwmmError>) -> bool {
    exists|o: Result<usize, SwmmError>|
        {
            &&& #[trigger] call_ensures(validate, (&a.node, ObjectType::Node, "node"), o)
            &&& o matches Err(e) ==> out == Err::<RdiiAssignmentConfiguration, SwmmError>(e)
            &&& o is Ok ==> exists|p: Result<usize, SwmmError>|
                {
                    &&& #[trigger] call_ensures(validate, (&a.unit_hydrograph, ObjectType::Unithyd, "unit_hydrograph"), p)
                    &&& p matches Err(e) ==> out == Err::<RdiiAssignmentConfiguration, SwmmError>(e)
                    &&& p is Ok ==> out == Ok::<RdiiAssignmentConfiguration, SwmmError>(
                        RdiiAssignmentConfiguration {
                            node_index: a.node.index,
                            unit_hydrograph_index: a.unit_hydrograph.index,
                            area: a.area,
                        },
                    )
                }
        }
}

/// `result` is what checking `updates` against the configured objects gives: every
/// assignment's node and unit hydrograph validated in order, the configured assignments built,
/// and the first failure returned.
pub open spec fn spec_assignments_resolved<F: Fn(&RelatedObject, ObjectType, &'static str) -> Result<usize, SwmmError>>(
    validate: F,
    updates: Seq<RdiiAssignmentUpdate>,
    result: Result<Vec<RdiiAssignmentConfiguration>, SwmmError>,
) -> bool {
    &&& result is Ok ==> {
        &&& result->Ok_0@.len() == updates.len()
        &&& forall|i: int|
            0 <= i < updates.len() ==> spec_assignment_resolved(
                validate,
                #[trigger] updates[i],
                Ok::<RdiiAssignmentConfiguration, SwmmError>(result->Ok_0@[i]),
            )
    }
    &&& result is Err ==> exists|done: Seq<RdiiAssignmentConfiguration>|
        {
            &&& 0 <= done.len() < updates.len()
            &&& forall|i: int|
                0 <= i < done.len() ==> spec_assignment_resolved(
                    validate,
                    #[trigger] updates[i],
                    Ok::<RdiiAssignmentConfiguration, SwmmError>(done[i]),
                )
            &&& spec_assignment_resolved(
                validate,
                updates[done.len() as int],
                Err::<RdiiAssignmentConfiguration, SwmmError>(result->Err_0),
            )
        }
}

/// Validates every assignment's node and unit hydrograph, in order, and builds the configured
/// assignments; the first failure is returned.
pub fn resolve_assignments<F: Fn(&RelatedObject, ObjectType, &'static str) -> Result<usize, SwmmError>>(
    assignments: &Vec<RdiiAssignmentUpdate>,
    validate: &F,
) -> (result: Result<Vec<RdiiAssignmentConfiguration>, SwmmError>)
    requires
        forall|r: &RelatedObject, t: ObjectType, n: &'static str| call_requires(*validate, (r, t, n)),
    ensures
        spec_assignments_resolved(*validate, assignments@, result),
{
    let mut resolved: Vec<RdiiAssignmentConfiguration> = Vec::new();
    let mut i: usize = 0;
    while i < assignments.len()
        invariant
            forall|r: &RelatedObject, t: ObjectType, n: &'static str| call_requires(*validate, (r, t, n)),
            i <= assignments@.len(),
            resolved@.len() == i,
            forall|j: int|
                0 <= j < i ==> spec_assignment_resolved(
                    *validate,
                    #[trigger] assignments@[j],
                    Ok::<RdiiAssignmentConfiguration, SwmmError>(resolved@[j]),
                ),
        decreases assignments@.len() - i,
    {
        let a = &assignments[i];
        let node = crate::convert::resolve_required(validate, &a.node, ObjectType::Node, "node");
        let ghost gn = node;
        match node {
            Err(e) => {
                assert(spec_assignment_resolved(*validate, assignments@[i as int], Err::<RdiiAssignmentConfiguration, SwmmError>(e)));
                assert(resolved@.len() == i);
                return Err(e);
            },
            Ok(_) => {},
        }
        let unit_hydrograph = crate::convert::resolve_required(validate, &a.unit_hydrograph, ObjectType::Unithyd, "unit_hydrograph");
        let ghost gm = unit_hydrograph;
        match unit_hydrograph {
            Err(e) => {
                assert(spec_assignment_resolved(*validate, assignments@[i as int], Err::<RdiiAssignmentConfiguration, SwmmError>(e)));
                assert(resolved@.len() == i);
                return Err(e);
            },
            Ok(_) => {},
        }
        let configuration = RdiiAssignmentConfiguration {
            node_index: a.node.index,
            unit_hydrograph_index: a.unit_hydrograph.index,
            area: a.area,
        };
        assert(spec_assignment_resolved(*validate, *a, Ok::<RdiiAssignmentConfiguration, SwmmError>(configuration)));
        resolved.push(configuration);
        i = i + 1;
    }
    Ok(resolved)
}

/// The configured rain gage of a unit hydrograph, which must still be available.
pub fn unit_hydrograph_rain_gage<I>(identity: Option<I>) -> (result: Result<I, SwmmError>)
    ensures
        identity is Some ==> result == Ok::<I, SwmmError>(identity->0),
        identity is None ==> result is Err && crate::error::swmm_error_is(
            result->Err_0,
            ErrorCode::ApiPropertyValue,
            "configured unit-hydrograph rain gage is unavailable"@,
        ),
{
    match identity {
        Some(i) => Ok(i),
        None => Err(SwmmError::with_str(ErrorCode::ApiPropertyValue, "configured unit-hydrograph rain gage is unavailable")),
    }
}

/// `out` is what looking up one configured assignment's node and unit hydrograph gives.
pub open spec fn spec_assignment_identities<
    I,
    N: Fn(usize) -> Result<Option<I>, SwmmError>,
    D: Fn(usize) -> Result<Option<I>, SwmmError>,
>(node: N, unit_hydrograph: D, a: RdiiAssignmentConfiguration, out: Result<(I, I, Number), SwmmError>) -> bool {
    exists|n: Result<Option<I>, SwmmError>|
        {
            &&& #[trigger] call_ensures(node, (a.node_index,), n)
            &&& n matches Err(e) ==> out == Err::<(I, I, Number), SwmmError>(e)
            &&& n == Ok::<Option<I>, SwmmError>(None) ==> out is Err && crate::error::swmm_error_is(
                out->Err_0,
                ErrorCode::ApiPropertyValue,
                "configured RDII node is unavailable"@,
            )
            &&& n matches Ok(Some(ni)) ==> exists|m: Result<Option<I>, SwmmError>|
                {
                    &&& #[trigger] call_ensures(unit_hydrograph, (a.unit_hydrograph_index,), m)
                    &&& m matches Err(e) ==> out == Err::<(I, I, Number), SwmmError>(e)
                    &&& m == Ok::<Option<I>, SwmmError>(None) ==> out is Err && crate::error::swmm_error_is(
                        out->Err_0,
                        ErrorCode::ApiPropertyValue,
                        "configured RDII unit hydrograph is unavailable"@,
                    )
                    &&& m matches Ok(Some(mi)) ==> out == Ok::<(I, I, Number), SwmmError>((ni, mi, a.area))
                }
        }
}

/// Looks up the node and unit hydrograph identities of every configured assignment, in order; the first
/// failure is returned.
pub fn rdii_assignment_identities<
    I,
    N: Fn(usize) -> Result<Option<I>, SwmmError>,
    D: Fn(usize) -> Result<Option<I>, SwmmError>,
>(assignments: &Vec<RdiiAssignmentConfiguration>, node: &N, unit_hydrograph: &D) -> (result: Result<
    Vec<(I, I, Number)>,
    SwmmError,
>)
    requires
        forall|i: usize| call_requires(*node, (i,)),
        forall|i: usize| call_requires(*unit_hydrograph, (i,)),
    ensures
        result is Ok ==> {
            &&& result->Ok_0@.len() == assignments@.len()
            &&& forall|i: int|
                0 <= i < assignments@.len() ==> spec_assignment_identities(
                    *node,
                    *unit_hydrograph,
                    #[trigger] assignments@[i],
                    Ok::<(I, I, Number), SwmmError>(result->Ok_0@[i]),
                )
        },
        result is Err ==> exists|done: Seq<(I, I, Number)>|
            {
                &&& 0 <= done.len() < assignments@.len()
                &&& forall|i: int|
                    0 <= i < done.len() ==> spec_assignment_identities(
                        *node,
                        *unit_hydrograph,
                        #[trigger] assignments@[i],
                        Ok::<(I, I, Number), SwmmError>(done[i]),
                    )
                &&& spec_assignment_identities(
                    *node,
                    *unit_hydrograph,
                    assignments@[done.len() as int],
                    Err::<(I, I, Number), SwmmError>(result->Err_0),
                )
            },
{
    let mut found: Vec<(I, I, Number)> = Vec::new();
    let mut i: usize = 0;
    while i < assignments.len()
        invariant
            forall|k: usize| call_requires(*node, (k,)),
            forall|k: usize| call_requires(*unit_hydrograph, (k,)),
            i <= assignments@.len(),
            found@.len() == i,
            forall|j: int|
                0 <= j < i ==> spec_assignment_identities(
                    *node,
                    *unit_hydrograph,
                    #[trigger] assignments@[j],
                    Ok::<(I, I, Number), SwmmError>(found@[j]),
                ),
        decreases assignments@.len() - i,
    {
        let a = assignments[i];
        let n = node(a.node_index);
        let ghost gn = n;
        assert(call_ensures(*node, (a.node_index,), gn));
        let ni = match n {
            Err(e) => {
                assert(spec_assignment_identities(*node, *unit_hydrograph, assignments@[i as int], Err::<(I, I, Number), SwmmError>(e)));
                return Err(e);
            },
            Ok(None) => {
                let e = assignment_error("configured RDII node is unavailable");
                assert(spec_assignment_identities(*node, *unit_hydrograph, assignments@[i as int], Err::<(I, I, Number), SwmmError>(e)));
                return Err(e);
            },
            Ok(Some(ni)) => ni,
        };
        let m = unit_hydrograph(a.unit_hydrograph_index);
        let ghost gm = m;
        assert(call_ensures(*unit_hydrograph, (a.unit_hydrograph_index,), gm));
        let mi = match m {
            Err(e) => {
                assert(spec_assignment_identities(*node, *unit_hydrograph, assignments@[i as int], Err::<(I, I, Number), SwmmError>(e)));
                return Err(e);
            },
            Ok(None) => {
                let e = assignment_error("configured RDII unit hydrograph is unavailable");
                assert(spec_assignment_identities(*node, *unit_hydrograph, assignments@[i as int], Err::<(I, I, Number), SwmmError>(e)));
                return Err(e);
            },
            Ok(Some(mi)) => mi,
        };
        assert(spec_assignment_identities(*node, *unit_hydrograph, assignments@[i as int], Ok::<(I, I, Number), SwmmError>((ni, mi, a.area))));
        found.push((ni, mi, a.area));
        i = i + 1;
    }
    Ok(found)
}
impl NativeSimulation {

    /// Reads the configuration of a unit hydrograph and its rain gage.
    pub fn unit_hydrograph_configuration<S, T, M: FnOnce() -> Result<bool, SwmmError>, R: FnOnce(()) -> Result<T, SwmmError>>(
        &self,
        generation: u64,
        subtype: Option<S>,
        matches: M,
        read: R,
    ) -> (result: Result<T, NativeError>)
        requires
            call_requires(matches, ()),
            call_requires(read, ((),)),
        ensures
            spec_field_view(*self, "unit_hydrograph_configuration", generation, subtype, Ok::<(), NativeError>(()), matches, read, result),
    {
        self.field_view("unit_hydrograph_configuration", generation, subtype, Ok(()), matches, read)
    }

    /// Atomically updates one unit hydrograph from raw Python values.
    ///
    /// Once the view's identity is confirmed, the rain gage is validated (`validate`, through
    /// `UnitHydrographUpdate::into_patch`); only a checked patch reaches `apply`.
    pub fn update_unit_hydrograph<S, M: FnOnce() -> Result<bool, SwmmError>, A: FnOnce(UnitHydrographPatch) -> Reported<()>, F: Fn(&RelatedObject, ObjectType, &'static str) -> Result<usize, SwmmError>>(
        &mut self,
        generation: u64,
        subtype: Option<S>,
        changes: Vec<(Option<String>, PyValue)>,
        matches: M,
        validate: &F,
        apply: A,
    ) -> (result: Result<(), NativeError>)
        requires
            call_requires(matches, ()),
            forall|r: &RelatedObject, t: ObjectType, n: &'static str| call_requires(*validate, (r, t, n)),
            forall|x: UnitHydrographPatch| call_requires(apply, (x,)),
        ensures
            exists|p: Result<UnitHydrographUpdate, NativeError>|
                {
                    &&& spec_unit_hydrograph_outcome(p, spec_unit_hydrograph_update(changes@, changes@.len() as int))
                    &&& spec_field_update_checked(*old(self), *final(self), "update_unit_hydrograph", generation, subtype, p, matches, spec_unit_hydrograph_check(*validate), apply, result)
                },
            old(self).wf() ==> final(self).wf(),
    {
        let payload = extract_unit_hydrograph_update(changes);
        let check = |u: UnitHydrographUpdate| -> (c: Result<UnitHydrographPatch, SwmmError>)
            requires
                forall|r: &RelatedObject, t: ObjectType, n: &'static str| call_requires(*validate, (r, t, n)),
            ensures
                spec_unit_hydrograph_patch(*validate, u, c),
            { u.into_patch(validate) };
        self.field_update_checked("update_unit_hydrograph", generation, subtype, payload, matches, check, Ghost(spec_unit_hydrograph_check(*validate)), apply)
    }

    /// Copies every configured RDII assignment of the active Project Generation.
    pub fn rdii_assignments<T, F: FnOnce() -> Result<T, SwmmError>>(&self, generation: u64, read: F) -> (result:
        Result<T, NativeError>)
        requires
            call_requires(read, ()),
        ensures
            !self.spec_generation_active(generation) ==> result == Err::<T, NativeError>(
                NativeError::Stale { operation: "rdii_assignments" },
            ),
            self.spec_generation_active(generation) ==> exists|r: Result<T, SwmmError>|
                call_ensures(read, (), r) && spec_attached("rdii_assignments", r, result),
    {
        if !self.is_active_generation(generation) {
            return Err(NativeError::Stale { operation: "rdii_assignments" });
        }
        let values = read();
        let ghost r = values;
        let result = self.attached("rdii_assignments", values);
        assert(call_ensures(read, (), r) && spec_attached("rdii_assignments", r, result));
        result
    }

    /// Atomically replaces every RDII assignment from raw Python values: the assignments are
    /// extracted, the Project Generation checked, then every node and unit-hydrograph view is
    /// validated (`validate`, through `resolve_assignments`); only when all pass does `apply`
    /// receive the configured assignments.
    pub fn replace_rdii_assignments<
        F: Fn(&RelatedObject, ObjectType, &'static str) -> Result<usize, SwmmError>,
        A: FnOnce(Vec<RdiiAssignmentConfiguration>) -> Reported<()>,
    >(
        &mut self,
        generation: u64,
        assignments: PyValue,
        validate: &F,
        apply: A,
    ) -> (result: Result<(), NativeError>)
        requires
            forall|r: &RelatedObject, t: ObjectType, n: &'static str| call_requires(*validate, (r, t, n)),
            forall|x: Vec<RdiiAssignmentConfiguration>| call_requires(apply, (x,)),
        ensures
            exists|p: Result<Vec<RdiiAssignmentUpdate>, NativeError>|
                {
                    &&& spec_assignments_outcome(p, spec_extract_assignments(assignments))
                    &&& p matches Err(e) ==> result == Err::<(), NativeError>(e) && *final(self) == *old(self)
                    &&& p is Ok && !old(self).spec_generation_active(generation) ==> result == Err::<
                        (),
                        NativeError,
                    >(NativeError::Stale { operation: "replace_rdii_assignments" }) && *final(self) == *old(self)
                    &&& p is Ok && old(self).spec_generation_active(generation) ==> exists|v: Result<Vec<RdiiAssignmentConfiguration>, SwmmError>|
                        {
                            &&& spec_assignments_resolved(*validate, p->Ok_0@, v)
                            &&& v matches Err(e) ==> result == Err::<(), NativeError>(
                                NativeError::Native { operation: "replace_rdii_assignments", error: e },
                            ) && *final(self) == *old(self)
                            &&& v is Ok ==> exists|r: Reported<()>|
                                {
                                    &&& call_ensures(apply, (v->Ok_0,), r)
                                    &&& spec_attached("replace_rdii_assignments", r.result, result)
                                    &&& final(self).handle == (HandleState { lifecycle: r.lifecycle, ..old(self).handle })
                                    &&& final(self).iterator_state == old(self).iterator_state
                                    &&& final(self).test_concurrency == old(self).test_concurrency
                                    &&& final(self).next_phase == old(self).next_phase
                                }
                        }
                },
            old(self).wf() ==> final(self).wf(),
    {
        let ghost original = assignments;
        let extracted = extract_assignments(assignments);
        let ghost gp = extracted;
        assert(spec_assignments_outcome(gp, spec_extract_assignments(original)));
        let updates = match extracted {
            Ok(v) => v,
            Err(e) => {
                return Err(e);
            },
        };
        if !self.is_active_generation(generation) {
            return Err(NativeError::Stale { operation: "replace_rdii_assignments" });
        }
        let resolved = resolve_assignments(&updates, validate);
        let ghost gv = resolved;
        assert(spec_assignments_resolved(*validate, updates@, gv));
        let configured = match resolved {
            Err(error) => {
                return Err(crate::error::native_error("replace_rdii_assignments", error));
            },
            Ok(c) => c,
        };
        let ghost gc = configured;
        let reported = apply(configured);
        let ghost r = reported;
        assert(call_ensures(apply, (gc,), r));
        self.handle.lifecycle = reported.lifecycle;
        let result = self.attached("replace_rdii_assignments", reported.result);
        assert(spec_attached("replace_rdii_assignments", r.result, result));
        result
    }
}

} // verus!

