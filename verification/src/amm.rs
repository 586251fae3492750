use vstd::prelude::*;
use vstd::string::*;

use crate::convert::{
    lenient_number, related_live_view, spec_lenient_number, spec_refusal_outcome, spec_related,
    spec_keys, spec_text, take_keys, text_of, Refusal,
};
use crate::error::{policy_py_error, ErrorCode, NativeError, SwmmError};
use crate::owner::{spec_attached, HandleState, NativeSimulation, Reported};
use crate::policy::spec_policy_outcome;
use crate::text::str_eq;
use crate::value::{Number, ObjectType, PyValue, RelatedObject};
use crate::views::{spec_field_update_checked, spec_field_view};

verus! {

/// Creates one validation error for AMM model updates.
pub fn amm_py_error(detail: &str) -> (raised: NativeError)
    ensures
        crate::error::is_property_error(raised, "update_amm_model", ErrorCode::ApiPropertyValue, detail@),
{
    policy_py_error("update_amm_model", String::from_str(detail))
}

/// Extracts one non-boolean numeric AMM value.
pub fn amm_float(value: &PyValue, name: &str) -> (result: Result<Number, NativeError>)
    ensures
        spec_policy_outcome(result, spec_lenient_number(*value, name@), "update_amm_model"),
{
    lenient_number(value, name, "update_amm_model")
}

/// Creates one AMM assignment failure.
pub fn assignment_error(detail: &str) -> (error: SwmmError)
    ensures
        crate::error::swmm_error_is(error, ErrorCode::ApiPropertyValue, detail@),
{
    SwmmError::with_str(ErrorCode::ApiPropertyValue, detail)
}

/// Creates one validation error for AMM assignment replacement.
pub fn assignment_py_error(detail: &str) -> (raised: NativeError)
    ensures
        crate::error::is_property_error(raised, "replace_amm_assignments", ErrorCode::ApiPropertyValue, detail@),
{
    crate::error::native_error("replace_amm_assignments", assignment_error(detail))
}

/// The area of an AMM assignment: a non-boolean number.
pub open spec fn spec_assignment_float(value: PyValue) -> Result<Number, Seq<char>> {
    match value {
        PyValue::Bool(_) => Err("area must not be bool"@),
        _ => match spec_lenient_number(value, "area"@) {
            Ok(n) => Ok(n),
            Err(_) => Err("area must be numeric"@),
        },
    }
}

/// Extracts the area of an AMM assignment.
pub fn assignment_float(value: &PyValue) -> (result: Result<Number, NativeError>)
    ensures
        spec_policy_outcome(result, spec_assignment_float(*value), "replace_amm_assignments"),
{
    if let PyValue::Bool(_) = value {
        return Err(assignment_py_error("area must not be bool"));
    }
    match lenient_number(value, "area", "replace_amm_assignments") {
        Ok(n) => Ok(n),
        Err(_) => Err(assignment_py_error("area must be numeric")),
    }
}

/// One AMM response component.
#[derive(Clone, Debug)]
pub enum AmmComponentConfiguration {
    Standard {
        id: String,
        dry_capture: Number,
        precipitation_window_hours: Number,
        hydrograph_half_life_hours: Number,
        initial_wet_capture: Number,
        moisture_half_life_hours: Number,
        temperature_window_hours: Number,
        spring_cold_shcf: Number,
        hot_shcf: Number,
        fall_cold_shcf: Number,
    },
    Baseflow {
        id: String,
        precipitation_window_hours: Number,
        hydrograph_half_life_hours: Number,
        temperature_window_hours: Number,
        spring_cold_capture: Number,
        hot_capture: Number,
        fall_cold_capture: Number,
    },
}

/// The text of item `i` of a tuple, if it has one and it is a `str`.
pub open spec fn spec_item_text(items: Seq<PyValue>, i: int) -> Option<String> {
    if 0 <= i < items.len() {
        spec_text(items[i])
    } else {
        None
    }
}

/// One AMM component in the native tuple format.
pub open spec fn spec_extract_component(value: PyValue) -> Result<AmmComponentConfiguration, Seq<char>> {
    match value {
        PyValue::Tuple(items) => {
            let t = items@;
            match spec_item_text(t, 0) {
                None => Err("component kind must be a string"@),
                Some(kind) => match spec_item_text(t, 1) {
                    None => Err("component id must be a string"@),
                    Some(id) => if kind@ == "standard"@ && t.len() == 11 {
                        match spec_lenient_number(t[2], "dry_capture"@) {
                            Err(d) => Err(d),
                            Ok(dry_capture) => match spec_lenient_number(t[3], "precipitation_window_hours"@) {
                                Err(d) => Err(d),
                                Ok(precipitation_window_hours) => match spec_lenient_number(t[4], "hydrograph_half_life_hours"@) {
                                    Err(d) => Err(d),
                                    Ok(hydrograph_half_life_hours) => match spec_lenient_number(t[5], "initial_wet_capture"@) {
                                        Err(d) => Err(d),
                                        Ok(initial_wet_capture) => match spec_lenient_number(t[6], "moisture_half_life_hours"@) {
                                            Err(d) => Err(d),
                                            Ok(moisture_half_life_hours) => match spec_lenient_number(t[7], "temperature_window_hours"@) {
                                                Err(d) => Err(d),
                                                Ok(temperature_window_hours) => match spec_lenient_number(t[8], "spring_cold_shcf"@) {
                                                    Err(d) => Err(d),
                                                    Ok(spring_cold_shcf) => match spec_lenient_number(t[9], "hot_shcf"@) {
                                                        Err(d) => Err(d),
                                                        Ok(hot_shcf) => match spec_lenient_number(t[10], "fall_cold_shcf"@) {
                                                            Err(d) => Err(d),
                                                            Ok(fall_cold_shcf) => Ok(AmmComponentConfiguration::Standard { id, dry_capture, precipitation_window_hours, hydrograph_half_life_hours, initial_wet_capture, moisture_half_life_hours, temperature_window_hours, spring_cold_shcf, hot_shcf, fall_cold_shcf }),
                                                        },
                                                    },
                                                },
                                            },
                                        },
                                    },
                                },
                            },
                        }
                    } else if kind@ == "baseflow"@ && t.len() == 8 {
                        match spec_lenient_number(t[2], "precipitation_window_hours"@) {
                            Err(d) => Err(d),
                            Ok(precipitation_window_hours) => match spec_lenient_number(t[3], "hydrograph_half_life_hours"@) {
                                Err(d) => Err(d),
                                Ok(hydrograph_half_life_hours) => match spec_lenient_number(t[4], "temperature_window_hours"@) {
                                    Err(d) => Err(d),
                                    Ok(temperature_window_hours) => match spec_lenient_number(t[5], "spring_cold_capture"@) {
                                        Err(d) => Err(d),
                                        Ok(spring_cold_capture) => match spec_lenient_number(t[6], "hot_capture"@) {
                                            Err(d) => Err(d),
                                            Ok(hot_capture) => match spec_lenient_number(t[7], "fall_cold_capture"@) {
                                                Err(d) => Err(d),
                                                Ok(fall_cold_capture) => Ok(AmmComponentConfiguration::Baseflow { id, precipitation_window_hours, hydrograph_half_life_hours, temperature_window_hours, spring_cold_capture, hot_capture, fall_cold_capture }),
                                            },
                                        },
                                    },
                                },
                            },
                        }
                    } else if kind@ == "standard"@ || kind@ == "baseflow"@ {
                        Err("component tuple has the wrong length"@)
                    } else {
                        Err("component kind must be 'standard' or 'baseflow'"@)
                    },
                },
            }
        },
        _ => Err("each component must use the native tuple format"@),
    }
}

/// Returns the text of item `i` of a tuple, if it has one and it is a `str`.
fn item_text(items: &Vec<PyValue>, i: usize) -> (result: Option<String>)
    ensures
        result == spec_item_text(items@, i as int),
{
    if i < items.len() {
        text_of(&items[i])
    } else {
        None
    }
}

/// Extracts one AMM component from its native tuple format.
pub fn extract_component(value: &PyValue) -> (result: Result<AmmComponentConfiguration, NativeError>)
    ensures
        spec_policy_outcome(result, spec_extract_component(*value), "update_amm_model"),
{
    let items = match value {
        PyValue::Tuple(items) => items,
        _ => {
            return Err(amm_py_error("each component must use the native tuple format"));
        },
    };
    let kind = match item_text(items, 0) {
        Some(k) => k,
        None => {
            return Err(amm_py_error("component kind must be a string"));
        },
    };
    let id = match item_text(items, 1) {
        Some(i) => i,
        None => {
            return Err(amm_py_error("component id must be a string"));
        },
    };
    let k = kind.as_str();
    if str_eq(k, "standard") && items.len() == 11 {
        let dry_capture = match amm_float(&items[2], "dry_capture") {
            Ok(n) => n,
            Err(e) => {
                return Err(e);
            },
        };
        let precipitation_window_hours = match amm_float(&items[3], "precipitation_window_hours") {
            Ok(n) => n,
            Err(e) => {
                return Err(e);
            },
        };
        let hydrograph_half_life_hours = match amm_float(&items[4], "hydrograph_half_life_hours") {
            Ok(n) => n,
            Err(e) => {
                return Err(e);
            },
        };
        let initial_wet_capture = match amm_float(&items[5], "initial_wet_capture") {
            Ok(n) => n,
            Err(e) => {
                return Err(e);
            },
        };
        let moisture_half_life_hours = match amm_float(&items[6], "moisture_half_life_hours") {
            Ok(n) => n,
            Err(e) => {
                return Err(e);
            },
        };
        let temperature_window_hours = match amm_float(&items[7], "temperature_window_hours") {
            Ok(n) => n,
            Err(e) => {
                return Err(e);
            },
        };
        let spring_cold_shcf = match amm_float(&items[8], "spring_cold_shcf") {
            Ok(n) => n,
            Err(e) => {
                return Err(e);
            },
        };
        let hot_shcf = match amm_float(&items[9], "hot_shcf") {
            Ok(n) => n,
            Err(e) => {
                return Err(e);
            },
        };
        let fall_cold_shcf = match amm_float(&items[10], "fall_cold_shcf") {
            Ok(n) => n,
            Err(e) => {
                return Err(e);
            },
        };
        Ok(AmmComponentConfiguration::Standard { id, dry_capture, precipitation_window_hours, hydrograph_half_life_hours, initial_wet_capture, moisture_half_life_hours, temperature_window_hours, spring_cold_shcf, hot_shcf, fall_cold_shcf })
    } else if str_eq(k, "baseflow") && items.len() == 8 {
        let precipitation_window_hours = match amm_float(&items[2], "precipitation_window_hours") {
            Ok(n) => n,
            Err(e) => {
                return Err(e);
            },
        };
        let hydrograph_half_life_hours = match amm_float(&items[3], "hydrograph_half_life_hours") {
            Ok(n) => n,
            Err(e) => {
                return Err(e);
            },
        };
        let temperature_window_hours = match amm_float(&items[4], "temperature_window_hours") {
            Ok(n) => n,
            Err(e) => {
                return Err(e);
            },
        };
        let spring_cold_capture = match amm_float(&items[5], "spring_cold_capture") {
            Ok(n) => n,
            Err(e) => {
                return Err(e);
            },
        };
        let hot_capture = match amm_float(&items[6], "hot_capture") {
            Ok(n) => n,
            Err(e) => {
                return Err(e);
            },
        };
        let fall_cold_capture = match amm_float(&items[7], "fall_cold_capture") {
            Ok(n) => n,
            Err(e) => {
                return Err(e);
            },
        };
        Ok(AmmComponentConfiguration::Baseflow { id, precipitation_window_hours, hydrograph_half_life_hours, temperature_window_hours, spring_cold_capture, hot_capture, fall_cold_capture })
    } else if str_eq(k, "standard") || str_eq(k, "baseflow") {
        Err(amm_py_error("component tuple has the wrong length"))
    } else {
        Err(amm_py_error("component kind must be 'standard' or 'baseflow'"))
    }
}

/// The components extracted from the first `n` items of an iterable.
pub open spec fn spec_components_of(items: Seq<PyValue>, n: int) -> Result<Seq<AmmComponentConfiguration>, Seq<char>>
    decreases n,
{
    if n <= 0 {
        Ok(Seq::empty())
    } else {
        match spec_components_of(items, n - 1) {
            Err(d) => Err(d),
            Ok(v) => match spec_extract_component(items[n - 1]) {
                Err(d) => Err(d),
                Ok(c) => Ok(v.push(c)),
            },
        }
    }
}

/// Once a component is refused, every longer prefix is refused the same way.
pub proof fn lemma_components_refusal(items: Seq<PyValue>, i: int, n: int)
    requires
        0 <= i <= n,
        spec_components_of(items, i) is Err,
    ensures
        spec_components_of(items, n) == spec_components_of(items, i),
    decreases n - i,
{
    if n > i {
        lemma_components_refusal(items, i, n - 1);
    }
}

/// The components of an iterable value: a tuple or list of components, the keys of a `dict`,
/// or a `str` or string-enum member (whose one-character items are never components).
pub open spec fn spec_extract_components(value: PyValue) -> Result<Seq<AmmComponentConfiguration>, Seq<char>> {
    match value {
        PyValue::Tuple(items) => spec_components_of(items@, items@.len() as int),
        PyValue::List(items) => spec_components_of(items@, items@.len() as int),
        PyValue::Dict(items) => spec_components_of(spec_keys(items@), items@.len() as int),
        PyValue::Enum { value: s, .. } => if s@.len() == 0 {
            Ok(Seq::empty())
        } else {
            Err("each component must use the native tuple format"@)
        },
        PyValue::Str(s) => if s@.len() == 0 {
            Ok(Seq::empty())
        } else {
            Err("each component must use the native tuple format"@)
        },
        _ => Err("components must be iterable"@),
    }
}

/// Extracts every component of an iterable, in order.
fn components_of(items: &Vec<PyValue>) -> (result: Result<Vec<AmmComponentConfiguration>, NativeError>)
    ensures
        match spec_components_of(items@, items@.len() as int) {
            Ok(v) => result is Ok && result->Ok_0@ == v,
            Err(d) => result is Err && crate::error::is_property_error(
                result->Err_0,
                "update_amm_model",
                ErrorCode::ApiPropertyValue,
                d,
            ),
        },
{
    let mut components: Vec<AmmComponentConfiguration> = Vec::new();
    let mut i: usize = 0;
    while i < items.len()
        invariant
            i <= items@.len(),
            spec_components_of(items@, i as int) == Ok::<Seq<AmmComponentConfiguration>, Seq<char>>(components@),
        decreases items@.len() - i,
    {
        match extract_component(&items[i]) {
            Ok(c) => {
                components.push(c);
            },
            Err(e) => {
                proof {
                    lemma_components_refusal(items@, i + 1, items@.len() as int);
                }
                return Err(e);
            },
        }
        i = i + 1;
    }
    Ok(components)
}

/// Extracts every component among the keys of a mapping, in order.
fn components_of_keys(items: &Vec<(PyValue, PyValue)>) -> (result: Result<Vec<AmmComponentConfiguration>, NativeError>)
    ensures
        match spec_components_of(spec_keys(items@), items@.len() as int) {
            Ok(v) => result is Ok && result->Ok_0@ == v,
            Err(d) => result is Err && crate::error::is_property_error(
                result->Err_0,
                "update_amm_model",
                ErrorCode::ApiPropertyValue,
                d,
            ),
        },
{
    let ghost keys = spec_keys(items@);
    let mut components: Vec<AmmComponentConfiguration> = Vec::new();
    let mut i: usize = 0;
    while i < items.len()
        invariant
            i <= items@.len(),
            keys == spec_keys(items@),
            spec_components_of(keys, i as int) == Ok::<Seq<AmmComponentConfiguration>, Seq<char>>(components@),
        decreases items@.len() - i,
    {
        assert(keys[i as int] == items@[i as int].0);
        match extract_component(&items[i].0) {
            Ok(c) => {
                components.push(c);
            },
            Err(e) => {
                proof {
                    lemma_components_refusal(keys, i + 1, items@.len() as int);
                }
                return Err(e);
            },
        }
        i = i + 1;
    }
    Ok(components)
}

/// Extracts every AMM component of an iterable, in order.
pub fn extract_components(value: &PyValue) -> (result: Result<Vec<AmmComponentConfiguration>, NativeError>)
    ensures
        match spec_extract_components(*value) {
            Ok(v) => result is Ok && result->Ok_0@ == v,
            Err(d) => result is Err && crate::error::is_property_error(
                result->Err_0,
                "update_amm_model",
                ErrorCode::ApiPropertyValue,
                d,
            ),
        },
{
    match value {
        PyValue::Tuple(items) => components_of(items),
        PyValue::List(items) => components_of(items),
        PyValue::Dict(items) => components_of_keys(items),
        PyValue::Enum { value: s, .. } => {
            if s.as_str().is_empty() {
                Ok(Vec::new())
            } else {
                Err(amm_py_error("each component must use the native tuple format"))
            }
        },
        PyValue::Str(s) => {
            if s.as_str().is_empty() {
                Ok(Vec::new())
            } else {
                Err(amm_py_error("each component must use the native tuple format"))
            }
        },
        _ => Err(amm_py_error("components must be iterable")),
    }
}

/// A sparse AMM model patch; the rain gage is given by its configured index.
#[derive(Debug)]
pub struct AmmModelPatch {
    pub cold_temperature: Option<Number>,
    pub hot_temperature: Option<Number>,
    pub components: Option<Vec<AmmComponentConfiguration>>,
    pub rain_gage_index: Option<usize>,
}

/// Every supplied AMM model setting, with its rain gage not validated yet.
#[derive(Debug)]
pub struct AmmUpdate {
    pub patch: AmmModelPatch,
    pub rain_gage: Option<RelatedObject>,
}

/// The settings an AMM update holds, its components as a sequence.
pub struct AmmUpdateView {
    pub cold_temperature: Option<Number>,
    pub hot_temperature: Option<Number>,
    pub components: Option<Seq<AmmComponentConfiguration>>,
    pub rain_gage_index: Option<usize>,
    pub rain_gage: Option<RelatedObject>,
}

impl View for AmmUpdate {
    type V = AmmUpdateView;

    open spec fn view(&self) -> AmmUpdateView {
        AmmUpdateView {
            cold_temperature: self.patch.cold_temperature,
            hot_temperature: self.patch.hot_temperature,
            components: match self.patch.components {
                Some(c) => Some(c@),
                None => None,
            },
            rain_gage_index: self.patch.rain_gage_index,
            rain_gage: self.rain_gage,
        }
    }
}

/// The empty AMM update.
pub open spec fn spec_empty_amm_update() -> AmmUpdateView {
    AmmUpdateView {
        cold_temperature: None,
        hot_temperature: None,
        components: None,
        rain_gage_index: None,
        rain_gage: None,
    }
}

/// `update` with one supplied `(key, value)` AMM model setting applied.
pub open spec fn spec_apply_amm_change(u: AmmUpdateView, key: Option<String>, value: PyValue) -> Result<
    AmmUpdateView,
    Refusal,
> {
    match key {
        None => Err(Refusal::Detail("AMM update fields must be strings"@)),
        Some(k) => {
            let name = k@;
            if name == "rain_gage"@ {
                match spec_related(value) {
                    Err(e) => Err(Refusal::Raised(e)),
                    Ok(r) => Ok(AmmUpdateView { rain_gage: r, ..u }),
                }
            } else if name == "cold_temperature"@ {
                match spec_lenient_number(value, name) {
                    Err(d) => Err(Refusal::Detail(d)),
                    Ok(v) => Ok(AmmUpdateView { cold_temperature: Some(v), ..u }),
                }
            } else if name == "hot_temperature"@ {
                match spec_lenient_number(value, name) {
                    Err(d) => Err(Refusal::Detail(d)),
                    Ok(v) => Ok(AmmUpdateView { hot_temperature: Some(v), ..u }),
                }
            } else if name == "components"@ {
                match spec_extract_components(value) {
                    Err(d) => Err(Refusal::Detail(d)),
                    Ok(v) => Ok(AmmUpdateView { components: Some(v), ..u }),
                }
            } else {
                Err(Refusal::Detail("unknown AMM model field: "@ + name))
            }
        },
    }
}

/// Each supported AMM model setting lands in its own field of the update, taking the value read from what was supplied for it, and nothing else changes.
pub proof fn lemma_amm_settings_land_in_their_fields(u: AmmUpdateView)
    ensures
        forall|k: String, value: PyValue| k@ == "rain_gage"@ && spec_related(value) is Ok ==> #[trigger] spec_apply_amm_change(u, Some(k), value) == Ok::<AmmUpdateView, Refusal>(AmmUpdateView { rain_gage: (spec_related(value)->Ok_0), ..u }),
        forall|k: String, value: PyValue| k@ == "cold_temperature"@ && spec_lenient_number(value, k@) is Ok ==> #[trigger] spec_apply_amm_change(u, Some(k), value) == Ok::<AmmUpdateView, Refusal>(AmmUpdateView { cold_temperature: Some((spec_lenient_number(value, k@)->Ok_0)), ..u }),
        forall|k: String, value: PyValue| k@ == "hot_temperature"@ && spec_lenient_number(value, k@) is Ok ==> #[trigger] spec_apply_amm_change(u, Some(k), value) == Ok::<AmmUpdateView, Refusal>(AmmUpdateView { hot_temperature: Some((spec_lenient_number(value, k@)->Ok_0)), ..u }),
        forall|k: String, value: PyValue| k@ == "components"@ && spec_extract_components(value) is Ok ==> #[trigger] spec_apply_amm_change(u, Some(k), value) == Ok::<AmmUpdateView, Refusal>(AmmUpdateView { components: Some((spec_extract_components(value)->Ok_0)), ..u }),
{
    assert forall|k: String, value: PyValue| k@ == "rain_gage"@ && spec_related(value) is Ok implies #[trigger] spec_apply_amm_change(u, Some(k), value) == Ok::<AmmUpdateView, Refusal>(AmmUpdateView { rain_gage: (spec_related(value)->Ok_0), ..u }) by {
        reveal_strlit("rain_gage");
    }
    assert forall|k: String, value: PyValue| k@ == "cold_temperature"@ && spec_lenient_number(value, k@) is Ok implies #[trigger] spec_apply_amm_change(u, Some(k), value) == Ok::<AmmUpdateView, Refusal>(AmmUpdateView { cold_temperature: Some((spec_lenient_number(value, k@)->Ok_0)), ..u }) by {
        reveal_strlit("cold_temperature");
        reveal_strlit("rain_gage");
        assert("cold_temperature"@.len() != "rain_gage"@.len());
    }
    assert forall|k: String, value: PyValue| k@ == "hot_temperature"@ && spec_lenient_number(value, k@) is Ok implies #[trigger] spec_apply_amm_change(u, Some(k), value) == Ok::<AmmUpdateView, Refusal>(AmmUpdateView { hot_temperature: Some((spec_lenient_number(value, k@)->Ok_0)), ..u }) by {
        reveal_strlit("hot_temperature");
        reveal_strlit("rain_gage");
        assert("hot_temperature"@.len() != "rain_gage"@.len());
        reveal_strlit("cold_temperature");
        assert("hot_temperature"@.len() != "cold_temperature"@.len());
    }
    assert forall|k: String, value: PyValue| k@ == "components"@ && spec_extract_components(value) is Ok implies #[trigger] spec_apply_amm_change(u, Some(k), value) == Ok::<AmmUpdateView, Refusal>(AmmUpdateView { components: Some((spec_extract_components(value)->Ok_0)), ..u }) by {
        reveal_strlit("components");
        reveal_strlit("rain_gage");
        assert("components"@.len() != "rain_gage"@.len());
        reveal_strlit("cold_temperature");
        assert("components"@.len() != "cold_temperature"@.len());
        reveal_strlit("hot_temperature");
        assert("components"@.len() != "hot_temperature"@.len());
    }
}

/// The update built from the first `n` supplied AMM model settings.
pub open spec fn spec_amm_update(changes: Seq<(Option<String>, PyValue)>, n: int) -> Result<AmmUpdateView, Refusal>
    decreases n,
{
    if n <= 0 {
        Ok(spec_empty_amm_update())
    } else {
        match spec_amm_update(changes, n - 1) {
            Err(r) => Err(r),
            Ok(u) => spec_apply_amm_change(u, changes[n - 1].0, changes[n - 1].1),
        }
    }
}

/// Once an AMM model setting is refused, every longer prefix is refused the same way.
pub proof fn lemma_amm_update_refusal(changes: Seq<(Option<String>, PyValue)>, i: int, n: int)
    requires
        0 <= i <= n,
        spec_amm_update(changes, i) is Err,
    ensures
        spec_amm_update(changes, n) == spec_amm_update(changes, i),
    decreases n - i,
{
    if n > i {
        lemma_amm_update_refusal(changes, i, n - 1);
    }
}

/// `result`, viewed, is the outcome `spec` for `update_amm_model`.
pub open spec fn spec_amm_outcome(result: Result<AmmUpdate, NativeError>, spec: Result<AmmUpdateView, Refusal>) -> bool {
    match spec {
        Ok(v) => result is Ok && result->Ok_0@ == v,
        Err(r) => crate::convert::spec_refusal_raised(result, r, "update_amm_model"),
    }
}

/// Applies one supplied `(key, value)` AMM model setting to `update`.
fn apply_amm_change(update: AmmUpdate, key: Option<String>, value: PyValue) -> (result: Result<
    AmmUpdate,
    NativeError,
>)
    ensures
        spec_amm_outcome(result, spec_apply_amm_change(update@, key, value)),
{
    let name = match key {
        Some(k) => k,
        None => {
            return Err(amm_py_error("AMM update fields must be strings"));
        },
    };
    let n = name.as_str();
    let mut u = update;
    if str_eq(n, "rain_gage") {
        match related_live_view(value) {
            Err(e) => Err(e),
            Ok(r) => {
                u.rain_gage = r;
                Ok(u)
            },
        }
    } else if str_eq(n, "cold_temperature") {
        match amm_float(&value, n) {
            Err(e) => Err(e),
            Ok(v) => {
                u.patch.cold_temperature = Some(v);
                Ok(u)
            },
        }
    } else if str_eq(n, "hot_temperature") {
        match amm_float(&value, n) {
            Err(e) => Err(e),
            Ok(v) => {
                u.patch.hot_temperature = Some(v);
                Ok(u)
            },
        }
    } else if str_eq(n, "components") {
        match extract_components(&value) {
            Err(e) => Err(e),
            Ok(v) => {
                u.patch.components = Some(v);
                Ok(u)
            },
        }
    } else {
        Err(crate::error::native_error(
            "update_amm_model",
            SwmmError::with_detail(ErrorCode::ApiPropertyValue, String::from_str("unknown AMM model field: ").concat(n)),
        ))
    }
}

/// Extracts every supplied AMM model setting without touching solver state.
///
/// `changes` are the supplied `(key, value)` pairs in mapping order, a key that is not a `str`
/// given as `None`.
pub fn extract_amm_update(changes: Vec<(Option<String>, PyValue)>) -> (result: Result<AmmUpdate, NativeError>)
    ensures
        spec_amm_outcome(result, spec_amm_update(changes@, changes@.len() as int)),
{
    let count: usize = changes.len();
    let ghost all = changes@;
    let mut remaining = changes;
    let mut update = AmmUpdate {
        patch: AmmModelPatch {
            cold_temperature: None,
            hot_temperature: None,
            components: None,
            rain_gage_index: None,
        },
        rain_gage: None,
    };
    let mut taken: usize = 0;
    proof {
        assert(remaining@ =~= all.skip(0));
    }
    while taken < count
        invariant
            count == all.len(),
            all == changes@,
            taken <= count,
            remaining@ == all.skip(taken as int),
            spec_amm_update(all, taken as int) == Ok::<AmmUpdateView, Refusal>(update@),
        decreases count - taken,
    {
        let (key, value) = remaining.remove(0);
        proof {
            assert(remaining@ =~= all.skip(taken + 1));
            assert(all[taken as int] == (key, value));
        }
        let ghost before = update@;
        match apply_amm_change(update, key, value) {
            Ok(next) => {
                update = next;
            },
            Err(e) => {
                proof {
                    assert(spec_amm_update(all, taken + 1) == spec_apply_amm_change(
                        before,
                        all[taken as int].0,
                        all[taken as int].1,
                    ));
                    lemma_amm_update_refusal(all, taken + 1, count as int);
                }
                return Err(e);
            },
        }
        taken = taken + 1;
    }
    Ok(update)
}

/// `result` is what checking `update` gives: a supplied rain gage is validated as a gage and the
/// patch takes its captured index.
pub open spec fn spec_amm_patch<F: Fn(&RelatedObject, ObjectType, &'static str) -> Result<usize, SwmmError>>(
    validate: F,
    update: AmmUpdate,
    result: Result<AmmModelPatch, SwmmError>,
) -> bool {
    &&& update.rain_gage is None ==> result == Ok::<AmmModelPatch, SwmmError>(update.patch)
    &&& update.rain_gage is Some ==> exists|o: Result<usize, SwmmError>|
        {
            &&& call_ensures(validate, (&update.rain_gage->0, ObjectType::Gage, "rain_gage"), o)
            &&& o matches Err(e) ==> result == Err::<AmmModelPatch, SwmmError>(e)
            &&& o is Ok ==> result == Ok::<AmmModelPatch, SwmmError>(
                AmmModelPatch { rain_gage_index: Some((update.rain_gage->0).index), ..update.patch },
            )
        }
}

/// The outcomes that checking an AMM update against the configured objects can give.
pub open spec fn spec_amm_check<F: Fn(&RelatedObject, ObjectType, &'static str) -> Result<usize, SwmmError>>(
    validate: F,
) -> spec_fn(AmmUpdate, Result<AmmModelPatch, SwmmError>) -> bool {
    |update: AmmUpdate, result: Result<AmmModelPatch, SwmmError>| spec_amm_patch(validate, update, result)
}

impl AmmUpdate {
    /// Validates the rain gage as a gage and builds the AMM model patch, which takes the rain
    /// gage's captured index.
    pub fn into_patch<F: Fn(&RelatedObject, ObjectType, &'static str) -> Result<usize, SwmmError>>(
        self,
        validate: &F,
    ) -> (result: Result<AmmModelPatch, SwmmError>)
        requires
            forall|r: &RelatedObject, t: ObjectType, n: &'static str| call_requires(*validate, (r, t, n)),
        ensures
            spec_amm_patch(*validate, self, result),
    {
        let AmmUpdate { mut patch, rain_gage } = self;
        match rain_gage {
            None => Ok(patch),
            Some(r) => match crate::convert::resolve_required(validate, &r, ObjectType::Gage, "rain_gage") {
                Err(e) => Err(e),
                Ok(_) => {
                    patch.rain_gage_index = Some(r.index);
                    Ok(patch)
                },
            },
        }
    }
}

/// One AMM assignment whose node and model are not validated yet.
#[derive(Debug)]
pub struct AmmAssignmentUpdate {
    pub node: RelatedObject,
    pub model: RelatedObject,
    pub area: Number,
}

/// One resolved AMM assignment.
#[derive(Clone, Copy, Debug, PartialEq, Eq, Structural)]
pub struct AmmAssignmentConfiguration {
    pub node_index: usize,
    pub model_index: usize,
    pub area: Number,
}

/// One AMM assignment in its `(node, model, area)` tuple format.
pub open spec fn spec_extract_assignment(value: PyValue) -> Result<AmmAssignmentUpdate, Refusal> {
    match value {
        PyValue::Tuple(parts) => if parts@.len() != 3 {
            Err(Refusal::Detail("each assignment must contain node, model, and area"@))
        } else {
            match spec_related(parts@[0]) {
                Err(e) => Err(Refusal::Raised(e)),
                Ok(None) => Err(Refusal::Detail("node must be a Live View"@)),
                Ok(Some(node)) => match spec_related(parts@[1]) {
                    Err(e) => Err(Refusal::Raised(e)),
                    Ok(None) => Err(Refusal::Detail("model must be a Live View"@)),
                    Ok(Some(model)) => match spec_assignment_float(parts@[2]) {
                        Err(d) => Err(Refusal::Detail(d)),
                        Ok(area) => Ok(AmmAssignmentUpdate { node, model, area }),
                    },
                },
            }
        },
        _ => Err(Refusal::Detail("each assignment must be a tuple"@)),
    }
}

/// An AMM assignment keeps its tuple's parts in their places: the node is the object that the
/// first part names, the model the one that the second names, and the area the number of the
/// third.
pub proof fn lemma_amm_assignment_keeps_its_parts(parts: Vec<PyValue>)
    ensures
        spec_extract_assignment(PyValue::Tuple(parts)) is Ok ==> {
            let x = spec_extract_assignment(PyValue::Tuple(parts))->Ok_0;
            let t = parts@;
            &&& t.len() == 3
            &&& spec_related(t[0]) == Ok::<Option<RelatedObject>, NativeError>(Some(x.node))
            &&& spec_related(t[1]) == Ok::<Option<RelatedObject>, NativeError>(Some(x.model))
            &&& spec_assignment_float(t[2]) == Ok::<Number, Seq<char>>(x.area)
        },
{
}

/// Extracts one AMM assignment from its `(node, model, area)` tuple format.
pub fn extract_assignment(value: PyValue) -> (result: Result<AmmAssignmentUpdate, NativeError>)
    ensures
        spec_refusal_outcome(result, spec_extract_assignment(value), "replace_amm_assignments"),
{
    match value {
        PyValue::Tuple(parts) => {
            if parts.len() != 3 {
                return Err(assignment_py_error("each assignment must contain node, model, and area"));
            }
            let ghost p = parts@;
            let mut parts = parts;
            let first = parts.remove(0);
            let second = parts.remove(0);
            assert(first == p[0] && second == p[1] && parts@[0] == p[2]);
            let node = match related_live_view(first) {
                Err(e) => {
                    return Err(e);
                },
                Ok(None) => {
                    return Err(assignment_py_error("node must be a Live View"));
                },
                Ok(Some(r)) => r,
            };
            let model = match related_live_view(second) {
                Err(e) => {
                    return Err(e);
                },
                Ok(None) => {
                    return Err(assignment_py_error("model must be a Live View"));
                },
                Ok(Some(r)) => r,
            };
            match assignment_float(&parts[0]) {
                Err(e) => Err(e),
                Ok(area) => Ok(AmmAssignmentUpdate { node, model, area }),
            }
        },
        _ => Err(assignment_py_error("each assignment must be a tuple")),
    }
}

/// The assignments extracted from the first `n` items of an iterable.
pub open spec fn spec_assignments_of(items: Seq<PyValue>, n: int) -> Result<Seq<AmmAssignmentUpdate>, Refusal>
    decreases n,
{
    if n <= 0 {
        Ok(Seq::empty())
    } else {
        match spec_assignments_of(items, n - 1) {
            Err(r) => Err(r),
            Ok(v) => match spec_extract_assignment(items[n - 1]) {
                Err(r) => Err(r),
                Ok(a) => Ok(v.push(a)),
            },
        }
    }
}

/// Once an assignment is refused, every longer prefix is refused the same way.
pub proof fn lemma_assignments_refusal(items: Seq<PyValue>, i: int, n: int)
    requires
        0 <= i <= n,
        spec_assignments_of(items, i) is Err,
    ensures
        spec_assignments_of(items, n) == spec_assignments_of(items, i),
    decreases n - i,
{
    if n > i {
        lemma_assignments_refusal(items, i, n - 1);
    }
}

/// The assignments of an iterable value: a tuple or list of assignments, the keys of a
/// `dict`, or a `str` or string-enum member (whose one-character items are never assignments).
pub open spec fn spec_extract_assignments(value: PyValue) -> Result<Seq<AmmAssignmentUpdate>, Refusal> {
    match value {
        PyValue::Tuple(items) => spec_assignments_of(items@, items@.len() as int),
        PyValue::List(items) => spec_assignments_of(items@, items@.len() as int),
        PyValue::Dict(items) => spec_assignments_of(spec_keys(items@), items@.len() as int),
        PyValue::Enum { value: s, .. } => if s@.len() == 0 {
            Ok(Seq::empty())
        } else {
            Err(Refusal::Detail("each assignment must be a tuple"@))
        },
        PyValue::Str(s) => if s@.len() == 0 {
            Ok(Seq::empty())
        } else {
            Err(Refusal::Detail("each assignment must be a tuple"@))
        },
        _ => Err(Refusal::Detail("assignments must be iterable"@)),
    }
}

/// `result`, viewed, is the outcome `spec` for `replace_amm_assignments`.
pub open spec fn spec_assignments_outcome(
    result: Result<Vec<AmmAssignmentUpdate>, NativeError>,
    spec: Result<Seq<AmmAssignmentUpdate>, Refusal>,
) -> bool {
    match spec {
        Ok(v) => result is Ok && result->Ok_0@ == v,
        Err(r) => crate::convert::spec_refusal_raised(result, r, "replace_amm_assignments"),
    }
}

/// Extracts every assignment of a sequence of items, in order.
fn assignments_of(items: Vec<PyValue>) -> (result: Result<Vec<AmmAssignmentUpdate>, NativeError>)
    ensures
        spec_assignments_outcome(result, spec_assignments_of(items@, items@.len() as int)),
{
    let count: usize = items.len();
    let ghost all = items@;
    let mut remaining = items;
    let mut assignments: Vec<AmmAssignmentUpdate> = Vec::new();
    let mut taken: usize = 0;
    proof {
        assert(remaining@ =~= all.skip(0));
    }
    while taken < count
        invariant
            count == all.len(),
            all == items@,
            taken <= count,
            remaining@ == all.skip(taken as int),
            spec_assignments_of(all, taken as int) == Ok::<Seq<AmmAssignmentUpdate>, Refusal>(assignments@),
        decreases count - taken,
    {
        let item = remaining.remove(0);
        proof {
            assert(remaining@ =~= all.skip(taken + 1));
            assert(all[taken as int] == item);
        }
        match extract_assignment(item) {
            Ok(a) => {
                assignments.push(a);
            },
            Err(e) => {
                proof {
                    lemma_assignments_refusal(all, taken + 1, count as int);
                }
                return Err(e);
            },
        }
        taken = taken + 1;
    }
    Ok(assignments)
}

/// Extracts every AMM assignment of an iterable, in order.
pub fn extract_assignments(value: PyValue) -> (result: Result<Vec<AmmAssignmentUpdate>, NativeError>)
    ensures
        spec_assignments_outcome(result, spec_extract_assignments(value)),
{
    match value {
        PyValue::Tuple(items) => assignments_of(items),
        PyValue::List(items) => assignments_of(items),
        PyValue::Dict(items) => {
            let keys = take_keys(items);
            assignments_of(keys)
        },
        PyValue::Enum { value: s, .. } => {
            if s.as_str().is_empty() {
                Ok(Vec::new())
            } else {
                Err(assignment_py_error("each assignment must be a tuple"))
            }
        },
        PyValue::Str(s) => {
            if s.as_str().is_empty() {
                Ok(Vec::new())
            } else {
                Err(assignment_py_error("each assignment must be a tuple"))
            }
        },
        _ => Err(assignment_py_error("assignments must be iterable")),
    }
}

/// `out` is what validating one assignment gives: its node as a node, then its model as an AMM
/// model; the assignment takes their captured indices.
pub open spec fn spec_assignment_resolved<
    F: Fn(&RelatedObject, ObjectType, &'static str) -> Result<usize, SwmmError>,
>(validate: F, a: AmmAssignmentUpdate, out: Result<AmmAssignmentConfiguration, SwmmError>) -> bool {
    exists|o: Result<usize, SwmmError>|
        {
            &&& #[trigger] call_ensures(validate, (&a.node, ObjectType::Node, "node"), o)
            &&& o matches Err(e) ==> out == Err::<AmmAssignmentConfiguration, SwmmError>(e)
            &&& o is Ok ==> exists|p: Result<usize, SwmmError>|
                {
                    &&& #[trigger] call_ensures(validate, (&a.model, ObjectType::AmmModel, "model"), p)
                    &&& p matches Err(e) ==> out == Err::<AmmAssignmentConfiguration, SwmmError>(e)
                    &&& p is Ok ==> out == Ok::<AmmAssignmentConfiguration, SwmmError>(
                        AmmAssignmentConfiguration {
                            node_index: a.node.index,
                            model_index: a.model.index,
                            area: a.area,
                        },
                    )
                }
        }
}

/// `result` is what checking `updates` against the configured objects gives: every
/// assignment's node and model validated in order, the configured assignments built, and the
/// first failure returned.
pub open spec fn spec_assignments_resolved<F: Fn(&RelatedObject, ObjectType, &'static str) -> Result<usize, SwmmError>>(
    validate: F,
    updates: Seq<AmmAssignmentUpdate>,
    result: Result<Vec<AmmAssignmentConfiguration>, SwmmError>,
) -> bool {
    &&& result is Ok ==> {
        &&& result->Ok_0@.len() == updates.len()
        &&& forall|i: int|
            0 <= i < updates.len() ==> spec_assignment_resolved(
                validate,
                #[trigger] updates[i],
                Ok::<AmmAssignmentConfiguration, SwmmError>(result->Ok_0@[i]),
            )
    }
    &&& result is Err ==> exists|done: Seq<AmmAssignmentConfiguration>|
        {
            &&& 0 <= done.len() < updates.len()
            &&& forall|i: int|
                0 <= i < done.len() ==> spec_assignment_resolved(
                    validate,
                    #[trigger] updates[i],
                    Ok::<AmmAssignmentConfiguration, SwmmError>(done[i]),
                )
            &&& spec_assignment_resolved(
                validate,
                updates[done.len() as int],
                Err::<AmmAssignmentConfiguration, SwmmError>(result->Err_0),
            )
        }
}

/// Validates every assignment's node and model, in order, and builds the configured
/// assignments; the first failure is returned.
pub fn resolve_assignments<F: Fn(&RelatedObject, ObjectType, &'static str) -> Result<usize, SwmmError>>(
    assignments: &Vec<AmmAssignmentUpdate>,
    validate: &F,
) -> (result: Result<Vec<AmmAssignmentConfiguration>, SwmmError>)
    requires
        forall|r: &RelatedObject, t: ObjectType, n: &'static str| call_requires(*validate, (r, t, n)),
    ensures
        spec_assignments_resolved(*validate, assignments@, result),
{
    let mut resolved: Vec<AmmAssignmentConfiguration> = Vec::new();
    let mut i: usize = 0;
    while i < assignments.len()
        invariant
            forall|r: &RelatedObject, t: ObjectType, n: &'static str| call_requires(*validate, (r, t, n)),
            i <= assignments@.len(),
            resolved@.len() == i,
            forall|j: int|
                0 <= j < i ==> spec_assignment_resolved(
                    *validate,
                    #[trigger] assignments@[j],
                    Ok::<AmmAssignmentConfiguration, SwmmError>(resolved@[j]),
                ),
        decreases assignments@.len() - i,
    {
        let a = &assignments[i];
        let node = crate::convert::resolve_required(validate, &a.node, ObjectType::Node, "node");
        let ghost gn = node;
        match node {
            Err(e) => {
                assert(spec_assignment_resolved(*validate, assignments@[i as int], Err::<AmmAssignmentConfiguration, SwmmError>(e)));
                assert(resolved@.len() == i);
                return Err(e);
            },
            Ok(_) => {},
        }
        let model = crate::convert::resolve_required(validate, &a.model, ObjectType::AmmModel, "model");
        let ghost gm = model;
        match model {
            Err(e) => {
                assert(spec_assignment_resolved(*validate, assignments@[i as int], Err::<AmmAssignmentConfiguration, SwmmError>(e)));
                assert(resolved@.len() == i);
                return Err(e);
            },
            Ok(_) => {},
        }
        let configuration = AmmAssignmentConfiguration {
            node_index: a.node.index,
            model_index: a.model.index,
            area: a.area,
        };
        assert(spec_assignment_resolved(*validate, *a, Ok::<AmmAssignmentConfiguration, SwmmError>(configuration)));
        resolved.push(configuration);
        i = i + 1;
    }
    Ok(resolved)
}

/// The `(kind, id, values)` parts of an AMM component, its values in declaration order.
pub open spec fn spec_amm_component_parts(component: AmmComponentConfiguration) -> (&'static str, String, Seq<Number>) {
    match component {
        AmmComponentConfiguration::Standard { id, dry_capture, precipitation_window_hours, hydrograph_half_life_hours, initial_wet_capture, moisture_half_life_hours, temperature_window_hours, spring_cold_shcf, hot_shcf, fall_cold_shcf } => (
            "standard",
            id,
            seq![dry_capture, precipitation_window_hours, hydrograph_half_life_hours, initial_wet_capture, moisture_half_life_hours, temperature_window_hours, spring_cold_shcf, hot_shcf, fall_cold_shcf],
        ),
        AmmComponentConfiguration::Baseflow { id, precipitation_window_hours, hydrograph_half_life_hours, temperature_window_hours, spring_cold_capture, hot_capture, fall_cold_capture } => (
            "baseflow",
            id,
            seq![precipitation_window_hours, hydrograph_half_life_hours, temperature_window_hours, spring_cold_capture, hot_capture, fall_cold_capture],
        ),
    }
}

/// The Python value that carries a number.
pub open spec fn spec_number_value(n: Number) -> PyValue {
    match n {
        Number::Int(i) => PyValue::Int(i),
        Number::Float(bits) => PyValue::Float(bits),
    }
}

/// `items` are the native tuple of `component`: its kind and its id as `str`, then its values
/// in the parts' order.
pub open spec fn spec_component_tuple(items: Seq<PyValue>, component: AmmComponentConfiguration) -> bool {
    let parts = spec_amm_component_parts(component);
    &&& items.len() == parts.2.len() + 2
    &&& items[0] matches PyValue::Str(k) && k@ == parts.0@
    &&& items[1] == PyValue::Str(parts.1)
    &&& forall|j: int| 2 <= j < items.len() ==> #[trigger] items[j] == spec_number_value(parts.2[j - 2])
}

/// An AMM component survives a round trip through its parts: the native tuple of its parts
/// extracts to the same component.
pub proof fn lemma_component_round_trip(items: Vec<PyValue>, component: AmmComponentConfiguration)
    requires
        spec_component_tuple(items@, component),
    ensures
        spec_extract_component(PyValue::Tuple(items)) == Ok::<AmmComponentConfiguration, Seq<char>>(component),
{
    reveal_strlit("standard");
    reveal_strlit("baseflow");
    let t = items@;
    assert(t[2] == spec_number_value(spec_amm_component_parts(component).2[0]));
    assert(t[3] == spec_number_value(spec_amm_component_parts(component).2[1]));
    assert(t[4] == spec_number_value(spec_amm_component_parts(component).2[2]));
    assert(t[5] == spec_number_value(spec_amm_component_parts(component).2[3]));
    assert(t[6] == spec_number_value(spec_amm_component_parts(component).2[4]));
    assert(t[7] == spec_number_value(spec_amm_component_parts(component).2[5]));
    match component {
        AmmComponentConfiguration::Standard { .. } => {
            assert(t[8] == spec_number_value(spec_amm_component_parts(component).2[6]));
            assert(t[9] == spec_number_value(spec_amm_component_parts(component).2[7]));
            assert(t[10] == spec_number_value(spec_amm_component_parts(component).2[8]));
        },
        AmmComponentConfiguration::Baseflow { .. } => {
            assert("baseflow"@ != "standard"@) by {
                assert("baseflow"@[0] != "standard"@[0]);
            }
        },
    }
}

/// A `standard` tuple that does not hold 11 items, or a `baseflow` tuple that does not hold 8,
/// is refused for its length.
pub proof fn lemma_component_wrong_length(items: Vec<PyValue>, kind: String, id: String)
    requires
        items@.len() >= 2,
        items@[0] == PyValue::Str(kind),
        items@[1] == PyValue::Str(id),
        (kind@ == "standard"@ && items@.len() != 11) || (kind@ == "baseflow"@ && items@.len() != 8),
    ensures
        spec_extract_component(PyValue::Tuple(items)) == Err::<AmmComponentConfiguration, Seq<char>>(
            "component tuple has the wrong length"@,
        ),
{
    reveal_strlit("standard");
    reveal_strlit("baseflow");
    assert("baseflow"@ != "standard"@) by {
        assert("baseflow"@[0] != "standard"@[0]);
    }
}

/// Converts one AMM component to its `(kind, id, values)` parts.
pub fn amm_component_parts(component: AmmComponentConfiguration) -> (parts: (&'static str, String, Vec<Number>))
    ensures
        parts.0 == spec_amm_component_parts(component).0,
        parts.1 == spec_amm_component_parts(component).1,
        parts.2@ == spec_amm_component_parts(component).2,
{
    match component {
        AmmComponentConfiguration::Standard { id, dry_capture, precipitation_window_hours, hydrograph_half_life_hours, initial_wet_capture, moisture_half_life_hours, temperature_window_hours, spring_cold_shcf, hot_shcf, fall_cold_shcf } => {
            let values = vec![dry_capture, precipitation_window_hours, hydrograph_half_life_hours, initial_wet_capture, moisture_half_life_hours, temperature_window_hours, spring_cold_shcf, hot_shcf, fall_cold_shcf];
            ("standard", id, values)
        },
        AmmComponentConfiguration::Baseflow { id, precipitation_window_hours, hydrograph_half_life_hours, temperature_window_hours, spring_cold_capture, hot_capture, fall_cold_capture } => {
            let values = vec![precipitation_window_hours, hydrograph_half_life_hours, temperature_window_hours, spring_cold_capture, hot_capture, fall_cold_capture];
            ("baseflow", id, values)
        },
    }
}

/// The configured rain gage of an AMM model, which must still be available.
pub fn amm_rain_gage<I>(identity: Option<I>) -> (result: Result<I, SwmmError>)
    ensures
        identity is Some ==> result == Ok::<I, SwmmError>(identity->0),
        identity is None ==> result is Err && crate::error::swmm_error_is(
            result->Err_0,
            ErrorCode::ApiPropertyValue,
            "configured AMM rain gage is unavailable"@,
        ),
{
    match identity {
        Some(i) => Ok(i),
        None => Err(SwmmError::with_str(ErrorCode::ApiPropertyValue, "configured AMM rain gage is unavailable")),
    }
}

/// `out` is what looking up one configured assignment's node and model gives.
pub open spec fn spec_assignment_identities<
    I,
    N: Fn(usize) -> Result<Option<I>, SwmmError>,
    D: Fn(usize) -> Result<Option<I>, SwmmError>,
>(node: N, model: D, a: AmmAssignmentConfiguration, out: Result<(I, I, Number), SwmmError>) -> bool {
    exists|n: Result<Option<I>, SwmmError>|
        {
            &&& #[trigger] call_ensures(node, (a.node_index,), n)
            &&& n matches Err(e) ==> out == Err::<(I, I, Number), SwmmError>(e)
            &&& n == Ok::<Option<I>, SwmmError>(None) ==> out is Err && crate::error::swmm_error_is(
                out->Err_0,
                ErrorCode::ApiPropertyValue,
                "configured AMM node is unavailable"@,
            )
            &&& n matches Ok(Some(ni)) ==> exists|m: Result<Option<I>, SwmmError>|
                {
                    &&& #[trigger] call_ensures(model, (a.model_index,), m)
                    &&& m matches Err(e) ==> out == Err::<(I, I, Number), SwmmError>(e)
                    &&& m == Ok::<Option<I>, SwmmError>(None) ==> out is Err && crate::error::swmm_error_is(
                        out->Err_0,
                        ErrorCode::ApiPropertyValue,
                        "configured AMM model is unavailable"@,
                    )
                    &&& m matches Ok(Some(mi)) ==> out == Ok::<(I, I, Number), SwmmError>((ni, mi, a.area))
                }
        }
}

/// Looks up the node and model identities of every configured assignment, in order; the first
/// failure is returned.
pub fn amm_assignment_identities<
    I,
    N: Fn(usize) -> Result<Option<I>, SwmmError>,
    D: Fn(usize) -> Result<Option<I>, SwmmError>,
>(assignments: &Vec<AmmAssignmentConfiguration>, node: &N, model: &D) -> (result: Result<
    Vec<(I, I, Number)>,
    SwmmError,
>)
    requires
        forall|i: usize| call_requires(*node, (i,)),
        forall|i: usize| call_requires(*model, (i,)),
    ensures
        result is Ok ==> {
            &&& result->Ok_0@.len() == assignments@.len()
            &&& forall|i: int|
                0 <= i < assignments@.len() ==> spec_assignment_identities(
                    *node,
                    *model,
                    #[trigger] assignments@[i],
                    Ok::<(I, I, Number), SwmmError>(result->Ok_0@[i]),
                )
        },
        result is Err ==> exists|done: Seq<(I, I, Number)>|
            {
                &&& 0 <= done.len() < assignments@.len()
                &&& forall|i: int|
                    0 <= i < done.len() ==> spec_assignment_identities(
                        *node,
                        *model,
                        #[trigger] assignments@[i],
                        Ok::<(I, I, Number), SwmmError>(done[i]),
                    )
                &&& spec_assignment_identities(
                    *node,
                    *model,
                    assignments@[done.len() as int],
                    Err::<(I, I, Number), SwmmError>(result->Err_0),
                )
            },
{
    let mut found: Vec<(I, I, Number)> = Vec::new();
    let mut i: usize = 0;
    while i < assignments.len()
        invariant
            forall|k: usize| call_requires(*node, (k,)),
            forall|k: usize| call_requires(*model, (k,)),
            i <= assignments@.len(),
            found@.len() == i,
            forall|j: int|
                0 <= j < i ==> spec_assignment_identities(
                    *node,
                    *model,
                    #[trigger] assignments@[j],
                    Ok::<(I, I, Number), SwmmError>(found@[j]),
                ),
        decreases assignments@.len() - i,
    {
        let a = assignments[i];
        let n = node(a.node_index);
        let ghost gn = n;
        assert(call_ensures(*node, (a.node_index,), gn));
        let ni = match n {
            Err(e) => {
                assert(spec_assignment_identities(*node, *model, assignments@[i as int], Err::<(I, I, Number), SwmmError>(e)));
                return Err(e);
            },
            Ok(None) => {
                let e = assignment_error("configured AMM node is unavailable");
                assert(spec_assignment_identities(*node, *model, assignments@[i as int], Err::<(I, I, Number), SwmmError>(e)));
                return Err(e);
            },
            Ok(Some(ni)) => ni,
        };
        let m = model(a.model_index);
        let ghost gm = m;
        assert(call_ensures(*model, (a.model_index,), gm));
        let mi = match m {
            Err(e) => {
                assert(spec_assignment_identities(*node, *model, assignments@[i as int], Err::<(I, I, Number), SwmmError>(e)));
                return Err(e);
            },
            Ok(None) => {
                let e = assignment_error("configured AMM model is unavailable");
                assert(spec_assignment_identities(*node, *model, assignments@[i as int], Err::<(I, I, Number), SwmmError>(e)));
                return Err(e);
            },
            Ok(Some(mi)) => mi,
        };
        assert(spec_assignment_identities(*node, *model, assignments@[i as int], Ok::<(I, I, Number), SwmmError>((ni, mi, a.area))));
        found.push((ni, mi, a.area));
        i = i + 1;
    }
    Ok(found)
}

impl NativeSimulation {

    /// Reads the configuration of an AMM model and its rain gage.
    pub fn amm_model_configuration<S, T, M: FnOnce() -> Result<bool, SwmmError>, R: FnOnce(()) -> Result<T, SwmmError>>(
        &self,
        generation: u64,
        subtype: Option<S>,
        matches: M,
        read: R,
    ) -> (result: Result<T, NativeError>)
        requires
            call_requires(matches, ()),
            call_requires(read, ((),)),
        ensures
            spec_field_view(*self, "amm_model_configuration", generation, subtype, Ok::<(), NativeError>(()), matches, read, result),
    {
        self.field_view("amm_model_configuration", generation, subtype, Ok(()), matches, read)
    }

    /// Atomically updates one AMM model from raw Python values: once the view's identity is
    /// confirmed, the rain gage is validated (`validate`, through `AmmUpdate::into_patch`), and
    /// only a checked patch reaches `apply`.
    pub fn update_amm_model<
        S,
        M: FnOnce() -> Result<bool, SwmmError>,
        F: Fn(&RelatedObject, ObjectType, &'static str) -> Result<usize, SwmmError>,
        A: FnOnce(AmmModelPatch) -> Reported<()>,
    >(
        &mut self,
        generation: u64,
        subtype: Option<S>,
        changes: Vec<(Option<String>, PyValue)>,
        matches: M,
        validate: &F,
        apply: A,
    ) -> (result: Result<(), NativeError>)
        requires
            call_requires(matches, ()),
            forall|r: &RelatedObject, t: ObjectType, n: &'static str| call_requires(*validate, (r, t, n)),
            forall|x: AmmModelPatch| call_requires(apply, (x,)),
        ensures
            exists|p: Result<AmmUpdate, NativeError>|
                {
                    &&& spec_amm_outcome(p, spec_amm_update(changes@, changes@.len() as int))
                    &&& spec_field_update_checked(
                        *old(self),
                        *final(self),
                        "update_amm_model",
                        generation,
                        subtype,
                        p,
                        matches,
                        spec_amm_check(*validate),
                        apply,
                        result,
                    )
                },
            old(self).wf() ==> final(self).wf(),
    {
        let payload = extract_amm_update(changes);
        let check = |u: AmmUpdate| -> (c: Result<AmmModelPatch, SwmmError>)
            requires
                forall|r: &RelatedObject, t: ObjectType, n: &'static str| call_requires(*validate, (r, t, n)),
            ensures
                spec_amm_patch(*validate, u, c),
            { u.into_patch(validate) };
        self.field_update_checked(
            "update_amm_model",
            generation,
            subtype,
            payload,
            matches,
            check,
            Ghost(spec_amm_check(*validate)),
            apply,
        )
    }

    /// Copies every configured AMM assignment of the active Project Generation.
    pub fn amm_assignments<T, F: FnOnce() -> Result<T, SwmmError>>(&self, generation: u64, read: F) -> (result:
        Result<T, NativeError>)
        requires
            call_requires(read, ()),
        ensures
            spec_amm_assignments_read(*self, generation, read, result),
    {
        if !self.is_active_generation(generation) {
            return Err(NativeError::Stale { operation: "amm_assignments" });
        }
        let values = read();
        let ghost r = values;
        let result = self.attached("amm_assignments", values);
        assert(call_ensures(read, (), r) && spec_attached("amm_assignments", r, result));
        result
    }

    /// Atomically replaces every AMM assignment from raw Python values: the assignments are
    /// extracted, the Project Generation checked, then every node and model view is validated
    /// (`validate`, through `resolve_assignments`); only when all pass does `apply` receive the
    /// configured assignments.
    pub fn replace_amm_assignments<
        F: Fn(&RelatedObject, ObjectType, &'static str) -> Result<usize, SwmmError>,
        A: FnOnce(Vec<AmmAssignmentConfiguration>) -> Reported<()>,
    >(
        &mut self,
        generation: u64,
        assignments: PyValue,
        validate: &F,
        apply: A,
    ) -> (result: Result<(), NativeError>)
        requires
            forall|r: &RelatedObject, t: ObjectType, n: &'static str| call_requires(*validate, (r, t, n)),
            forall|x: Vec<AmmAssignmentConfiguration>| call_requires(apply, (x,)),
        ensures
            spec_replace_amm_assignments(*old(self), *final(self), generation, assignments, *validate, apply, result),
            old(self).wf() ==> final(self).wf(),
    {
        let ghost original = assignments;
        let extracted = extract_assignments(assignments);
        let ghost gp = extracted;
        assert(spec_assignments_outcome(gp, spec_extract_assignments(original)));
        let updates = match extracted {
            Ok(v) => v,
            Err(e) => {
                return Err(e);
            },
        };
        if !self.is_active_generation(generation) {
            return Err(NativeError::Stale { operation: "replace_amm_assignments" });
        }
        let resolved = resolve_assignments(&updates, validate);
        let ghost gv = resolved;
        assert(spec_assignments_resolved(*validate, updates@, gv));
        let configured = match resolved {
            Err(error) => {
                return Err(crate::error::native_error("replace_amm_assignments", error));
            },
            Ok(c) => c,
        };
        let ghost gc = configured;
        let reported = apply(configured);
        let ghost r = reported;
        assert(call_ensures(apply, (gc,), r));
        self.handle.lifecycle = reported.lifecycle;
        let result = self.attached("replace_amm_assignments", reported.result);
        assert(spec_attached("replace_amm_assignments", r.result, result));
        result
    }
}

/// `result` is what `amm_assignments` gives: the Project Generation is checked, then the
/// solver's `read` runs, its result passed on.
pub open spec fn spec_amm_assignments_read<T, F: FnOnce() -> Result<T, SwmmError>>(
    owner: NativeSimulation,
    generation: u64,
    read: F,
    result: Result<T, NativeError>,
) -> bool {
    if !owner.spec_generation_active(generation) {
        result == Err::<T, NativeError>(NativeError::Stale { operation: "amm_assignments" })
    } else {
        exists|r: Result<T, SwmmError>| call_ensures(read, (), r) && spec_attached("amm_assignments", r, result)
    }
}

/// `after` and `result` are what `replace_amm_assignments` gives: the assignments are extracted
/// first and the Project Generation checked; then every node and model view is validated, a
/// refusal raised with nothing replaced and the owner unchanged; only then does `apply` receive
/// the configured assignments, its reported lifecycle recorded.
pub open spec fn spec_replace_amm_assignments<
    F: Fn(&RelatedObject, ObjectType, &'static str) -> Result<usize, SwmmError>,
    A: FnOnce(Vec<AmmAssignmentConfiguration>) -> Reported<()>,
>(
    before: NativeSimulation,
    after: NativeSimulation,
    generation: u64,
    assignments: PyValue,
    validate: F,
    apply: A,
    result: Result<(), NativeError>,
) -> bool {
    exists|p: Result<Vec<AmmAssignmentUpdate>, NativeError>|
        {
            &&& spec_assignments_outcome(p, spec_extract_assignments(assignments))
            &&& p matches Err(e) ==> result == Err::<(), NativeError>(e) && after == before
            &&& p is Ok && !before.spec_generation_active(generation) ==> result == Err::<
                (),
                NativeError,
            >(NativeError::Stale { operation: "replace_amm_assignments" }) && after == before
            &&& p is Ok && before.spec_generation_active(generation) ==> exists|v: Result<Vec<AmmAssignmentConfiguration>, SwmmError>|
                {
                    &&& spec_assignments_resolved(validate, p->Ok_0@, v)
                    &&& v matches Err(e) ==> result == Err::<(), NativeError>(
                        NativeError::Native { operation: "replace_amm_assignments", error: e },
                    ) && after == before
                    &&& v is Ok ==> exists|r: Reported<()>|
                        {
                            &&& call_ensures(apply, (v->Ok_0,), r)
                            &&& spec_attached("replace_amm_assignments", r.result, result)
                            &&& after.handle == (HandleState { lifecycle: r.lifecycle, ..before.handle })
                            &&& after.iterator_state == before.iterator_state
                            &&& after.test_concurrency == before.test_concurrency
                            &&& after.next_phase == before.next_phase
                        }
                }
        }
}

/// The configured assignments that validated `updates` give: each takes its node's and its
/// model's captured indices and its area.
pub open spec fn spec_configured_assignments(updates: Seq<AmmAssignmentUpdate>) -> Seq<AmmAssignmentConfiguration> {
    updates.map_values(|a: AmmAssignmentUpdate| AmmAssignmentConfiguration {
        node_index: a.node.index,
        model_index: a.model.index,
        area: a.area,
    })
}

/// Validated assignments are the updates' configured assignments, in order.
pub proof fn lemma_resolved_assignments<F: Fn(&RelatedObject, ObjectType, &'static str) -> Result<usize, SwmmError>>(
    validate: F,
    updates: Seq<AmmAssignmentUpdate>,
    configured: Vec<AmmAssignmentConfiguration>,
)
    requires
        spec_assignments_resolved(validate, updates, Ok::<Vec<AmmAssignmentConfiguration>, SwmmError>(configured)),
    ensures
        configured@ == spec_configured_assignments(updates),
{
    assert forall|i: int| 0 <= i < updates.len() implies configured@[i] == spec_configured_assignments(updates)[i] by {
        assert(spec_assignment_resolved(validate, updates[i], Ok::<AmmAssignmentConfiguration, SwmmError>(configured@[i])));
    }
    assert(configured@ =~= spec_configured_assignments(updates));
}

/// Replacing the AMM assignments and reading them back gives the same assignments: when the
/// solver's read gives back (as `stored`) what its last successful replacement was handed, a
/// successful `replace_amm_assignments` followed by `amm_assignments` under the same generation
/// gives the extracted assignments, in the order given, each with its node's and model's
/// captured indices and its area; a refused view replaces nothing.
pub proof fn lemma_amm_assignments_read_back<
    T,
    F: Fn(&RelatedObject, ObjectType, &'static str) -> Result<usize, SwmmError>,
    A: FnOnce(Vec<AmmAssignmentConfiguration>) -> Reported<()>,
    R: FnOnce() -> Result<T, SwmmError>,
>(
    before: NativeSimulation,
    after: NativeSimulation,
    generation: u64,
    assignments: PyValue,
    validate: F,
    apply: A,
    replaced: Result<(), NativeError>,
    read: R,
    read_back: Result<T, NativeError>,
    stored: spec_fn(Seq<AmmAssignmentConfiguration>) -> T,
)
    requires
        spec_replace_amm_assignments(before, after, generation, assignments, validate, apply, replaced),
        spec_amm_assignments_read(after, generation, read, read_back),
        forall|x: Vec<AmmAssignmentConfiguration>, r: Reported<()>, y: Result<T, SwmmError>|
            #[trigger] call_ensures(apply, (x,), r) && r.result is Ok && #[trigger] call_ensures(read, (), y)
                ==> y == Ok::<T, SwmmError>(stored(x@)),
    ensures
        replaced is Ok ==> spec_extract_assignments(assignments) is Ok && read_back == Ok::<T, NativeError>(
            stored(spec_configured_assignments(spec_extract_assignments(assignments)->Ok_0)),
        ),
{
    if replaced is Ok {
        let p = choose|p: Result<Vec<AmmAssignmentUpdate>, NativeError>|
            {
                &&& spec_assignments_outcome(p, spec_extract_assignments(assignments))
                &&& p matches Err(e) ==> replaced == Err::<(), NativeError>(e) && after == before
                &&& p is Ok && !before.spec_generation_active(generation) ==> replaced == Err::<
                    (),
                    NativeError,
                >(NativeError::Stale { operation: "replace_amm_assignments" }) && after == before
                &&& p is Ok && before.spec_generation_active(generation) ==> exists|v: Result<Vec<AmmAssignmentConfiguration>, SwmmError>|
                    {
                        &&& spec_assignments_resolved(validate, p->Ok_0@, v)
                        &&& v matches Err(e) ==> replaced == Err::<(), NativeError>(
                            NativeError::Native { operation: "replace_amm_assignments", error: e },
                        ) && after == before
                        &&& v is Ok ==> exists|r: Reported<()>|
                            {
                                &&& call_ensures(apply, (v->Ok_0,), r)
                                &&& spec_attached("replace_amm_assignments", r.result, replaced)
                                &&& after.handle == (HandleState { lifecycle: r.lifecycle, ..before.handle })
                                &&& after.iterator_state == before.iterator_state
                                &&& after.test_concurrency == before.test_concurrency
                                &&& after.next_phase == before.next_phase
                            }
                    }
            };
        let v = choose|v: Result<Vec<AmmAssignmentConfiguration>, SwmmError>|
            {
                &&& spec_assignments_resolved(validate, p->Ok_0@, v)
                &&& v matches Err(e) ==> replaced == Err::<(), NativeError>(
                    NativeError::Native { operation: "replace_amm_assignments", error: e },
                ) && after == before
                &&& v is Ok ==> exists|r: Reported<()>|
                    {
                        &&& call_ensures(apply, (v->Ok_0,), r)
                        &&& spec_attached("replace_amm_assignments", r.result, replaced)
                        &&& after.handle == (HandleState { lifecycle: r.lifecycle, ..before.handle })
                        &&& after.iterator_state == before.iterator_state
                        &&& after.test_concurrency == before.test_concurrency
                        &&& after.next_phase == before.next_phase
                    }
            };
        let r = choose|r: Reported<()>|
            {
                &&& call_ensures(apply, (v->Ok_0,), r)
                &&& spec_attached("replace_amm_assignments", r.result, replaced)
                &&& after.handle == (HandleState { lifecycle: r.lifecycle, ..before.handle })
                &&& after.iterator_state == before.iterator_state
                &&& after.test_concurrency == before.test_concurrency
                &&& after.next_phase == before.next_phase
            };
        lemma_resolved_assignments(validate, p->Ok_0@, v->Ok_0);
        assert(after.spec_generation_active(generation));
        let y = choose|y: Result<T, SwmmError>| call_ensures(read, (), y) && spec_attached("amm_assignments", y, read_back);
        assert(call_ensures(apply, (v->Ok_0,), r) && call_ensures(read, (), y));
    }
}

} // verus!
