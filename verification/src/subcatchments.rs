use vstd::prelude::*;
use vstd::string::*;

use crate::convert::{
    detail, lenient_number, related_live_view, spec_attribute, spec_lenient_number, spec_refusal_outcome,
    resolve_required, spec_related, spec_resolved, spec_strict_bool, spec_text, strict_bool, take_attributes, text,
    text_of, Refusal,
};
use crate::text::{lowercase, spec_lowercase, str_eq};
use crate::error::{policy_py_error, swmm_error_is, ErrorCode, NativeError, SwmmError};
use crate::inspect::type_error;
use crate::nodes::take_slot;
use crate::owner::{NativeSimulation, Reported};
use crate::policy::spec_policy_outcome;
use crate::value::{Number, ObjectType, PyValue, RelatedObject};
use crate::views::{spec_field_update, spec_field_update_checked};

verus! {

/// Creates one validation error for subcatchment updates.
pub fn subcatchment_py_error(detail: String) -> (raised: NativeError)
    ensures
        raised == (NativeError::Native {
            operation: "update_subcatchment",
            error: SwmmError { code: ErrorCode::ApiPropertyValue, detail: Some(detail) },
        }),
{
    policy_py_error("update_subcatchment", detail)
}

/// Extracts one non-boolean numeric subcatchment value.
pub fn subcatchment_float(value: &PyValue, name: &str) -> (result: Result<Number, NativeError>)
    ensures
        spec_policy_outcome(result, spec_lenient_number(*value, name@), "update_subcatchment"),
{
    lenient_number(value, name, "update_subcatchment")
}

/// Extracts one strict boolean subcatchment value.
pub fn subcatchment_bool(value: &PyValue, name: &str) -> (result: Result<bool, NativeError>)
    ensures
        spec_policy_outcome(result, spec_strict_bool(*value, name@), "update_subcatchment"),
{
    strict_bool(value, name, "update_subcatchment")
}

/// Creates one solver validation failure of a prepared settings mutation.
pub fn settings_error(detail: &str) -> (error: SwmmError)
    ensures
        swmm_error_is(error, ErrorCode::ApiPropertyValue, detail@),
{
    SwmmError::with_str(ErrorCode::ApiPropertyValue, detail)
}

/// A required related Live View.
pub open spec fn spec_required_related(value: PyValue, name: Seq<char>) -> Result<RelatedObject, Refusal> {
    match spec_related(value) {
        Err(e) => Err(Refusal::Raised(e)),
        Ok(None) => Err(Refusal::Detail(name + " must be a Live View"@)),
        Ok(Some(r)) => Ok(r),
    }
}

/// Extracts one required related Live View of a subcatchment setting.
pub fn subcatchment_related_view(value: PyValue, name: &str) -> (result: Result<RelatedObject, NativeError>)
    ensures
        spec_refusal_outcome(result, spec_required_related(value, name@), "update_subcatchment"),
{
    match related_live_view(value) {
        Err(e) => Err(e),
        Ok(None) => Err(subcatchment_py_error(detail(name, " must be a Live View"))),
        Ok(Some(r)) => Ok(r),
    }
}

/// An optional non-boolean number: `None` stands for itself.
pub open spec fn spec_optional_number(value: PyValue, name: Seq<char>) -> Result<Option<Number>, Seq<char>> {
    match value {
        PyValue::NoneValue => Ok(None),
        _ => match spec_lenient_number(value, name) {
            Err(d) => Err(d),
            Ok(n) => Ok(Some(n)),
        },
    }
}

/// Extracts one optional non-boolean number.
pub fn settings_optional_float(value: &PyValue, name: &str) -> (result: Result<Option<Number>, NativeError>)
    ensures
        spec_policy_outcome(result, spec_optional_number(*value, name@), "update_subcatchment"),
{
    match value {
        PyValue::NoneValue => Ok(None),
        _ => match subcatchment_float(value, name) {
            Err(e) => Err(e),
            Ok(n) => Ok(Some(n)),
        },
    }
}

/// One `(key, value)` item of a settings mapping: a `str` key and a non-boolean number.
pub open spec fn spec_named_pair(key: PyValue, value: PyValue, name: Seq<char>) -> Result<(String, Number), Refusal> {
    match spec_text(key) {
        None => Err(Refusal::Type("subcatchment settings mapping keys must be str"@)),
        Some(k) => match spec_lenient_number(value, name) {
            Err(d) => Err(Refusal::Detail(d)),
            Ok(n) => Ok((k, n)),
        },
    }
}

/// One settings entry given as an indexable pair: its item 0 is the key, its item 1 the value.
pub open spec fn spec_indexed_entry(items: Seq<PyValue>, name: Seq<char>) -> Result<(String, Number), Refusal> {
    if items.len() == 0 {
        Err(Refusal::Raised(NativeError::Index { position: 0 }))
    } else {
        match spec_text(items[0]) {
            None => Err(Refusal::Type("subcatchment settings mapping keys must be str"@)),
            Some(k) => if items.len() < 2 {
                Err(Refusal::Raised(NativeError::Index { position: 1 }))
            } else {
                match spec_lenient_number(items[1], name) {
                    Err(d) => Err(Refusal::Detail(d)),
                    Ok(n) => Ok((k, n)),
                }
            },
        }
    }
}

/// One settings entry of an iterable: a tuple or list pair; a `str` entry indexes its
/// one-character items, whose item 1 is never a number.
pub open spec fn spec_named_entry(entry: PyValue, name: Seq<char>) -> Result<(String, Number), Refusal> {
    match entry {
        PyValue::Tuple(items) => spec_indexed_entry(items@, name),
        PyValue::List(items) => spec_indexed_entry(items@, name),
        PyValue::Str(s) => spec_text_entry(s@.len(), name),
        PyValue::Enum { value: s, .. } => spec_text_entry(s@.len(), name),
        _ => Err(Refusal::Type("subcatchment settings entries must be key/value pairs"@)),
    }
}

/// A `str` settings entry of `len` characters.
pub open spec fn spec_text_entry(len: nat, name: Seq<char>) -> Result<(String, Number), Refusal> {
    if len == 0 {
        Err(Refusal::Raised(NativeError::Index { position: 0 }))
    } else if len == 1 {
        Err(Refusal::Raised(NativeError::Index { position: 1 }))
    } else {
        Err(Refusal::Detail(name + " must be numeric"@))
    }
}

/// Reads one `(key, value)` item of a settings mapping.
fn named_pair(key: &PyValue, value: &PyValue, name: &str) -> (result: Result<(String, Number), NativeError>)
    ensures
        spec_refusal_outcome(result, spec_named_pair(*key, *value, name@), "update_subcatchment"),
{
    let k = match text_of(key) {
        None => {
            return Err(type_error("subcatchment settings mapping keys must be str"));
        },
        Some(k) => k,
    };
    match subcatchment_float(value, name) {
        Err(e) => Err(e),
        Ok(n) => Ok((k, n)),
    }
}

/// Reads one settings entry given as an indexable pair.
fn indexed_entry(items: &Vec<PyValue>, name: &str) -> (result: Result<(String, Number), NativeError>)
    ensures
        spec_refusal_outcome(result, spec_indexed_entry(items@, name@), "update_subcatchment"),
{
    if items.len() == 0 {
        return Err(NativeError::Index { position: 0 });
    }
    let k = match text_of(&items[0]) {
        None => {
            return Err(type_error("subcatchment settings mapping keys must be str"));
        },
        Some(k) => k,
    };
    if items.len() < 2 {
        return Err(NativeError::Index { position: 1 });
    }
    match subcatchment_float(&items[1], name) {
        Err(e) => Err(e),
        Ok(n) => Ok((k, n)),
    }
}

/// Reads one `str` settings entry of `len` characters.
fn text_entry(len: usize, name: &str) -> (result: Result<(String, Number), NativeError>)
    ensures
        spec_refusal_outcome(result, spec_text_entry(len as nat, name@), "update_subcatchment"),
{
    if len == 0 {
        Err(NativeError::Index { position: 0 })
    } else if len == 1 {
        Err(NativeError::Index { position: 1 })
    } else {
        Err(subcatchment_py_error(detail(name, " must be numeric")))
    }
}

/// Reads one settings entry of an iterable.
fn named_entry(entry: &PyValue, name: &str) -> (result: Result<(String, Number), NativeError>)
    ensures
        spec_refusal_outcome(result, spec_named_entry(*entry, name@), "update_subcatchment"),
{
    match entry {
        PyValue::Tuple(items) => indexed_entry(items, name),
        PyValue::List(items) => indexed_entry(items, name),
        PyValue::Str(s) => text_entry(s.unicode_len(), name),
        PyValue::Enum { value: s, .. } => text_entry(s.unicode_len(), name),
        _ => Err(type_error("subcatchment settings entries must be key/value pairs")),
    }
}

/// The entries read from the first `n` items of an iterable.
pub open spec fn spec_entries_of(items: Seq<PyValue>, name: Seq<char>, n: int) -> Result<Seq<(String, Number)>, Refusal>
    decreases n,
{
    if n <= 0 {
        Ok(Seq::empty())
    } else {
        match spec_entries_of(items, name, n - 1) {
            Err(r) => Err(r),
            Ok(v) => match spec_named_entry(items[n - 1], name) {
                Err(r) => Err(r),
                Ok(e) => Ok(v.push(e)),
            },
        }
    }
}

/// Once an entry is refused, every longer prefix is refused the same way.
pub proof fn lemma_entries_refusal(items: Seq<PyValue>, name: Seq<char>, i: int, n: int)
    requires
        0 <= i <= n,
        spec_entries_of(items, name, i) is Err,
    ensures
        spec_entries_of(items, name, n) == spec_entries_of(items, name, i),
    decreases n - i,
{
    if n > i {
        lemma_entries_refusal(items, name, i, n - 1);
    }
}

/// The items read from the first `n` `(key, value)` items of a mapping.
pub open spec fn spec_pairs_of(items: Seq<(PyValue, PyValue)>, name: Seq<char>, n: int) -> Result<Seq<(String, Number)>, Refusal>
    decreases n,
{
    if n <= 0 {
        Ok(Seq::empty())
    } else {
        match spec_pairs_of(items, name, n - 1) {
            Err(r) => Err(r),
            Ok(v) => match spec_named_pair(items[n - 1].0, items[n - 1].1, name) {
                Err(r) => Err(r),
                Ok(e) => Ok(v.push(e)),
            },
        }
    }
}

/// Once an item is refused, every longer prefix is refused the same way.
pub proof fn lemma_pairs_refusal(items: Seq<(PyValue, PyValue)>, name: Seq<char>, i: int, n: int)
    requires
        0 <= i <= n,
        spec_pairs_of(items, name, i) is Err,
    ensures
        spec_pairs_of(items, name, n) == spec_pairs_of(items, name, i),
    decreases n - i,
{
    if n > i {
        lemma_pairs_refusal(items, name, i, n - 1);
    }
}

/// The ordered `(name, value)` entries of a settings mapping: a `dict` gives its items, any
/// other iterable its entries.
pub open spec fn spec_named_values(value: PyValue, name: Seq<char>) -> Result<Seq<(String, Number)>, Refusal> {
    match value {
        PyValue::Dict(items) => spec_pairs_of(items@, name, items@.len() as int),
        PyValue::Tuple(items) => spec_entries_of(items@, name, items@.len() as int),
        PyValue::List(items) => spec_entries_of(items@, name, items@.len() as int),
        PyValue::Str(s) => if s@.len() == 0 {
            Ok(Seq::empty())
        } else {
            Err(Refusal::Raised(NativeError::Index { position: 1 }))
        },
        PyValue::Enum { value: s, .. } => if s@.len() == 0 {
            Ok(Seq::empty())
        } else {
            Err(Refusal::Raised(NativeError::Index { position: 1 }))
        },
        _ => Err(Refusal::Type("subcatchment settings mapping must be iterable"@)),
    }
}

/// `result`, viewed, is the outcome `spec` for `update_subcatchment`.
pub open spec fn spec_named_outcome(
    result: Result<Vec<(String, Number)>, NativeError>,
    spec: Result<Seq<(String, Number)>, Refusal>,
) -> bool {
    match spec {
        Ok(v) => result is Ok && result->Ok_0@ == v,
        Err(r) => crate::convert::spec_refusal_raised(result, r, "update_subcatchment"),
    }
}

/// Reads every entry of an iterable, in order.
fn entries_of(items: &Vec<PyValue>, name: &str) -> (result: Result<Vec<(String, Number)>, NativeError>)
    ensures
        spec_named_outcome(result, spec_entries_of(items@, name@, items@.len() as int)),
{
    let mut entries: Vec<(String, Number)> = Vec::new();
    let mut i: usize = 0;
    while i < items.len()
        invariant
            i <= items@.len(),
            spec_entries_of(items@, name@, i as int) == Ok::<Seq<(String, Number)>, Refusal>(entries@),
        decreases items@.len() - i,
    {
        match named_entry(&items[i], name) {
            Ok(e) => {
                entries.push(e);
            },
            Err(e) => {
                proof {
                    lemma_entries_refusal(items@, name@, i + 1, items@.len() as int);
                }
                return Err(e);
            },
        }
        i = i + 1;
    }
    Ok(entries)
}

/// Reads every `(key, value)` item of a mapping, in order.
fn pairs_of(items: &Vec<(PyValue, PyValue)>, name: &str) -> (result: Result<Vec<(String, Number)>, NativeError>)
    ensures
        spec_named_outcome(result, spec_pairs_of(items@, name@, items@.len() as int)),
{
    let mut entries: Vec<(String, Number)> = Vec::new();
    let mut i: usize = 0;
    while i < items.len()
        invariant
            i <= items@.len(),
            spec_pairs_of(items@, name@, i as int) == Ok::<Seq<(String, Number)>, Refusal>(entries@),
        decreases items@.len() - i,
    {
        let (k, v) = &items[i];
        match named_pair(k, v, name) {
            Ok(e) => {
                entries.push(e);
            },
            Err(e) => {
                proof {
                    lemma_pairs_refusal(items@, name@, i + 1, items@.len() as int);
                }
                return Err(e);
            },
        }
        i = i + 1;
    }
    Ok(entries)
}

/// Reads the ordered `(name, value)` entries of a settings mapping.
pub fn named_mapping_values(value: &PyValue, name: &str) -> (result: Result<Vec<(String, Number)>, NativeError>)
    ensures
        spec_named_outcome(result, spec_named_values(*value, name@)),
{
    match value {
        PyValue::Dict(items) => pairs_of(items, name),
        PyValue::Tuple(items) => entries_of(items, name),
        PyValue::List(items) => entries_of(items, name),
        PyValue::Str(s) => {
            if s.unicode_len() == 0 {
                Ok(Vec::new())
            } else {
                Err(NativeError::Index { position: 1 })
            }
        },
        PyValue::Enum { value: s, .. } => {
            if s.unicode_len() == 0 {
                Ok(Vec::new())
            } else {
                Err(NativeError::Index { position: 1 })
            }
        },
        _ => Err(type_error("subcatchment settings mapping must be iterable")),
    }
}

/// The attribute `name` of a settings object, if it has one.
pub open spec fn spec_settings_field(value: PyValue, name: Seq<char>) -> Option<PyValue> {
    match value {
        PyValue::Declaration { attributes, .. } => spec_attribute(attributes@, name),
        _ => None,
    }
}

/// The refusal of a settings object without the attribute `name`.
pub open spec fn spec_missing(name: Seq<char>) -> Seq<char> {
    "missing settings field: "@ + name
}

/// A required non-boolean number held in an attribute slot.
pub open spec fn spec_slot_number(slot: Option<PyValue>, name: Seq<char>) -> Result<Number, Seq<char>> {
    match slot {
        None => Err(spec_missing(name)),
        Some(v) => spec_lenient_number(v, name),
    }
}

/// Reads a required non-boolean number held in an attribute slot.
fn slot_number(slot: &Option<PyValue>, name: &str) -> (result: Result<Number, NativeError>)
    ensures
        spec_policy_outcome(result, spec_slot_number(*slot, name@), "update_subcatchment"),
{
    match slot {
        None => Err(subcatchment_py_error(detail("missing settings field: ", name))),
        Some(v) => subcatchment_float(v, name),
    }
}

/// A complete infiltration configuration in project units.
#[derive(Clone, Copy, Debug, PartialEq, Eq, Structural)]
pub enum InfiltrationConfiguration {
    Horton {
        initial_rate: Number,
        minimum_rate: Number,
        decay_coefficient: Number,
        drying_time_days: Number,
        maximum_infiltration: Option<Number>,
    },
    ModifiedHorton {
        initial_rate: Number,
        minimum_rate: Number,
        decay_coefficient: Number,
        drying_time_days: Number,
        maximum_infiltration: Option<Number>,
    },
    GreenAmpt { suction_head: Number, hydraulic_conductivity: Number, initial_moisture_deficit: Number },
    ModifiedGreenAmpt { suction_head: Number, hydraulic_conductivity: Number, initial_moisture_deficit: Number },
    CurveNumber { curve_number: Number, drying_time_days: Number },
}

/// A required non-boolean number held in the attribute `name` of a settings object.
pub open spec fn spec_settings_number(value: PyValue, name: Seq<char>) -> Result<Number, Seq<char>> {
    spec_slot_number(spec_settings_field(value, name), name)
}

/// An optional non-boolean number held in an attribute slot, which must be present.
pub open spec fn spec_optional_slot(slot: Option<PyValue>, name: Seq<char>) -> Result<Option<Number>, Seq<char>> {
    match slot {
        None => Err(spec_missing(name)),
        Some(v) => spec_optional_number(v, name),
    }
}

/// One complete infiltration declaration: its `kind` names the model whose fields it holds.
pub open spec fn spec_infiltration_settings(value: PyValue) -> Result<InfiltrationConfiguration, Refusal> {
    match spec_settings_field(value, "kind"@) {
        None => Err(Refusal::Detail(spec_missing("kind"@))),
        Some(k) => match spec_text(k) {
            None => Err(Refusal::Type("infiltration kind must be str"@)),
            Some(kind) => {
                if kind@ == "horton"@ {
                    match spec_settings_number(value, "initial_rate"@) {
                        Err(d) => Err(Refusal::Detail(d)),
                        Ok(initial_rate) => {
                            match spec_settings_number(value, "minimum_rate"@) {
                                Err(d) => Err(Refusal::Detail(d)),
                                Ok(minimum_rate) => {
                                    match spec_settings_number(value, "decay_coefficient"@) {
                                        Err(d) => Err(Refusal::Detail(d)),
                                        Ok(decay_coefficient) => {
                                            match spec_settings_number(value, "drying_time_days"@) {
                                                Err(d) => Err(Refusal::Detail(d)),
                                                Ok(drying_time_days) => {
                                                    match spec_optional_slot(spec_settings_field(value, "maximum_infiltration"@), "maximum_infiltration"@) {
                                                        Err(d) => Err(Refusal::Detail(d)),
                                                        Ok(maximum_infiltration) => {
                                                            Ok(InfiltrationConfiguration::Horton { initial_rate, minimum_rate, decay_coefficient, drying_time_days, maximum_infiltration })
                                                        },
                                                    }
                                                },
                                            }
                                        },
                                    }
                                },
                            }
                        },
                    }
                } else if kind@ == "modified_horton"@ {
                    match spec_settings_number(value, "initial_rate"@) {
                        Err(d) => Err(Refusal::Detail(d)),
                        Ok(initial_rate) => {
                            match spec_settings_number(value, "minimum_rate"@) {
                                Err(d) => Err(Refusal::Detail(d)),
                                Ok(minimum_rate) => {
                                    match spec_settings_number(value, "decay_coefficient"@) {
                                        Err(d) => Err(Refusal::Detail(d)),
                                        Ok(decay_coefficient) => {
                                            match spec_settings_number(value, "drying_time_days"@) {
                                                Err(d) => Err(Refusal::Detail(d)),
                                                Ok(drying_time_days) => {
                                                    match spec_optional_slot(spec_settings_field(value, "maximum_infiltration"@), "maximum_infiltration"@) {
                                                        Err(d) => Err(Refusal::Detail(d)),
                                                        Ok(maximum_infiltration) => {
                                                            Ok(InfiltrationConfiguration::ModifiedHorton { initial_rate, minimum_rate, decay_coefficient, drying_time_days, maximum_infiltration })
                                                        },
                                                    }
                                                },
                                            }
                                        },
                                    }
                                },
                            }
                        },
                    }
                } else if kind@ == "green_ampt"@ {
                    match spec_settings_number(value, "suction_head"@) {
                        Err(d) => Err(Refusal::Detail(d)),
                        Ok(suction_head) => {
                            match spec_settings_number(value, "hydraulic_conductivity"@) {
                                Err(d) => Err(Refusal::Detail(d)),
                                Ok(hydraulic_conductivity) => {
                                    match spec_settings_number(value, "initial_moisture_deficit"@) {
                                        Err(d) => Err(Refusal::Detail(d)),
                                        Ok(initial_moisture_deficit) => {
                                            Ok(InfiltrationConfiguration::GreenAmpt { suction_head, hydraulic_conductivity, initial_moisture_deficit })
                                        },
                                    }
                                },
                            }
                        },
                    }
                } else if kind@ == "modified_green_ampt"@ {
                    match spec_settings_number(value, "suction_head"@) {
                        Err(d) => Err(Refusal::Detail(d)),
                        Ok(suction_head) => {
                            match spec_settings_number(value, "hydraulic_conductivity"@) {
                                Err(d) => Err(Refusal::Detail(d)),
                                Ok(hydraulic_conductivity) => {
                                    match spec_settings_number(value, "initial_moisture_deficit"@) {
                                        Err(d) => Err(Refusal::Detail(d)),
                                        Ok(initial_moisture_deficit) => {
                                            Ok(InfiltrationConfiguration::ModifiedGreenAmpt { suction_head, hydraulic_conductivity, initial_moisture_deficit })
                                        },
                                    }
                                },
                            }
                        },
                    }
                } else if kind@ == "curve_number"@ {
                    match spec_settings_number(value, "curve_number"@) {
                        Err(d) => Err(Refusal::Detail(d)),
                        Ok(curve_number) => {
                            match spec_settings_number(value, "drying_time_days"@) {
                                Err(d) => Err(Refusal::Detail(d)),
                                Ok(drying_time_days) => {
                                    Ok(InfiltrationConfiguration::CurveNumber { curve_number, drying_time_days })
                                },
                            }
                        },
                    }
                } else {
                    Err(Refusal::Detail("invalid infiltration model"@))
                }
            },
        },
    }
}

/// Reads an optional non-boolean number held in an attribute slot, which must be present.
fn optional_slot(slot: &Option<PyValue>, name: &str) -> (result: Result<Option<Number>, NativeError>)
    ensures
        spec_policy_outcome(result, spec_optional_slot(*slot, name@), "update_subcatchment"),
{
    match slot {
        None => Err(subcatchment_py_error(detail("missing settings field: ", name))),
        Some(v) => settings_optional_float(v, name),
    }
}

/// Extracts one complete infiltration declaration.
pub fn infiltration_settings(value: PyValue) -> (result: Result<InfiltrationConfiguration, NativeError>)
    ensures
        spec_refusal_outcome(result, spec_infiltration_settings(value), "update_subcatchment"),
{
    let attributes = match value {
        PyValue::Declaration { attributes, .. } => attributes,
        _ => {
            return Err(subcatchment_py_error(detail("missing settings field: ", "kind")));
        },
    };
    let ghost all = attributes@;
    let names: Vec<&'static str> = vec!["kind", "initial_rate", "minimum_rate", "decay_coefficient", "drying_time_days", "maximum_infiltration", "suction_head", "hydraulic_conductivity", "initial_moisture_deficit", "curve_number"];
    proof {
        reveal_strlit("kind");
        reveal_strlit("initial_rate");
        reveal_strlit("minimum_rate");
        reveal_strlit("decay_coefficient");
        reveal_strlit("drying_time_days");
        reveal_strlit("maximum_infiltration");
        reveal_strlit("suction_head");
        reveal_strlit("hydraulic_conductivity");
        reveal_strlit("initial_moisture_deficit");
        reveal_strlit("curve_number");
        assert(names@[0]@ == "kind"@);
        assert(names@[1]@ == "initial_rate"@);
        assert(names@[2]@ == "minimum_rate"@);
        assert(names@[3]@ == "decay_coefficient"@);
        assert(names@[4]@ == "drying_time_days"@);
        assert(names@[5]@ == "maximum_infiltration"@);
        assert(names@[6]@ == "suction_head"@);
        assert(names@[7]@ == "hydraulic_conductivity"@);
        assert(names@[8]@ == "initial_moisture_deficit"@);
        assert(names@[9]@ == "curve_number"@);
        assert(names@[0]@.len() != names@[1]@.len());
        assert(names@[0]@.len() != names@[2]@.len());
        assert(names@[0]@.len() != names@[3]@.len());
        assert(names@[0]@.len() != names@[4]@.len());
        assert(names@[0]@.len() != names@[5]@.len());
        assert(names@[0]@.len() != names@[6]@.len());
        assert(names@[0]@.len() != names@[7]@.len());
        assert(names@[0]@.len() != names@[8]@.len());
        assert(names@[0]@.len() != names@[9]@.len());
        assert(names@[1]@[0] != names@[2]@[0]);
        assert(names@[1]@.len() != names@[3]@.len());
        assert(names@[1]@.len() != names@[4]@.len());
        assert(names@[1]@.len() != names@[5]@.len());
        assert(names@[1]@[0] != names@[6]@[0]);
        assert(names@[1]@.len() != names@[7]@.len());
        assert(names@[1]@.len() != names@[8]@.len());
        assert(names@[1]@[0] != names@[9]@[0]);
        assert(names@[2]@.len() != names@[3]@.len());
        assert(names@[2]@.len() != names@[4]@.len());
        assert(names@[2]@.len() != names@[5]@.len());
        assert(names@[2]@[0] != names@[6]@[0]);
        assert(names@[2]@.len() != names@[7]@.len());
        assert(names@[2]@.len() != names@[8]@.len());
        assert(names@[2]@[0] != names@[9]@[0]);
        assert(names@[3]@.len() != names@[4]@.len());
        assert(names@[3]@.len() != names@[5]@.len());
        assert(names@[3]@.len() != names@[6]@.len());
        assert(names@[3]@.len() != names@[7]@.len());
        assert(names@[3]@.len() != names@[8]@.len());
        assert(names@[3]@.len() != names@[9]@.len());
        assert(names@[4]@.len() != names@[5]@.len());
        assert(names@[4]@.len() != names@[6]@.len());
        assert(names@[4]@.len() != names@[7]@.len());
        assert(names@[4]@.len() != names@[8]@.len());
        assert(names@[4]@.len() != names@[9]@.len());
        assert(names@[5]@.len() != names@[6]@.len());
        assert(names@[5]@.len() != names@[7]@.len());
        assert(names@[5]@.len() != names@[8]@.len());
        assert(names@[5]@.len() != names@[9]@.len());
        assert(names@[6]@.len() != names@[7]@.len());
        assert(names@[6]@.len() != names@[8]@.len());
        assert(names@[6]@[0] != names@[9]@[0]);
        assert(names@[7]@.len() != names@[8]@.len());
        assert(names@[7]@.len() != names@[9]@.len());
        assert(names@[8]@.len() != names@[9]@.len());
        assert(forall|i: int, j: int|
            0 <= i < j < names@.len() ==> (#[trigger] names@[i])@ != (#[trigger] names@[j])@);
    }
    let slots = take_attributes(attributes, &names);
    let kind = match &slots[0] {
        None => {
            return Err(subcatchment_py_error(detail("missing settings field: ", "kind")));
        },
        Some(k) => match text_of(k) {
            None => {
                return Err(type_error("infiltration kind must be str"));
            },
            Some(kind) => kind,
        },
    };
    let k = kind.as_str();
    if crate::text::str_eq(k, "horton") {
        let initial_rate = match slot_number(&slots[1], "initial_rate") {
            Err(e) => {
                return Err(e);
            },
            Ok(n) => n,
        };
        let minimum_rate = match slot_number(&slots[2], "minimum_rate") {
            Err(e) => {
                return Err(e);
            },
            Ok(n) => n,
        };
        let decay_coefficient = match slot_number(&slots[3], "decay_coefficient") {
            Err(e) => {
                return Err(e);
            },
            Ok(n) => n,
        };
        let drying_time_days = match slot_number(&slots[4], "drying_time_days") {
            Err(e) => {
                return Err(e);
            },
            Ok(n) => n,
        };
        let maximum_infiltration = match optional_slot(&slots[5], "maximum_infiltration") {
            Err(e) => {
                return Err(e);
            },
            Ok(n) => n,
        };
        Ok(InfiltrationConfiguration::Horton { initial_rate, minimum_rate, decay_coefficient, drying_time_days, maximum_infiltration })
    } else if crate::text::str_eq(k, "modified_horton") {
        let initial_rate = match slot_number(&slots[1], "initial_rate") {
            Err(e) => {
                return Err(e);
            },
            Ok(n) => n,
        };
        let minimum_rate = match slot_number(&slots[2], "minimum_rate") {
            Err(e) => {
                return Err(e);
            },
            Ok(n) => n,
        };
        let decay_coefficient = match slot_number(&slots[3], "decay_coefficient") {
            Err(e) => {
                return Err(e);
            },
            Ok(n) => n,
        };
        let drying_time_days = match slot_number(&slots[4], "drying_time_days") {
            Err(e) => {
                return Err(e);
            },
            Ok(n) => n,
        };
        let maximum_infiltration = match optional_slot(&slots[5], "maximum_infiltration") {
            Err(e) => {
                return Err(e);
            },
            Ok(n) => n,
        };
        Ok(InfiltrationConfiguration::ModifiedHorton { initial_rate, minimum_rate, decay_coefficient, drying_time_days, maximum_infiltration })
    } else if crate::text::str_eq(k, "green_ampt") {
        let suction_head = match slot_number(&slots[6], "suction_head") {
            Err(e) => {
                return Err(e);
            },
            Ok(n) => n,
        };
        let hydraulic_conductivity = match slot_number(&slots[7], "hydraulic_conductivity") {
            Err(e) => {
                return Err(e);
            },
            Ok(n) => n,
        };
        let initial_moisture_deficit = match slot_number(&slots[8], "initial_moisture_deficit") {
            Err(e) => {
                return Err(e);
            },
            Ok(n) => n,
        };
        Ok(InfiltrationConfiguration::GreenAmpt { suction_head, hydraulic_conductivity, initial_moisture_deficit })
    } else if crate::text::str_eq(k, "modified_green_ampt") {
        let suction_head = match slot_number(&slots[6], "suction_head") {
            Err(e) => {
                return Err(e);
            },
            Ok(n) => n,
        };
        let hydraulic_conductivity = match slot_number(&slots[7], "hydraulic_conductivity") {
            Err(e) => {
                return Err(e);
            },
            Ok(n) => n,
        };
        let initial_moisture_deficit = match slot_number(&slots[8], "initial_moisture_deficit") {
            Err(e) => {
                return Err(e);
            },
            Ok(n) => n,
        };
        Ok(InfiltrationConfiguration::ModifiedGreenAmpt { suction_head, hydraulic_conductivity, initial_moisture_deficit })
    } else if crate::text::str_eq(k, "curve_number") {
        let curve_number = match slot_number(&slots[9], "curve_number") {
            Err(e) => {
                return Err(e);
            },
            Ok(n) => n,
        };
        let drying_time_days = match slot_number(&slots[4], "drying_time_days") {
            Err(e) => {
                return Err(e);
            },
            Ok(n) => n,
        };
        Ok(InfiltrationConfiguration::CurveNumber { curve_number, drying_time_days })
    } else {
        Err(subcatchment_py_error(String::from_str("invalid infiltration model")))
    }
}

/// The ten groundwater parameters, in project units.
#[derive(Clone, Copy, Debug, PartialEq, Eq, Structural)]
pub struct GroundwaterValues {
    pub surface_elevation: Number,
    pub groundwater_coefficient: Number,
    pub groundwater_exponent: Number,
    pub surface_coefficient: Number,
    pub surface_exponent: Number,
    pub interaction_coefficient: Number,
    pub fixed_surface_depth: Number,
    pub bottom_elevation: Number,
    pub water_table_elevation: Number,
    pub upper_moisture: Number,
}

/// One complete groundwater declaration whose aquifer and node are not validated yet.
#[derive(Debug)]
pub struct GroundwaterSettings {
    pub aquifer: RelatedObject,
    pub node: RelatedObject,
    pub values: GroundwaterValues,
}

/// A required related Live View held in an attribute slot.
pub open spec fn spec_slot_related(slot: Option<PyValue>, name: Seq<char>) -> Result<RelatedObject, Refusal> {
    match slot {
        None => Err(Refusal::Detail(spec_missing(name))),
        Some(v) => spec_required_related(v, name),
    }
}

/// One optional groundwater declaration: `None` removes groundwater.
pub open spec fn spec_groundwater_settings(value: PyValue) -> Result<Option<GroundwaterSettings>, Refusal> {
    if value is NoneValue {
        Ok(None)
    } else {
        match spec_slot_related(spec_settings_field(value, "aquifer"@), "aquifer"@) {
            Err(r) => Err(r),
            Ok(aquifer) => match spec_slot_related(spec_settings_field(value, "node"@), "node"@) {
                Err(r) => Err(r),
                Ok(node) => {
                    match spec_settings_number(value, "surface_elevation"@) {
                        Err(d) => Err(Refusal::Detail(d)),
                        Ok(surface_elevation) => {
                            match spec_settings_number(value, "groundwater_coefficient"@) {
                                Err(d) => Err(Refusal::Detail(d)),
                                Ok(groundwater_coefficient) => {
                                    match spec_settings_number(value, "groundwater_exponent"@) {
                                        Err(d) => Err(Refusal::Detail(d)),
                                        Ok(groundwater_exponent) => {
                                            match spec_settings_number(value, "surface_coefficient"@) {
                                                Err(d) => Err(Refusal::Detail(d)),
                                                Ok(surface_coefficient) => {
                                                    match spec_settings_number(value, "surface_exponent"@) {
                                                        Err(d) => Err(Refusal::Detail(d)),
                                                        Ok(surface_exponent) => {
                                                            match spec_settings_number(value, "interaction_coefficient"@) {
                                                                Err(d) => Err(Refusal::Detail(d)),
                                                                Ok(interaction_coefficient) => {
                                                                    match spec_settings_number(value, "fixed_surface_depth"@) {
                                                                        Err(d) => Err(Refusal::Detail(d)),
                                                                        Ok(fixed_surface_depth) => {
                                                                            match spec_settings_number(value, "bottom_elevation"@) {
                                                                                Err(d) => Err(Refusal::Detail(d)),
                                                                                Ok(bottom_elevation) => {
                                                                                    match spec_settings_number(value, "water_table_elevation"@) {
                                                                                        Err(d) => Err(Refusal::Detail(d)),
                                                                                        Ok(water_table_elevation) => {
                                                                                            match spec_settings_number(value, "upper_moisture"@) {
                                                                                                Err(d) => Err(Refusal::Detail(d)),
                                                                                                Ok(upper_moisture) => {
                                                                                                    Ok(Some(GroundwaterSettings { aquifer, node, values: GroundwaterValues { surface_elevation, groundwater_coefficient, groundwater_exponent, surface_coefficient, surface_exponent, interaction_coefficient, fixed_surface_depth, bottom_elevation, water_table_elevation, upper_moisture } }))
                                                                                                },
                                                                                            }
                                                                                        },
                                                                                    }
                                                                                },
                                                                            }
                                                                        },
                                                                    }
                                                                },
                                                            }
                                                        },
                                                    }
                                                },
                                            }
                                        },
                                    }
                                },
                            }
                        },
                    }
                },
            },
        }
    }
}

/// Reads a required related Live View held in an attribute slot.
fn slot_related(slot: Option<PyValue>, name: &str) -> (result: Result<RelatedObject, NativeError>)
    ensures
        spec_refusal_outcome(result, spec_slot_related(slot, name@), "update_subcatchment"),
{
    match slot {
        None => Err(subcatchment_py_error(detail("missing settings field: ", name))),
        Some(v) => subcatchment_related_view(v, name),
    }
}

/// Extracts one optional complete groundwater declaration.
pub fn groundwater_settings(value: PyValue) -> (result: Result<Option<GroundwaterSettings>, NativeError>)
    ensures
        spec_refusal_outcome(result, spec_groundwater_settings(value), "update_subcatchment"),
{
    let attributes = match value {
        PyValue::NoneValue => {
            return Ok(None);
        },
        PyValue::Declaration { attributes, .. } => attributes,
        _ => {
            return Err(subcatchment_py_error(detail("missing settings field: ", "aquifer")));
        },
    };
    let names: Vec<&'static str> = vec!["aquifer", "node", "surface_elevation", "groundwater_coefficient", "groundwater_exponent", "surface_coefficient", "surface_exponent", "interaction_coefficient", "fixed_surface_depth", "bottom_elevation", "water_table_elevation", "upper_moisture"];
    proof {
        reveal_strlit("aquifer");
        reveal_strlit("node");
        reveal_strlit("surface_elevation");
        reveal_strlit("groundwater_coefficient");
        reveal_strlit("groundwater_exponent");
        reveal_strlit("surface_coefficient");
        reveal_strlit("surface_exponent");
        reveal_strlit("interaction_coefficient");
        reveal_strlit("fixed_surface_depth");
        reveal_strlit("bottom_elevation");
        reveal_strlit("water_table_elevation");
        reveal_strlit("upper_moisture");
        assert(names@[0]@ == "aquifer"@);
        assert(names@[1]@ == "node"@);
        assert(names@[2]@ == "surface_elevation"@);
        assert(names@[3]@ == "groundwater_coefficient"@);
        assert(names@[4]@ == "groundwater_exponent"@);
        assert(names@[5]@ == "surface_coefficient"@);
        assert(names@[6]@ == "surface_exponent"@);
        assert(names@[7]@ == "interaction_coefficient"@);
        assert(names@[8]@ == "fixed_surface_depth"@);
        assert(names@[9]@ == "bottom_elevation"@);
        assert(names@[10]@ == "water_table_elevation"@);
        assert(names@[11]@ == "upper_moisture"@);
        assert(names@[0]@.len() != names@[1]@.len());
        assert(names@[0]@.len() != names@[2]@.len());
        assert(names@[0]@.len() != names@[3]@.len());
        assert(names@[0]@.len() != names@[4]@.len());
        assert(names@[0]@.len() != names@[5]@.len());
        assert(names@[0]@.len() != names@[6]@.len());
        assert(names@[0]@.len() != names@[7]@.len());
        assert(names@[0]@.len() != names@[8]@.len());
        assert(names@[0]@.len() != names@[9]@.len());
        assert(names@[0]@.len() != names@[10]@.len());
        assert(names@[0]@.len() != names@[11]@.len());
        assert(names@[1]@.len() != names@[2]@.len());
        assert(names@[1]@.len() != names@[3]@.len());
        assert(names@[1]@.len() != names@[4]@.len());
        assert(names@[1]@.len() != names@[5]@.len());
        assert(names@[1]@.len() != names@[6]@.len());
        assert(names@[1]@.len() != names@[7]@.len());
        assert(names@[1]@.len() != names@[8]@.len());
        assert(names@[1]@.len() != names@[9]@.len());
        assert(names@[1]@.len() != names@[10]@.len());
        assert(names@[1]@.len() != names@[11]@.len());
        assert(names@[2]@.len() != names@[3]@.len());
        assert(names@[2]@.len() != names@[4]@.len());
        assert(names@[2]@.len() != names@[5]@.len());
        assert(names@[2]@.len() != names@[6]@.len());
        assert(names@[2]@.len() != names@[7]@.len());
        assert(names@[2]@.len() != names@[8]@.len());
        assert(names@[2]@.len() != names@[9]@.len());
        assert(names@[2]@.len() != names@[10]@.len());
        assert(names@[2]@.len() != names@[11]@.len());
        assert(names@[3]@.len() != names@[4]@.len());
        assert(names@[3]@.len() != names@[5]@.len());
        assert(names@[3]@.len() != names@[6]@.len());
        assert(names@[3]@[0] != names@[7]@[0]);
        assert(names@[3]@.len() != names@[8]@.len());
        assert(names@[3]@.len() != names@[9]@.len());
        assert(names@[3]@.len() != names@[10]@.len());
        assert(names@[3]@.len() != names@[11]@.len());
        assert(names@[4]@.len() != names@[5]@.len());
        assert(names@[4]@.len() != names@[6]@.len());
        assert(names@[4]@.len() != names@[7]@.len());
        assert(names@[4]@.len() != names@[8]@.len());
        assert(names@[4]@.len() != names@[9]@.len());
        assert(names@[4]@.len() != names@[10]@.len());
        assert(names@[4]@.len() != names@[11]@.len());
        assert(names@[5]@.len() != names@[6]@.len());
        assert(names@[5]@.len() != names@[7]@.len());
        assert(names@[5]@[0] != names@[8]@[0]);
        assert(names@[5]@.len() != names@[9]@.len());
        assert(names@[5]@.len() != names@[10]@.len());
        assert(names@[5]@.len() != names@[11]@.len());
        assert(names@[6]@.len() != names@[7]@.len());
        assert(names@[6]@.len() != names@[8]@.len());
        assert(names@[6]@[0] != names@[9]@[0]);
        assert(names@[6]@.len() != names@[10]@.len());
        assert(names@[6]@.len() != names@[11]@.len());
        assert(names@[7]@.len() != names@[8]@.len());
        assert(names@[7]@.len() != names@[9]@.len());
        assert(names@[7]@.len() != names@[10]@.len());
        assert(names@[7]@.len() != names@[11]@.len());
        assert(names@[8]@.len() != names@[9]@.len());
        assert(names@[8]@.len() != names@[10]@.len());
        assert(names@[8]@.len() != names@[11]@.len());
        assert(names@[9]@.len() != names@[10]@.len());
        assert(names@[9]@.len() != names@[11]@.len());
        assert(names@[10]@.len() != names@[11]@.len());
        assert(forall|i: int, j: int|
            0 <= i < j < names@.len() ==> (#[trigger] names@[i])@ != (#[trigger] names@[j])@);
    }
    let mut slots = take_attributes(attributes, &names);
    let aquifer = match slot_related(take_slot(&mut slots, 0), "aquifer") {
        Err(e) => {
            return Err(e);
        },
        Ok(r) => r,
    };
    let node = match slot_related(take_slot(&mut slots, 1), "node") {
        Err(e) => {
            return Err(e);
        },
        Ok(r) => r,
    };
    let surface_elevation = match slot_number(&slots[2], "surface_elevation") {
        Err(e) => {
            return Err(e);
        },
        Ok(n) => n,
    };
    let groundwater_coefficient = match slot_number(&slots[3], "groundwater_coefficient") {
        Err(e) => {
            return Err(e);
        },
        Ok(n) => n,
    };
    let groundwater_exponent = match slot_number(&slots[4], "groundwater_exponent") {
        Err(e) => {
            return Err(e);
        },
        Ok(n) => n,
    };
    let surface_coefficient = match slot_number(&slots[5], "surface_coefficient") {
        Err(e) => {
            return Err(e);
        },
        Ok(n) => n,
    };
    let surface_exponent = match slot_number(&slots[6], "surface_exponent") {
        Err(e) => {
            return Err(e);
        },
        Ok(n) => n,
    };
    let interaction_coefficient = match slot_number(&slots[7], "interaction_coefficient") {
        Err(e) => {
            return Err(e);
        },
        Ok(n) => n,
    };
    let fixed_surface_depth = match slot_number(&slots[8], "fixed_surface_depth") {
        Err(e) => {
            return Err(e);
        },
        Ok(n) => n,
    };
    let bottom_elevation = match slot_number(&slots[9], "bottom_elevation") {
        Err(e) => {
            return Err(e);
        },
        Ok(n) => n,
    };
    let water_table_elevation = match slot_number(&slots[10], "water_table_elevation") {
        Err(e) => {
            return Err(e);
        },
        Ok(n) => n,
    };
    let upper_moisture = match slot_number(&slots[11], "upper_moisture") {
        Err(e) => {
            return Err(e);
        },
        Ok(n) => n,
    };
    Ok(Some(GroundwaterSettings { aquifer, node, values: GroundwaterValues { surface_elevation, groundwater_coefficient, groundwater_exponent, surface_coefficient, surface_exponent, interaction_coefficient, fixed_surface_depth, bottom_elevation, water_table_elevation, upper_moisture } }))
}

/// The scalar settings of a subcatchment update, in project units.
#[derive(Debug)]
pub struct SubcatchmentScalars {
    pub tag: Option<String>,
    pub area: Option<Number>,
    pub width: Option<Number>,
    pub slope: Option<Number>,
    pub curb_length: Option<Number>,
    pub impervious_fraction: Option<Number>,
    pub zero_impervious_fraction: Option<Number>,
    pub impervious_roughness: Option<Number>,
    pub pervious_roughness: Option<Number>,
    pub impervious_depression_storage: Option<Number>,
    pub pervious_depression_storage: Option<Number>,
    pub included_in_report: Option<bool>,
}

/// Every supplied root subcatchment setting, with its relationships and named entries not
/// resolved yet: `Some(None)` removes groundwater or the snowpack.
#[derive(Debug)]
pub struct SubcatchmentUpdate {
    pub scalars: SubcatchmentScalars,
    pub rain_gage: Option<RelatedObject>,
    pub outlet: Option<RelatedObject>,
    pub infiltration: Option<InfiltrationConfiguration>,
    pub groundwater: Option<Option<GroundwaterSettings>>,
    pub snowpack: Option<Option<RelatedObject>>,
    pub loading: Option<Vec<(String, Number)>>,
    pub coverage: Option<Vec<(String, Number)>>,
}

/// The settings a subcatchment update holds, its named entries as sequences.
pub struct SubcatchmentUpdateView {
    pub scalars: SubcatchmentScalars,
    pub rain_gage: Option<RelatedObject>,
    pub outlet: Option<RelatedObject>,
    pub infiltration: Option<InfiltrationConfiguration>,
    pub groundwater: Option<Option<GroundwaterSettings>>,
    pub snowpack: Option<Option<RelatedObject>>,
    pub loading: Option<Seq<(String, Number)>>,
    pub coverage: Option<Seq<(String, Number)>>,
}

/// The sequence an optional vector holds.
pub open spec fn spec_opt_seq<T>(v: Option<Vec<T>>) -> Option<Seq<T>> {
    match v {
        Some(v) => Some(v@),
        None => None,
    }
}

impl View for SubcatchmentUpdate {
    type V = SubcatchmentUpdateView;

    open spec fn view(&self) -> SubcatchmentUpdateView {
        SubcatchmentUpdateView {
            scalars: self.scalars,
            rain_gage: self.rain_gage,
            outlet: self.outlet,
            infiltration: self.infiltration,
            groundwater: self.groundwater,
            snowpack: self.snowpack,
            loading: spec_opt_seq(self.loading),
            coverage: spec_opt_seq(self.coverage),
        }
    }
}

/// The empty subcatchment update.
pub open spec fn spec_empty_subcatchment_update() -> SubcatchmentUpdateView {
    SubcatchmentUpdateView {
        scalars: SubcatchmentScalars {
            tag: None,
            area: None,
            width: None,
            slope: None,
            curb_length: None,
            impervious_fraction: None,
            zero_impervious_fraction: None,
            impervious_roughness: None,
            pervious_roughness: None,
            impervious_depression_storage: None,
            pervious_depression_storage: None,
            included_in_report: None,
        },
        rain_gage: None,
        outlet: None,
        infiltration: None,
        groundwater: None,
        snowpack: None,
        loading: None,
        coverage: None,
    }
}

/// Creates the empty subcatchment update.
fn empty_subcatchment_update() -> (update: SubcatchmentUpdate)
    ensures
        update@ == spec_empty_subcatchment_update(),
{
    SubcatchmentUpdate {
        scalars: SubcatchmentScalars {
            tag: None,
            area: None,
            width: None,
            slope: None,
            curb_length: None,
            impervious_fraction: None,
            zero_impervious_fraction: None,
            impervious_roughness: None,
            pervious_roughness: None,
            impervious_depression_storage: None,
            pervious_depression_storage: None,
            included_in_report: None,
        },
        rain_gage: None,
        outlet: None,
        infiltration: None,
        groundwater: None,
        snowpack: None,
        loading: None,
        coverage: None,
    }
}

/// `update` with one supplied `(key, value)` subcatchment setting applied.
pub open spec fn spec_apply_subcatchment_change(u: SubcatchmentUpdateView, key: Option<String>, value: PyValue) -> Result<
    SubcatchmentUpdateView,
    Refusal,
> {
    match key {
        None => Err(Refusal::Detail("subcatchment update fields must be strings"@)),
        Some(k) => {
            let name = k@;
            if name == "tag"@ {
                match spec_text(value) {
                    None => Err(Refusal::Detail("tag must be str"@)),
                    Some(t) => Ok(SubcatchmentUpdateView { scalars: SubcatchmentScalars { tag: Some(t), ..u.scalars }, ..u }),
                }
            } else if name == "area"@ {
                match spec_lenient_number(value, "area"@) {
                    Err(d) => Err(Refusal::Detail(d)),
                    Ok(v) => Ok(SubcatchmentUpdateView { scalars: SubcatchmentScalars { area: Some(v), ..u.scalars }, ..u }),
                }
            } else if name == "width"@ {
                match spec_lenient_number(value, "width"@) {
                    Err(d) => Err(Refusal::Detail(d)),
                    Ok(v) => Ok(SubcatchmentUpdateView { scalars: SubcatchmentScalars { width: Some(v), ..u.scalars }, ..u }),
                }
            } else if name == "slope"@ {
                match spec_lenient_number(value, "slope"@) {
                    Err(d) => Err(Refusal::Detail(d)),
                    Ok(v) => Ok(SubcatchmentUpdateView { scalars: SubcatchmentScalars { slope: Some(v), ..u.scalars }, ..u }),
                }
            } else if name == "curb_length"@ {
                match spec_lenient_number(value, "curb_length"@) {
                    Err(d) => Err(Refusal::Detail(d)),
                    Ok(v) => Ok(SubcatchmentUpdateView { scalars: SubcatchmentScalars { curb_length: Some(v), ..u.scalars }, ..u }),
                }
            } else if name == "impervious_fraction"@ {
                match spec_lenient_number(value, "impervious_fraction"@) {
                    Err(d) => Err(Refusal::Detail(d)),
                    Ok(v) => Ok(SubcatchmentUpdateView { scalars: SubcatchmentScalars { impervious_fraction: Some(v), ..u.scalars }, ..u }),
                }
            } else if name == "zero_impervious_fraction"@ {
                match spec_lenient_number(value, "zero_impervious_fraction"@) {
                    Err(d) => Err(Refusal::Detail(d)),
                    Ok(v) => Ok(SubcatchmentUpdateView { scalars: SubcatchmentScalars { zero_impervious_fraction: Some(v), ..u.scalars }, ..u }),
                }
            } else if name == "impervious_roughness"@ {
                match spec_lenient_number(value, "impervious_roughness"@) {
                    Err(d) => Err(Refusal::Detail(d)),
                    Ok(v) => Ok(SubcatchmentUpdateView { scalars: SubcatchmentScalars { impervious_roughness: Some(v), ..u.scalars }, ..u }),
                }
            } else if name == "pervious_roughness"@ {
                match spec_lenient_number(value, "pervious_roughness"@) {
                    Err(d) => Err(Refusal::Detail(d)),
                    Ok(v) => Ok(SubcatchmentUpdateView { scalars: SubcatchmentScalars { pervious_roughness: Some(v), ..u.scalars }, ..u }),
                }
            } else if name == "impervious_depression_storage"@ {
                match spec_lenient_number(value, "impervious_depression_storage"@) {
                    Err(d) => Err(Refusal::Detail(d)),
                    Ok(v) => Ok(SubcatchmentUpdateView { scalars: SubcatchmentScalars { impervious_depression_storage: Some(v), ..u.scalars }, ..u }),
                }
            } else if name == "pervious_depression_storage"@ {
                match spec_lenient_number(value, "pervious_depression_storage"@) {
                    Err(d) => Err(Refusal::Detail(d)),
                    Ok(v) => Ok(SubcatchmentUpdateView { scalars: SubcatchmentScalars { pervious_depression_storage: Some(v), ..u.scalars }, ..u }),
                }
            } else if name == "included_in_report"@ {
                match spec_strict_bool(value, "included_in_report"@) {
                    Err(d) => Err(Refusal::Detail(d)),
                    Ok(v) => Ok(SubcatchmentUpdateView { scalars: SubcatchmentScalars { included_in_report: Some(v), ..u.scalars }, ..u }),
                }
            } else if name == "rain_gage"@ {
                match spec_required_related(value, "rain_gage"@) {
                    Err(r) => Err(r),
                    Ok(r) => Ok(SubcatchmentUpdateView { rain_gage: Some(r), ..u }),
                }
            } else if name == "outlet"@ {
                match spec_required_related(value, "outlet"@) {
                    Err(r) => Err(r),
                    Ok(r) => Ok(SubcatchmentUpdateView { outlet: Some(r), ..u }),
                }
            } else if name == "infiltration"@ {
                match spec_infiltration_settings(value) {
                    Err(r) => Err(r),
                    Ok(i) => Ok(SubcatchmentUpdateView { infiltration: Some(i), ..u }),
                }
            } else if name == "groundwater"@ {
                match spec_groundwater_settings(value) {
                    Err(r) => Err(r),
                    Ok(g) => Ok(SubcatchmentUpdateView { groundwater: Some(g), ..u }),
                }
            } else if name == "snowpack"@ {
                if value is NoneValue {
                    Ok(SubcatchmentUpdateView { snowpack: Some(None), ..u })
                } else {
                    match spec_required_related(value, "snowpack"@) {
                        Err(r) => Err(r),
                        Ok(r) => Ok(SubcatchmentUpdateView { snowpack: Some(Some(r)), ..u }),
                    }
                }
            } else if name == "initial_buildup"@ {
                match spec_named_values(value, "initial_buildup"@) {
                    Err(r) => Err(r),
                    Ok(v) => Ok(SubcatchmentUpdateView { loading: Some(v), ..u }),
                }
            } else if name == "coverage_fractions"@ {
                match spec_named_values(value, "coverage_fractions"@) {
                    Err(r) => Err(r),
                    Ok(v) => Ok(SubcatchmentUpdateView { coverage: Some(v), ..u }),
                }
            } else {
                Err(Refusal::Detail("unknown subcatchment field: "@ + name))
            }
        },
    }
}

/// Each supported subcatchment setting lands in its own field of the update, taking the value read from what was supplied for it, and nothing else changes.
pub proof fn lemma_subcatchment_settings_land_in_their_fields(u: SubcatchmentUpdateView)
    ensures
        forall|k: String, value: PyValue| k@ == "area"@ && spec_lenient_number(value, "area"@) is Ok ==> #[trigger] spec_apply_subcatchment_change(u, Some(k), value) == Ok::<SubcatchmentUpdateView, Refusal>(SubcatchmentUpdateView { scalars: SubcatchmentScalars { area: Some((spec_lenient_number(value, "area"@)->Ok_0)), ..u.scalars }, ..u }),
        forall|k: String, value: PyValue| k@ == "width"@ && spec_lenient_number(value, "width"@) is Ok ==> #[trigger] spec_apply_subcatchment_change(u, Some(k), value) == Ok::<SubcatchmentUpdateView, Refusal>(SubcatchmentUpdateView { scalars: SubcatchmentScalars { width: Some((spec_lenient_number(value, "width"@)->Ok_0)), ..u.scalars }, ..u }),
        forall|k: String, value: PyValue| k@ == "slope"@ && spec_lenient_number(value, "slope"@) is Ok ==> #[trigger] spec_apply_subcatchment_change(u, Some(k), value) == Ok::<SubcatchmentUpdateView, Refusal>(SubcatchmentUpdateView { scalars: SubcatchmentScalars { slope: Some((spec_lenient_number(value, "slope"@)->Ok_0)), ..u.scalars }, ..u }),
        forall|k: String, value: PyValue| k@ == "curb_length"@ && spec_lenient_number(value, "curb_length"@) is Ok ==> #[trigger] spec_apply_subcatchment_change(u, Some(k), value) == Ok::<SubcatchmentUpdateView, Refusal>(SubcatchmentUpdateView { scalars: SubcatchmentScalars { curb_length: Some((spec_lenient_number(value, "curb_length"@)->Ok_0)), ..u.scalars }, ..u }),
        forall|k: String, value: PyValue| k@ == "impervious_fraction"@ && spec_lenient_number(value, "impervious_fraction"@) is Ok ==> #[trigger] spec_apply_subcatchment_change(u, Some(k), value) == Ok::<SubcatchmentUpdateView, Refusal>(SubcatchmentUpdateView { scalars: SubcatchmentScalars { impervious_fraction: Some((spec_lenient_number(value, "impervious_fraction"@)->Ok_0)), ..u.scalars }, ..u }),
        forall|k: String, value: PyValue| k@ == "zero_impervious_fraction"@ && spec_lenient_number(value, "zero_impervious_fraction"@) is Ok ==> #[trigger] spec_apply_subcatchment_change(u, Some(k), value) == Ok::<SubcatchmentUpdateView, Refusal>(SubcatchmentUpdateView { scalars: SubcatchmentScalars { zero_impervious_fraction: Some((spec_lenient_number(value, "zero_impervious_fraction"@)->Ok_0)), ..u.scalars }, ..u }),
        forall|k: String, value: PyValue| k@ == "impervious_roughness"@ && spec_lenient_number(value, "impervious_roughness"@) is Ok ==> #[trigger] spec_apply_subcatchment_change(u, Some(k), value) == Ok::<SubcatchmentUpdateView, Refusal>(SubcatchmentUpdateView { scalars: SubcatchmentScalars { impervious_roughness: Some((spec_lenient_number(value, "impervious_roughness"@)->Ok_0)), ..u.scalars }, ..u }),
        forall|k: String, value: PyValue| k@ == "pervious_roughness"@ && spec_lenient_number(value, "pervious_roughness"@) is Ok ==> #[trigger] spec_apply_subcatchment_change(u, Some(k), value) == Ok::<SubcatchmentUpdateView, Refusal>(SubcatchmentUpdateView { scalars: SubcatchmentScalars { pervious_roughness: Some((spec_lenient_number(value, "pervious_roughness"@)->Ok_0)), ..u.scalars }, ..u }),
        forall|k: String, value: PyValue| k@ == "impervious_depression_storage"@ && spec_lenient_number(value, "impervious_depression_storage"@) is Ok ==> #[trigger] spec_apply_subcatchment_change(u, Some(k), value) == Ok::<SubcatchmentUpdateView, Refusal>(SubcatchmentUpdateView { scalars: SubcatchmentScalars { impervious_depression_storage: Some((spec_lenient_number(value, "impervious_depression_storage"@)->Ok_0)), ..u.scalars }, ..u }),
        forall|k: String, value: PyValue| k@ == "pervious_depression_storage"@ && spec_lenient_number(value, "pervious_depression_storage"@) is Ok ==> #[trigger] spec_apply_subcatchment_change(u, Some(k), value) == Ok::<SubcatchmentUpdateView, Refusal>(SubcatchmentUpdateView { scalars: SubcatchmentScalars { pervious_depression_storage: Some((spec_lenient_number(value, "pervious_depression_storage"@)->Ok_0)), ..u.scalars }, ..u }),
        forall|k: String, value: PyValue| k@ == "included_in_report"@ && spec_strict_bool(value, "included_in_report"@) is Ok ==> #[trigger] spec_apply_subcatchment_change(u, Some(k), value) == Ok::<SubcatchmentUpdateView, Refusal>(SubcatchmentUpdateView { scalars: SubcatchmentScalars { included_in_report: Some((spec_strict_bool(value, "included_in_report"@)->Ok_0)), ..u.scalars }, ..u }),
        forall|k: String, value: PyValue| k@ == "rain_gage"@ && spec_required_related(value, "rain_gage"@) is Ok ==> #[trigger] spec_apply_subcatchment_change(u, Some(k), value) == Ok::<SubcatchmentUpdateView, Refusal>(SubcatchmentUpdateView { rain_gage: Some((spec_required_related(value, "rain_gage"@)->Ok_0)), ..u }),
        forall|k: String, value: PyValue| k@ == "outlet"@ && spec_required_related(value, "outlet"@) is Ok ==> #[trigger] spec_apply_subcatchment_change(u, Some(k), value) == Ok::<SubcatchmentUpdateView, Refusal>(SubcatchmentUpdateView { outlet: Some((spec_required_related(value, "outlet"@)->Ok_0)), ..u }),
        forall|k: String, value: PyValue| k@ == "infiltration"@ && spec_infiltration_settings(value) is Ok ==> #[trigger] spec_apply_subcatchment_change(u, Some(k), value) == Ok::<SubcatchmentUpdateView, Refusal>(SubcatchmentUpdateView { infiltration: Some((spec_infiltration_settings(value)->Ok_0)), ..u }),
        forall|k: String, value: PyValue| k@ == "groundwater"@ && spec_groundwater_settings(value) is Ok ==> #[trigger] spec_apply_subcatchment_change(u, Some(k), value) == Ok::<SubcatchmentUpdateView, Refusal>(SubcatchmentUpdateView { groundwater: Some((spec_groundwater_settings(value)->Ok_0)), ..u }),
        forall|k: String, value: PyValue| k@ == "initial_buildup"@ && spec_named_values(value, "initial_buildup"@) is Ok ==> #[trigger] spec_apply_subcatchment_change(u, Some(k), value) == Ok::<SubcatchmentUpdateView, Refusal>(SubcatchmentUpdateView { loading: Some((spec_named_values(value, "initial_buildup"@)->Ok_0)), ..u }),
        forall|k: String, value: PyValue| k@ == "coverage_fractions"@ && spec_named_values(value, "coverage_fractions"@) is Ok ==> #[trigger] spec_apply_subcatchment_change(u, Some(k), value) == Ok::<SubcatchmentUpdateView, Refusal>(SubcatchmentUpdateView { coverage: Some((spec_named_values(value, "coverage_fractions"@)->Ok_0)), ..u }),
{
    assert forall|k: String, value: PyValue| k@ == "area"@ && spec_lenient_number(value, "area"@) is Ok implies #[trigger] spec_apply_subcatchment_change(u, Some(k), value) == Ok::<SubcatchmentUpdateView, Refusal>(SubcatchmentUpdateView { scalars: SubcatchmentScalars { area: Some((spec_lenient_number(value, "area"@)->Ok_0)), ..u.scalars }, ..u }) by {
        reveal_strlit("area");
        reveal_strlit("tag");
        assert("area"@.len() != "tag"@.len());
    }
    assert forall|k: String, value: PyValue| k@ == "width"@ && spec_lenient_number(value, "width"@) is Ok implies #[trigger] spec_apply_subcatchment_change(u, Some(k), value) == Ok::<SubcatchmentUpdateView, Refusal>(SubcatchmentUpdateView { scalars: SubcatchmentScalars { width: Some((spec_lenient_number(value, "width"@)->Ok_0)), ..u.scalars }, ..u }) by {
        reveal_strlit("width");
        reveal_strlit("tag");
        assert("width"@.len() != "tag"@.len());
        reveal_strlit("area");
        assert("width"@.len() != "area"@.len());
    }
    assert forall|k: String, value: PyValue| k@ == "slope"@ && spec_lenient_number(value, "slope"@) is Ok implies #[trigger] spec_apply_subcatchment_change(u, Some(k), value) == Ok::<SubcatchmentUpdateView, Refusal>(SubcatchmentUpdateView { scalars: SubcatchmentScalars { slope: Some((spec_lenient_number(value, "slope"@)->Ok_0)), ..u.scalars }, ..u }) by {
        reveal_strlit("slope");
        reveal_strlit("tag");
        assert("slope"@.len() != "tag"@.len());
        reveal_strlit("area");
        assert("slope"@.len() != "area"@.len());
        reveal_strlit("width");
        assert("slope"@ != "width"@) by { assert("slope"@[0] != "width"@[0]); }
    }
    assert forall|k: String, value: PyValue| k@ == "curb_length"@ && spec_lenient_number(value, "curb_length"@) is Ok implies #[trigger] spec_apply_subcatchment_change(u, Some(k), value) == Ok::<SubcatchmentUpdateView, Refusal>(SubcatchmentUpdateView { scalars: SubcatchmentScalars { curb_length: Some((spec_lenient_number(value, "curb_length"@)->Ok_0)), ..u.scalars }, ..u }) by {
        reveal_strlit("curb_length");
        reveal_strlit("tag");
        assert("curb_length"@.len() != "tag"@.len());
        reveal_strlit("area");
        assert("curb_length"@.len() != "area"@.len());
        reveal_strlit("width");
        assert("curb_length"@.len() != "width"@.len());
        reveal_strlit("slope");
        assert("curb_length"@.len() != "slope"@.len());
    }
    assert forall|k: String, value: PyValue| k@ == "impervious_fraction"@ && spec_lenient_number(value, "impervious_fraction"@) is Ok implies #[trigger] spec_apply_subcatchment_change(u, Some(k), value) == Ok::<SubcatchmentUpdateView, Refusal>(SubcatchmentUpdateView { scalars: SubcatchmentScalars { impervious_fraction: Some((spec_lenient_number(value, "impervious_fraction"@)->Ok_0)), ..u.scalars }, ..u }) by {
        reveal_strlit("impervious_fraction");
        reveal_strlit("tag");
        assert("impervious_fraction"@.len() != "tag"@.len());
        reveal_strlit("area");
        assert("impervious_fraction"@.len() != "area"@.len());
        reveal_strlit("width");
        assert("impervious_fraction"@.len() != "width"@.len());
        reveal_strlit("slope");
        assert("impervious_fraction"@.len() != "slope"@.len());
        reveal_strlit("curb_length");
        assert("impervious_fraction"@.len() != "curb_length"@.len());
    }
    assert forall|k: String, value: PyValue| k@ == "zero_impervious_fraction"@ && spec_lenient_number(value, "zero_impervious_fraction"@) is Ok implies #[trigger] spec_apply_subcatchment_change(u, Some(k), value) == Ok::<SubcatchmentUpdateView, Refusal>(SubcatchmentUpdateView { scalars: SubcatchmentScalars { zero_impervious_fraction: Some((spec_lenient_number(value, "zero_impervious_fraction"@)->Ok_0)), ..u.scalars }, ..u }) by {
        reveal_strlit("zero_impervious_fraction");
        reveal_strlit("tag");
        assert("zero_impervious_fraction"@.len() != "tag"@.len());
        reveal_strlit("area");
        assert("zero_impervious_fraction"@.len() != "area"@.len());
        reveal_strlit("width");
        assert("zero_impervious_fraction"@.len() != "width"@.len());
        reveal_strlit("slope");
        assert("zero_impervious_fraction"@.len() != "slope"@.len());
        reveal_strlit("curb_length");
        assert("zero_impervious_fraction"@.len() != "curb_length"@.len());
        reveal_strlit("impervious_fraction");
        assert("zero_impervious_fraction"@.len() != "impervious_fraction"@.len());
    }
    assert forall|k: String, value: PyValue| k@ == "impervious_roughness"@ && spec_lenient_number(value, "impervious_roughness"@) is Ok implies #[trigger] spec_apply_subcatchment_change(u, Some(k), value) == Ok::<SubcatchmentUpdateView, Refusal>(SubcatchmentUpdateView { scalars: SubcatchmentScalars { impervious_roughness: Some((spec_lenient_number(value, "impervious_roughness"@)->Ok_0)), ..u.scalars }, ..u }) by {
        reveal_strlit("impervious_roughness");
        reveal_strlit("tag");
        assert("impervious_roughness"@.len() != "tag"@.len());
        reveal_strlit("area");
        assert("impervious_roughness"@.len() != "area"@.len());
        reveal_strlit("width");
        assert("impervious_roughness"@.len() != "width"@.len());
        reveal_strlit("slope");
        assert("impervious_roughness"@.len() != "slope"@.len());
        reveal_strlit("curb_length");
        assert("impervious_roughness"@.len() != "curb_length"@.len());
        reveal_strlit("impervious_fraction");
        assert("impervious_roughness"@.len() != "impervious_fraction"@.len());
        reveal_strlit("zero_impervious_fraction");
        assert("impervious_roughness"@.len() != "zero_impervious_fraction"@.len());
    }
    assert forall|k: String, value: PyValue| k@ == "pervious_roughness"@ && spec_lenient_number(value, "pervious_roughness"@) is Ok implies #[trigger] spec_apply_subcatchment_change(u, Some(k), value) == Ok::<SubcatchmentUpdateView, Refusal>(SubcatchmentUpdateView { scalars: SubcatchmentScalars { pervious_roughness: Some((spec_lenient_number(value, "pervious_roughness"@)->Ok_0)), ..u.scalars }, ..u }) by {
        reveal_strlit("pervious_roughness");
        reveal_strlit("tag");
        assert("pervious_roughness"@.len() != "tag"@.len());
        reveal_strlit("area");
        assert("pervious_roughness"@.len() != "area"@.len());
        reveal_strlit("width");
        assert("pervious_roughness"@.len() != "width"@.len());
        reveal_strlit("slope");
        assert("pervious_roughness"@.len() != "slope"@.len());
        reveal_strlit("curb_length");
        assert("pervious_roughness"@.len() != "curb_length"@.len());
        reveal_strlit("impervious_fraction");
        assert("pervious_roughness"@.len() != "impervious_fraction"@.len());
        reveal_strlit("zero_impervious_fraction");
        assert("pervious_roughness"@.len() != "zero_impervious_fraction"@.len());
        reveal_strlit("impervious_roughness");
        assert("pervious_roughness"@.len() != "impervious_roughness"@.len());
    }
    assert forall|k: String, value: PyValue| k@ == "impervious_depression_storage"@ && spec_lenient_number(value, "impervious_depression_storage"@) is Ok implies #[trigger] spec_apply_subcatchment_change(u, Some(k), value) == Ok::<SubcatchmentUpdateView, Refusal>(SubcatchmentUpdateView { scalars: SubcatchmentScalars { impervious_depression_storage: Some((spec_lenient_number(value, "impervious_depression_storage"@)->Ok_0)), ..u.scalars }, ..u }) by {
        reveal_strlit("impervious_depression_storage");
        reveal_strlit("tag");
        assert("impervious_depression_storage"@.len() != "tag"@.len());
        reveal_strlit("area");
        assert("impervious_depression_storage"@.len() != "area"@.len());
        reveal_strlit("width");
        assert("impervious_depression_storage"@.len() != "width"@.len());
        reveal_strlit("slope");
        assert("impervious_depression_storage"@.len() != "slope"@.len());
        reveal_strlit("curb_length");
        assert("impervious_depression_storage"@.len() != "curb_length"@.len());
        reveal_strlit("impervious_fraction");
        assert("impervious_depression_storage"@.len() != "impervious_fraction"@.len());
        reveal_strlit("zero_impervious_fraction");
        assert("impervious_depression_storage"@.len() != "zero_impervious_fraction"@.len());
        reveal_strlit("impervious_roughness");
        assert("impervious_depression_storage"@.len() != "impervious_roughness"@.len());
        reveal_strlit("pervious_roughness");
        assert("impervious_depression_storage"@.len() != "pervious_roughness"@.len());
    }
    assert forall|k: String, value: PyValue| k@ == "pervious_depression_storage"@ && spec_lenient_number(value, "pervious_depression_storage"@) is Ok implies #[trigger] spec_apply_subcatchment_change(u, Some(k), value) == Ok::<SubcatchmentUpdateView, Refusal>(SubcatchmentUpdateView { scalars: SubcatchmentScalars { pervious_depression_storage: Some((spec_lenient_number(value, "pervious_depression_storage"@)->Ok_0)), ..u.scalars }, ..u }) by {
        reveal_strlit("pervious_depression_storage");
        reveal_strlit("tag");
        assert("pervious_depression_storage"@.len() != "tag"@.len());
        reveal_strlit("area");
        assert("pervious_depression_storage"@.len() != "area"@.len());
        reveal_strlit("width");
        assert("pervious_depression_storage"@.len() != "width"@.len());
        reveal_strlit("slope");
        assert("pervious_depression_storage"@.len() != "slope"@.len());
        reveal_strlit("curb_length");
        assert("pervious_depression_storage"@.len() != "curb_length"@.len());
        reveal_strlit("impervious_fraction");
        assert("pervious_depression_storage"@.len() != "impervious_fraction"@.len());
        reveal_strlit("zero_impervious_fraction");
        assert("pervious_depression_storage"@.len() != "zero_impervious_fraction"@.len());
        reveal_strlit("impervious_roughness");
        assert("pervious_depression_storage"@.len() != "impervious_roughness"@.len());
        reveal_strlit("pervious_roughness");
        assert("pervious_depression_storage"@.len() != "pervious_roughness"@.len());
        reveal_strlit("impervious_depression_storage");
        assert("pervious_depression_storage"@.len() != "impervious_depression_storage"@.len());
    }
    assert forall|k: String, value: PyValue| k@ == "included_in_report"@ && spec_strict_bool(value, "included_in_report"@) is Ok implies #[trigger] spec_apply_subcatchment_change(u, Some(k), value) == Ok::<SubcatchmentUpdateView, Refusal>(SubcatchmentUpdateView { scalars: SubcatchmentScalars { included_in_report: Some((spec_strict_bool(value, "included_in_report"@)->Ok_0)), ..u.scalars }, ..u }) by {
        reveal_strlit("included_in_report");
        reveal_strlit("tag");
        assert("included_in_report"@.len() != "tag"@.len());
        reveal_strlit("area");
        assert("included_in_report"@.len() != "area"@.len());
        reveal_strlit("width");
        assert("included_in_report"@.len() != "width"@.len());
        reveal_strlit("slope");
        assert("included_in_report"@.len() != "slope"@.len());
        reveal_strlit("curb_length");
        assert("included_in_report"@.len() != "curb_length"@.len());
        reveal_strlit("impervious_fraction");
        assert("included_in_report"@.len() != "impervious_fraction"@.len());
        reveal_strlit("zero_impervious_fraction");
        assert("included_in_report"@.len() != "zero_impervious_fraction"@.len());
        reveal_strlit("impervious_roughness");
        assert("included_in_report"@.len() != "impervious_roughness"@.len());
        reveal_strlit("pervious_roughness");
        assert("included_in_report"@ != "pervious_roughness"@) by { assert("included_in_report"@[0] != "pervious_roughness"@[0]); }
        reveal_strlit("impervious_depression_storage");
        assert("included_in_report"@.len() != "impervious_depression_storage"@.len());
        reveal_strlit("pervious_depression_storage");
        assert("included_in_report"@.len() != "pervious_depression_storage"@.len());
    }
    assert forall|k: String, value: PyValue| k@ == "rain_gage"@ && spec_required_related(value, "rain_gage"@) is Ok implies #[trigger] spec_apply_subcatchment_change(u, Some(k), value) == Ok::<SubcatchmentUpdateView, Refusal>(SubcatchmentUpdateView { rain_gage: Some((spec_required_related(value, "rain_gage"@)->Ok_0)), ..u }) by {
        reveal_strlit("rain_gage");
        reveal_strlit("tag");
        assert("rain_gage"@.len() != "tag"@.len());
        reveal_strlit("area");
        assert("rain_gage"@.len() != "area"@.len());
        reveal_strlit("width");
        assert("rain_gage"@.len() != "width"@.len());
        reveal_strlit("slope");
        assert("rain_gage"@.len() != "slope"@.len());
        reveal_strlit("curb_length");
        assert("rain_gage"@.len() != "curb_length"@.len());
        reveal_strlit("impervious_fraction");
        assert("rain_gage"@.len() != "impervious_fraction"@.len());
        reveal_strlit("zero_impervious_fraction");
        assert("rain_gage"@.len() != "zero_impervious_fraction"@.len());
        reveal_strlit("impervious_roughness");
        assert("rain_gage"@.len() != "impervious_roughness"@.len());
        reveal_strlit("pervious_roughness");
        assert("rain_gage"@.len() != "pervious_roughness"@.len());
        reveal_strlit("impervious_depression_storage");
        assert("rain_gage"@.len() != "impervious_depression_storage"@.len());
        reveal_strlit("pervious_depression_storage");
        assert("rain_gage"@.len() != "pervious_depression_storage"@.len());
        reveal_strlit("included_in_report");
        assert("rain_gage"@.len() != "included_in_report"@.len());
    }
    assert forall|k: String, value: PyValue| k@ == "outlet"@ && spec_required_related(value, "outlet"@) is Ok implies #[trigger] spec_apply_subcatchment_change(u, Some(k), value) == Ok::<SubcatchmentUpdateView, Refusal>(SubcatchmentUpdateView { outlet: Some((spec_required_related(value, "outlet"@)->Ok_0)), ..u }) by {
        reveal_strlit("outlet");
        reveal_strlit("tag");
        assert("outlet"@.len() != "tag"@.len());
        reveal_strlit("area");
        assert("outlet"@.len() != "area"@.len());
        reveal_strlit("width");
        assert("outlet"@.len() != "width"@.len());
        reveal_strlit("slope");
        assert("outlet"@.len() != "slope"@.len());
        reveal_strlit("curb_length");
        assert("outlet"@.len() != "curb_length"@.len());
        reveal_strlit("impervious_fraction");
        assert("outlet"@.len() != "impervious_fraction"@.len());
        reveal_strlit("zero_impervious_fraction");
        assert("outlet"@.len() != "zero_impervious_fraction"@.len());
        reveal_strlit("impervious_roughness");
        assert("outlet"@.len() != "impervious_roughness"@.len());
        reveal_strlit("pervious_roughness");
        assert("outlet"@.len() != "pervious_roughness"@.len());
        reveal_strlit("impervious_depression_storage");
        assert("outlet"@.len() != "impervious_depression_storage"@.len());
        reveal_strlit("pervious_depression_storage");
        assert("outlet"@.len() != "pervious_depression_storage"@.len());
        reveal_strlit("included_in_report");
        assert("outlet"@.len() != "included_in_report"@.len());
        reveal_strlit("rain_gage");
        assert("outlet"@.len() != "rain_gage"@.len());
    }
    assert forall|k: String, value: PyValue| k@ == "infiltration"@ && spec_infiltration_settings(value) is Ok implies #[trigger] spec_apply_subcatchment_change(u, Some(k), value) == Ok::<SubcatchmentUpdateView, Refusal>(SubcatchmentUpdateView { infiltration: Some((spec_infiltration_settings(value)->Ok_0)), ..u }) by {
        reveal_strlit("infiltration");
        reveal_strlit("tag");
        assert("infiltration"@.len() != "tag"@.len());
        reveal_strlit("area");
        assert("infiltration"@.len() != "area"@.len());
        reveal_strlit("width");
        assert("infiltration"@.len() != "width"@.len());
        reveal_strlit("slope");
        assert("infiltration"@.len() != "slope"@.len());
        reveal_strlit("curb_length");
        assert("infiltration"@.len() != "curb_length"@.len());
        reveal_strlit("impervious_fraction");
        assert("infiltration"@.len() != "impervious_fraction"@.len());
        reveal_strlit("zero_impervious_fraction");
        assert("infiltration"@.len() != "zero_impervious_fraction"@.len());
        reveal_strlit("impervious_roughness");
        assert("infiltration"@.len() != "impervious_roughness"@.len());
        reveal_strlit("pervious_roughness");
        assert("infiltration"@.len() != "pervious_roughness"@.len());
        reveal_strlit("impervious_depression_storage");
        assert("infiltration"@.len() != "impervious_depression_storage"@.len());
        reveal_strlit("pervious_depression_storage");
        assert("infiltration"@.len() != "pervious_depression_storage"@.len());
        reveal_strlit("included_in_report");
        assert("infiltration"@.len() != "included_in_report"@.len());
        reveal_strlit("rain_gage");
        assert("infiltration"@.len() != "rain_gage"@.len());
        reveal_strlit("outlet");
        assert("infiltration"@.len() != "outlet"@.len());
    }
    assert forall|k: String, value: PyValue| k@ == "groundwater"@ && spec_groundwater_settings(value) is Ok implies #[trigger] spec_apply_subcatchment_change(u, Some(k), value) == Ok::<SubcatchmentUpdateView, Refusal>(SubcatchmentUpdateView { groundwater: Some((spec_groundwater_settings(value)->Ok_0)), ..u }) by {
        reveal_strlit("groundwater");
        reveal_strlit("tag");
        assert("groundwater"@.len() != "tag"@.len());
        reveal_strlit("area");
        assert("groundwater"@.len() != "area"@.len());
        reveal_strlit("width");
        assert("groundwater"@.len() != "width"@.len());
        reveal_strlit("slope");
        assert("groundwater"@.len() != "slope"@.len());
        reveal_strlit("curb_length");
        assert("groundwater"@ != "curb_length"@) by { assert("groundwater"@[0] != "curb_length"@[0]); }
        reveal_strlit("impervious_fraction");
        assert("groundwater"@.len() != "impervious_fraction"@.len());
        reveal_strlit("zero_impervious_fraction");
        assert("groundwater"@.len() != "zero_impervious_fraction"@.len());
        reveal_strlit("impervious_roughness");
        assert("groundwater"@.len() != "impervious_roughness"@.len());
        reveal_strlit("pervious_roughness");
        assert("groundwater"@.len() != "pervious_roughness"@.len());
        reveal_strlit("impervious_depression_storage");
        assert("groundwater"@.len() != "impervious_depression_storage"@.len());
        reveal_strlit("pervious_depression_storage");
        assert("groundwater"@.len() != "pervious_depression_storage"@.len());
        reveal_strlit("included_in_report");
        assert("groundwater"@.len() != "included_in_report"@.len());
        reveal_strlit("rain_gage");
        assert("groundwater"@.len() != "rain_gage"@.len());
        reveal_strlit("outlet");
        assert("groundwater"@.len() != "outlet"@.len());
        reveal_strlit("infiltration");
        assert("groundwater"@.len() != "infiltration"@.len());
    }
    assert forall|k: String, value: PyValue| k@ == "initial_buildup"@ && spec_named_values(value, "initial_buildup"@) is Ok implies #[trigger] spec_apply_subcatchment_change(u, Some(k), value) == Ok::<SubcatchmentUpdateView, Refusal>(SubcatchmentUpdateView { loading: Some((spec_named_values(value, "initial_buildup"@)->Ok_0)), ..u }) by {
        reveal_strlit("initial_buildup");
        reveal_strlit("tag");
        assert("initial_buildup"@.len() != "tag"@.len());
        reveal_strlit("area");
        assert("initial_buildup"@.len() != "area"@.len());
        reveal_strlit("width");
        assert("initial_buildup"@.len() != "width"@.len());
        reveal_strlit("slope");
        assert("initial_buildup"@.len() != "slope"@.len());
        reveal_strlit("curb_length");
        assert("initial_buildup"@.len() != "curb_length"@.len());
        reveal_strlit("impervious_fraction");
        assert("initial_buildup"@.len() != "impervious_fraction"@.len());
        reveal_strlit("zero_impervious_fraction");
        assert("initial_buildup"@.len() != "zero_impervious_fraction"@.len());
        reveal_strlit("impervious_roughness");
        assert("initial_buildup"@.len() != "impervious_roughness"@.len());
        reveal_strlit("pervious_roughness");
        assert("initial_buildup"@.len() != "pervious_roughness"@.len());
        reveal_strlit("impervious_depression_storage");
        assert("initial_buildup"@.len() != "impervious_depression_storage"@.len());
        reveal_strlit("pervious_depression_storage");
        assert("initial_buildup"@.len() != "pervious_depression_storage"@.len());
        reveal_strlit("included_in_report");
        assert("initial_buildup"@.len() != "included_in_report"@.len());
        reveal_strlit("rain_gage");
        assert("initial_buildup"@.len() != "rain_gage"@.len());
        reveal_strlit("outlet");
        assert("initial_buildup"@.len() != "outlet"@.len());
        reveal_strlit("infiltration");
        assert("initial_buildup"@.len() != "infiltration"@.len());
        reveal_strlit("groundwater");
        assert("initial_buildup"@.len() != "groundwater"@.len());
        reveal_strlit("snowpack");
        assert("initial_buildup"@.len() != "snowpack"@.len());
    }
    assert forall|k: String, value: PyValue| k@ == "coverage_fractions"@ && spec_named_values(value, "coverage_fractions"@) is Ok implies #[trigger] spec_apply_subcatchment_change(u, Some(k), value) == Ok::<SubcatchmentUpdateView, Refusal>(SubcatchmentUpdateView { coverage: Some((spec_named_values(value, "coverage_fractions"@)->Ok_0)), ..u }) by {
        reveal_strlit("coverage_fractions");
        reveal_strlit("tag");
        assert("coverage_fractions"@.len() != "tag"@.len());
        reveal_strlit("area");
        assert("coverage_fractions"@.len() != "area"@.len());
        reveal_strlit("width");
        assert("coverage_fractions"@.len() != "width"@.len());
        reveal_strlit("slope");
        assert("coverage_fractions"@.len() != "slope"@.len());
        reveal_strlit("curb_length");
        assert("coverage_fractions"@.len() != "curb_length"@.len());
        reveal_strlit("impervious_fraction");
        assert("coverage_fractions"@.len() != "impervious_fraction"@.len());
        reveal_strlit("zero_impervious_fraction");
        assert("coverage_fractions"@.len() != "zero_impervious_fraction"@.len());
        reveal_strlit("impervious_roughness");
        assert("coverage_fractions"@.len() != "impervious_roughness"@.len());
        reveal_strlit("pervious_roughness");
        assert("coverage_fractions"@ != "pervious_roughness"@) by { assert("coverage_fractions"@[0] != "pervious_roughness"@[0]); }
        reveal_strlit("impervious_depression_storage");
        assert("coverage_fractions"@.len() != "impervious_depression_storage"@.len());
        reveal_strlit("pervious_depression_storage");
        assert("coverage_fractions"@.len() != "pervious_depression_storage"@.len());
        reveal_strlit("included_in_report");
        assert("coverage_fractions"@ != "included_in_report"@) by { assert("coverage_fractions"@[0] != "included_in_report"@[0]); }
        reveal_strlit("rain_gage");
        assert("coverage_fractions"@.len() != "rain_gage"@.len());
        reveal_strlit("outlet");
        assert("coverage_fractions"@.len() != "outlet"@.len());
        reveal_strlit("infiltration");
        assert("coverage_fractions"@.len() != "infiltration"@.len());
        reveal_strlit("groundwater");
        assert("coverage_fractions"@.len() != "groundwater"@.len());
        reveal_strlit("snowpack");
        assert("coverage_fractions"@.len() != "snowpack"@.len());
        reveal_strlit("initial_buildup");
        assert("coverage_fractions"@.len() != "initial_buildup"@.len());
    }
}

/// The update built from the first `n` supplied subcatchment settings.
pub open spec fn spec_subcatchment_update(changes: Seq<(Option<String>, PyValue)>, n: int) -> Result<SubcatchmentUpdateView, Refusal>
    decreases n,
{
    if n <= 0 {
        Ok(spec_empty_subcatchment_update())
    } else {
        match spec_subcatchment_update(changes, n - 1) {
            Err(r) => Err(r),
            Ok(u) => spec_apply_subcatchment_change(u, changes[n - 1].0, changes[n - 1].1),
        }
    }
}

/// Once a subcatchment setting is refused, every longer prefix is refused the same way.
pub proof fn lemma_subcatchment_update_refusal(changes: Seq<(Option<String>, PyValue)>, i: int, n: int)
    requires
        0 <= i <= n,
        spec_subcatchment_update(changes, i) is Err,
    ensures
        spec_subcatchment_update(changes, n) == spec_subcatchment_update(changes, i),
    decreases n - i,
{
    if n > i {
        lemma_subcatchment_update_refusal(changes, i, n - 1);
    }
}

/// `result`, viewed, is the outcome `spec` for `update_subcatchment`.
pub open spec fn spec_subcatchment_outcome(
    result: Result<SubcatchmentUpdate, NativeError>,
    spec: Result<SubcatchmentUpdateView, Refusal>,
) -> bool {
    match spec {
        Ok(v) => result is Ok && result->Ok_0@ == v,
        Err(r) => crate::convert::spec_refusal_raised(result, r, "update_subcatchment"),
    }
}

/// Applies one supplied `(key, value)` subcatchment setting to `update`.
fn apply_subcatchment_change(update: SubcatchmentUpdate, key: Option<String>, value: PyValue) -> (result: Result<
    SubcatchmentUpdate,
    NativeError,
>)
    ensures
        spec_subcatchment_outcome(result, spec_apply_subcatchment_change(update@, key, value)),
{
    let name = match key {
        Some(k) => k,
        None => {
            return Err(subcatchment_py_error(String::from_str("subcatchment update fields must be strings")));
        },
    };
    let n = name.as_str();
    let mut u = update;
    if str_eq(n, "tag") {
        match text(value) {
            None => {
                return Err(subcatchment_py_error(String::from_str("tag must be str")));
            },
            Some(t) => {
                u.scalars.tag = Some(t);
                return Ok(u);
            },
        }
    }
    if str_eq(n, "area") {
        match subcatchment_float(&value, n) {
            Err(e) => {
                return Err(e);
            },
            Ok(v) => {
                u.scalars.area = Some(v);
                return Ok(u);
            },
        }
    }
    if str_eq(n, "width") {
        match subcatchment_float(&value, n) {
            Err(e) => {
                return Err(e);
            },
            Ok(v) => {
                u.scalars.width = Some(v);
                return Ok(u);
            },
        }
    }
    if str_eq(n, "slope") {
        match subcatchment_float(&value, n) {
            Err(e) => {
                return Err(e);
            },
            Ok(v) => {
                u.scalars.slope = Some(v);
                return Ok(u);
            },
        }
    }
    if str_eq(n, "curb_length") {
        match subcatchment_float(&value, n) {
            Err(e) => {
                return Err(e);
            },
            Ok(v) => {
                u.scalars.curb_length = Some(v);
                return Ok(u);
            },
        }
    }
    if str_eq(n, "impervious_fraction") {
        match subcatchment_float(&value, n) {
            Err(e) => {
                return Err(e);
            },
            Ok(v) => {
                u.scalars.impervious_fraction = Some(v);
                return Ok(u);
            },
        }
    }
    if str_eq(n, "zero_impervious_fraction") {
        match subcatchment_float(&value, n) {
            Err(e) => {
                return Err(e);
            },
            Ok(v) => {
                u.scalars.zero_impervious_fraction = Some(v);
                return Ok(u);
            },
        }
    }
    if str_eq(n, "impervious_roughness") {
        match subcatchment_float(&value, n) {
            Err(e) => {
                return Err(e);
            },
            Ok(v) => {
                u.scalars.impervious_roughness = Some(v);
                return Ok(u);
            },
        }
    }
    if str_eq(n, "pervious_roughness") {
        match subcatchment_float(&value, n) {
            Err(e) => {
                return Err(e);
            },
            Ok(v) => {
                u.scalars.pervious_roughness = Some(v);
                return Ok(u);
            },
        }
    }
    if str_eq(n, "impervious_depression_storage") {
        match subcatchment_float(&value, n) {
            Err(e) => {
                return Err(e);
            },
            Ok(v) => {
                u.scalars.impervious_depression_storage = Some(v);
                return Ok(u);
            },
        }
    }
    if str_eq(n, "pervious_depression_storage") {
        match subcatchment_float(&value, n) {
            Err(e) => {
                return Err(e);
            },
            Ok(v) => {
                u.scalars.pervious_depression_storage = Some(v);
                return Ok(u);
            },
        }
    }
    if str_eq(n, "included_in_report") {
        match subcatchment_bool(&value, n) {
            Err(e) => {
                return Err(e);
            },
            Ok(v) => {
                u.scalars.included_in_report = Some(v);
                return Ok(u);
            },
        }
    }
    if str_eq(n, "rain_gage") {
        match subcatchment_related_view(value, n) {
            Err(e) => {
                return Err(e);
            },
            Ok(r) => {
                u.rain_gage = Some(r);
                return Ok(u);
            },
        }
    }
    if str_eq(n, "outlet") {
        match subcatchment_related_view(value, n) {
            Err(e) => {
                return Err(e);
            },
            Ok(r) => {
                u.outlet = Some(r);
                return Ok(u);
            },
        }
    }
    if str_eq(n, "infiltration") {
        match infiltration_settings(value) {
            Err(e) => {
                return Err(e);
            },
            Ok(i) => {
                u.infiltration = Some(i);
                return Ok(u);
            },
        }
    }
    if str_eq(n, "groundwater") {
        match groundwater_settings(value) {
            Err(e) => {
                return Err(e);
            },
            Ok(g) => {
                u.groundwater = Some(g);
                return Ok(u);
            },
        }
    }
    if str_eq(n, "snowpack") {
        if let PyValue::NoneValue = value {
            u.snowpack = Some(None);
            return Ok(u);
        }
        match subcatchment_related_view(value, n) {
            Err(e) => {
                return Err(e);
            },
            Ok(r) => {
                u.snowpack = Some(Some(r));
                return Ok(u);
            },
        }
    }
    if str_eq(n, "initial_buildup") {
        match named_mapping_values(&value, n) {
            Err(e) => {
                return Err(e);
            },
            Ok(v) => {
                u.loading = Some(v);
                return Ok(u);
            },
        }
    }
    if str_eq(n, "coverage_fractions") {
        match named_mapping_values(&value, n) {
            Err(e) => {
                return Err(e);
            },
            Ok(v) => {
                u.coverage = Some(v);
                return Ok(u);
            },
        }
    }
    Err(subcatchment_py_error(detail("unknown subcatchment field: ", n)))
}

/// Extracts every supplied root subcatchment setting without touching solver state.
///
/// `changes` are the supplied `(key, value)` pairs in mapping order, a key that is not a `str`
/// given as `None`.
pub fn extract_subcatchment_update(changes: Vec<(Option<String>, PyValue)>) -> (result: Result<
    SubcatchmentUpdate,
    NativeError,
>)
    ensures
        spec_subcatchment_outcome(result, spec_subcatchment_update(changes@, changes@.len() as int)),
{
    let count: usize = changes.len();
    let ghost all = changes@;
    let mut remaining = changes;
    let mut update = empty_subcatchment_update();
    let mut taken: usize = 0;
    proof {
        assert(remaining@ =~= all.skip(0));
    }
    while taken < count
        invariant
            count == all.len(),
            all == changes@,
            taken <= count,
            remaining@ == all.skip(taken as int),
            spec_subcatchment_update(all, taken as int) == Ok::<SubcatchmentUpdateView, Refusal>(update@),
        decreases count - taken,
    {
        let (key, value) = remaining.remove(0);
        proof {
            assert(remaining@ =~= all.skip(taken + 1));
            assert(all[taken as int] == (key, value));
        }
        let ghost before = update@;
        match apply_subcatchment_change(update, key, value) {
            Ok(next) => {
                update = next;
            },
            Err(e) => {
                proof {
                    assert(spec_subcatchment_update(all, taken + 1) == spec_apply_subcatchment_change(
                        before,
                        all[taken as int].0,
                        all[taken as int].1,
                    ));
                    lemma_subcatchment_update_refusal(all, taken + 1, count as int);
                }
                return Err(e);
            },
        }
        taken = taken + 1;
    }
    Ok(update)
}

/// A subcatchment outlet, by configured index.
#[derive(Clone, Copy, Debug, PartialEq, Eq, Structural)]
pub enum SubcatchmentOutlet {
    Node(usize),
    Subcatchment(usize),
}

/// A complete groundwater configuration, its aquifer and node by configured index.
#[derive(Clone, Copy, Debug, PartialEq, Eq, Structural)]
pub enum GroundwaterConfiguration {
    Present { aquifer_index: usize, node_index: usize, values: GroundwaterValues },
    Removed,
}

/// A snowpack configuration, its snowmelt parameter set by configured index.
#[derive(Clone, Copy, Debug, PartialEq, Eq, Structural)]
pub enum SnowpackConfiguration {
    Present { snowmelt_index: usize },
    Removed,
}

/// The canonical identifier and configured index of one pollutant or land use.
#[derive(Debug)]
pub struct SettingsIdentity {
    pub id: String,
    pub index: usize,
}

/// A sparse subcatchment patch in project units, its relationships by configured index and its
/// named entries as `(configured index, value)` pairs in configured order.
#[derive(Debug)]
pub struct SubcatchmentPatch {
    pub scalars: SubcatchmentScalars,
    pub rain_gage_index: Option<usize>,
    pub outlet: Option<SubcatchmentOutlet>,
    pub infiltration: Option<InfiltrationConfiguration>,
    pub groundwater: Option<GroundwaterConfiguration>,
    pub snowpack: Option<SnowpackConfiguration>,
    pub loading: Option<Vec<(usize, Number)>>,
    pub coverage: Option<Vec<(usize, Number)>>,
}

/// The settings a subcatchment patch holds, its named entries as sequences.
pub struct SubcatchmentPatchView {
    pub scalars: SubcatchmentScalars,
    pub rain_gage_index: Option<usize>,
    pub outlet: Option<SubcatchmentOutlet>,
    pub infiltration: Option<InfiltrationConfiguration>,
    pub groundwater: Option<GroundwaterConfiguration>,
    pub snowpack: Option<SnowpackConfiguration>,
    pub loading: Option<Seq<(usize, Number)>>,
    pub coverage: Option<Seq<(usize, Number)>>,
}

impl View for SubcatchmentPatch {
    type V = SubcatchmentPatchView;

    open spec fn view(&self) -> SubcatchmentPatchView {
        SubcatchmentPatchView {
            scalars: self.scalars,
            rain_gage_index: self.rain_gage_index,
            outlet: self.outlet,
            infiltration: self.infiltration,
            groundwater: self.groundwater,
            snowpack: self.snowpack,
            loading: spec_opt_seq(self.loading),
            coverage: spec_opt_seq(self.coverage),
        }
    }
}

/// Why named entries could not be resolved.
pub enum ResolveFailure {
    /// No configured identity has this name, ignoring case.
    Unknown(String),
    /// Two entries name the same configured identity.
    Duplicate,
}

/// `error` is the solver failure reported for `failure`.
pub open spec fn spec_resolve_error(failure: ResolveFailure, error: SwmmError) -> bool {
    match failure {
        ResolveFailure::Unknown(name) => error == (SwmmError { code: ErrorCode::ApiObjectName, detail: Some(name) }),
        ResolveFailure::Duplicate => swmm_error_is(
            error,
            ErrorCode::ApiPropertyValue,
            "duplicate configured settings name"@,
        ),
    }
}

/// The configured index of the identity whose lowercase identifier is `key`; where several
/// match, the last one.
pub open spec fn spec_lookup(ids: Seq<SettingsIdentity>, key: Seq<char>) -> Option<usize>
    decreases ids.len(),
{
    if ids.len() == 0 {
        None
    } else if spec_lowercase(ids.last().id@) == key {
        Some(ids.last().index)
    } else {
        spec_lookup(ids.drop_last(), key)
    }
}

/// The configured indices named by the first `n` entries, each with its value: an unknown name
/// or a second entry for one identity is refused.
pub open spec fn spec_resolve_fold(ids: Seq<SettingsIdentity>, values: Seq<(String, Number)>, n: int) -> Result<
    Map<usize, Number>,
    ResolveFailure,
>
    decreases n,
{
    if n <= 0 {
        Ok(Map::empty())
    } else {
        match spec_resolve_fold(ids, values, n - 1) {
            Err(f) => Err(f),
            Ok(m) => match spec_lookup(ids, spec_lowercase(values[n - 1].0@)) {
                None => Err(ResolveFailure::Unknown(values[n - 1].0)),
                Some(i) => if m.dom().contains(i) {
                    Err(ResolveFailure::Duplicate)
                } else {
                    Ok(m.insert(i, values[n - 1].1))
                },
            },
        }
    }
}

/// Once an entry is refused, every longer prefix is refused the same way.
pub proof fn lemma_resolve_refusal(ids: Seq<SettingsIdentity>, values: Seq<(String, Number)>, i: int, n: int)
    requires
        0 <= i <= n,
        spec_resolve_fold(ids, values, i) is Err,
    ensures
        spec_resolve_fold(ids, values, n) == spec_resolve_fold(ids, values, i),
    decreases n - i,
{
    if n > i {
        lemma_resolve_refusal(ids, values, i, n - 1);
    }
}

/// The resolved entries in configured order from identity `k` on: each identity takes its
/// resolved value once; an identity without one takes zero when `replace` is set and is left
/// out otherwise.
pub open spec fn spec_emit(ids: Seq<SettingsIdentity>, m: Map<usize, Number>, replace: bool, k: int) -> Seq<
    (usize, Number),
>
    decreases ids.len() - k,
{
    if k < 0 || k >= ids.len() {
        Seq::empty()
    } else {
        let i = ids[k].index;
        if m.dom().contains(i) {
            seq![(i, m[i])] + spec_emit(ids, m.remove(i), replace, k + 1)
        } else if replace {
            seq![(i, Number::Float(0))] + spec_emit(ids, m, replace, k + 1)
        } else {
            spec_emit(ids, m, replace, k + 1)
        }
    }
}

/// With `replace`, resolved named settings list every configured identity exactly once, in
/// configured order.
pub proof fn lemma_replace_covers_every_identity(ids: Seq<SettingsIdentity>, m: Map<usize, Number>, k: int)
    requires
        0 <= k <= ids.len(),
    ensures
        spec_emit(ids, m, true, k).len() == ids.len() - k,
        forall|j: int| 0 <= j < ids.len() - k ==> (#[trigger] spec_emit(ids, m, true, k)[j]).0 == ids[k + j].index,
    decreases ids.len() - k,
{
    if k < ids.len() {
        let i = ids[k].index;
        let rest = if m.dom().contains(i) {
            m.remove(i)
        } else {
            m
        };
        lemma_replace_covers_every_identity(ids, rest, k + 1);
        let tail = spec_emit(ids, rest, true, k + 1);
        let head = if m.dom().contains(i) {
            (i, m[i])
        } else {
            (i, Number::Float(0))
        };
        assert(spec_emit(ids, m, true, k) == seq![head] + tail);
        assert forall|j: int| 0 <= j < ids.len() - k implies (#[trigger] spec_emit(ids, m, true, k)[j]).0 == ids[k + j].index by {
            if j > 0 {
                assert(spec_emit(ids, m, true, k)[j] == tail[j - 1]);
            }
        }
    }
}

/// `result` is the resolution of `values` against the identities `ids`.
pub open spec fn spec_named_resolution(
    ids: Seq<SettingsIdentity>,
    values: Seq<(String, Number)>,
    replace: bool,
    result: Result<Seq<(usize, Number)>, SwmmError>,
) -> bool {
    match spec_resolve_fold(ids, values, values.len() as int) {
        Err(f) => result is Err && spec_resolve_error(f, result->Err_0),
        Ok(m) => result == Ok::<Seq<(usize, Number)>, SwmmError>(spec_emit(ids, m, replace, 0)),
    }
}

/// A vector outcome with its items as a sequence.
pub open spec fn spec_vec_result<T, E>(r: Result<Vec<T>, E>) -> Result<Seq<T>, E> {
    match r {
        Ok(v) => Ok(v@),
        Err(e) => Err(e),
    }
}

/// The lowercase identifiers of `ids`, in order.
fn lowered_identities(ids: &Vec<SettingsIdentity>) -> (lowered: Vec<String>)
    ensures
        lowered@.len() == ids@.len(),
        forall|k: int| 0 <= k < ids@.len() ==> (#[trigger] lowered@[k])@ == spec_lowercase(ids@[k].id@),
{
    let mut lowered: Vec<String> = Vec::new();
    let mut k: usize = 0;
    while k < ids.len()
        invariant
            k <= ids@.len(),
            lowered@.len() == k,
            forall|j: int| 0 <= j < k ==> (#[trigger] lowered@[j])@ == spec_lowercase(ids@[j].id@),
        decreases ids@.len() - k,
    {
        lowered.push(lowercase(ids[k].id.as_str()));
        k = k + 1;
    }
    lowered
}

/// Finds the configured index named by `key`, a lowercase name.
fn lookup(ids: &Vec<SettingsIdentity>, lowered: &Vec<String>, key: &str) -> (found: Option<usize>)
    requires
        lowered@.len() == ids@.len(),
        forall|k: int| 0 <= k < ids@.len() ==> (#[trigger] lowered@[k])@ == spec_lowercase(ids@[k].id@),
    ensures
        found == spec_lookup(ids@, key@),
{
    let mut k: usize = ids.len();
    proof {
        assert(ids@.take(k as int) =~= ids@);
    }
    while k > 0
        invariant
            k <= ids@.len(),
            lowered@.len() == ids@.len(),
            forall|j: int| 0 <= j < ids@.len() ==> (#[trigger] lowered@[j])@ == spec_lowercase(ids@[j].id@),
            spec_lookup(ids@, key@) == spec_lookup(ids@.take(k as int), key@),
        decreases k,
    {
        let ghost prefix = ids@.take(k as int);
        assert(prefix.last() == ids@[k - 1]);
        assert(prefix.drop_last() =~= ids@.take(k - 1));
        if str_eq(lowered[k - 1].as_str(), key) {
            return Some(ids[k - 1].index);
        }
        k = k - 1;
    }
    None
}

/// The position in `pairs` whose index is `index`, if any.
fn find_index(pairs: &Vec<(usize, Number)>, index: usize) -> (found: Option<usize>)
    ensures
        found matches Some(j) ==> j < pairs@.len() && pairs@[j as int].0 == index,
        found is None ==> forall|j: int| 0 <= j < pairs@.len() ==> (#[trigger] pairs@[j]).0 != index,
{
    let mut j: usize = 0;
    while j < pairs.len()
        invariant
            j <= pairs@.len(),
            forall|k: int| 0 <= k < j ==> (#[trigger] pairs@[k]).0 != index,
        decreases pairs@.len() - j,
    {
        if pairs[j].0 == index {
            return Some(j);
        }
        j = j + 1;
    }
    None
}

/// `pairs` lists the entries of `m`, each index once.
pub open spec fn spec_lists(pairs: Seq<(usize, Number)>, m: Map<usize, Number>) -> bool {
    &&& forall|j: int| 0 <= j < pairs.len() ==> m.dom().contains((#[trigger] pairs[j]).0) && m[pairs[j].0] == pairs[j].1
    &&& forall|i: usize| m.dom().contains(i) ==> exists|j: int| 0 <= j < pairs.len() && (#[trigger] pairs[j]).0 == i
    &&& forall|j: int, k: int| 0 <= j < k < pairs.len() ==> (#[trigger] pairs[j]).0 != (#[trigger] pairs[k]).0
}

/// Resolves every entry against the identities, in order; the first failure is returned.
fn resolve_entries(ids: &Vec<SettingsIdentity>, lowered: &Vec<String>, values: &Vec<(String, Number)>) -> (result:
    Result<Vec<(usize, Number)>, ResolveFailure>)
    requires
        lowered@.len() == ids@.len(),
        forall|k: int| 0 <= k < ids@.len() ==> (#[trigger] lowered@[k])@ == spec_lowercase(ids@[k].id@),
    ensures
        match spec_resolve_fold(ids@, values@, values@.len() as int) {
            Err(f) => result == Err::<Vec<(usize, Number)>, ResolveFailure>(f),
            Ok(m) => result is Ok && spec_lists(result->Ok_0@, m),
        },
{
    let mut pairs: Vec<(usize, Number)> = Vec::new();
    let ghost mut m: Map<usize, Number> = Map::empty();
    let mut n: usize = 0;
    while n < values.len()
        invariant
            n <= values@.len(),
            lowered@.len() == ids@.len(),
            forall|k: int| 0 <= k < ids@.len() ==> (#[trigger] lowered@[k])@ == spec_lowercase(ids@[k].id@),
            spec_resolve_fold(ids@, values@, n as int) == Ok::<Map<usize, Number>, ResolveFailure>(m),
            spec_lists(pairs@, m),
        decreases values@.len() - n,
    {
        let key = lowercase(values[n].0.as_str());
        match lookup(ids, lowered, key.as_str()) {
            None => {
                proof {
                    lemma_resolve_refusal(ids@, values@, n + 1, values@.len() as int);
                }
                return Err(ResolveFailure::Unknown(values[n].0.clone()));
            },
            Some(i) => {
                match find_index(&pairs, i) {
                    Some(_) => {
                        proof {
                            lemma_resolve_refusal(ids@, values@, n + 1, values@.len() as int);
                        }
                        return Err(ResolveFailure::Duplicate);
                    },
                    None => {
                        let v = values[n].1;
                        let ghost before = pairs@;
                        pairs.push((i, v));
                        proof {
                            assert(!m.dom().contains(i));
                            m = m.insert(i, v);
                            assert forall|x: usize| m.dom().contains(x) implies exists|j: int|
                                0 <= j < pairs@.len() && (#[trigger] pairs@[j]).0 == x by {
                                if x == i {
                                    assert(pairs@[before.len() as int].0 == x);
                                } else {
                                    let j = choose|j: int| 0 <= j < before.len() && (#[trigger] before[j]).0 == x;
                                    assert(pairs@[j].0 == x);
                                }
                            }
                        }
                    },
                }
            },
        }
        n = n + 1;
    }
    Ok(pairs)
}

/// Lists the resolved entries in configured order.
fn emit_entries(ids: &Vec<SettingsIdentity>, pairs: Vec<(usize, Number)>, Ghost(m): Ghost<Map<usize, Number>>, replace: bool) -> (out:
    Vec<(usize, Number)>)
    requires
        spec_lists(pairs@, m),
    ensures
        out@ == spec_emit(ids@, m, replace, 0),
{
    let mut pairs = pairs;
    let ghost mut rest: Map<usize, Number> = m;
    let mut out: Vec<(usize, Number)> = Vec::new();
    let mut k: usize = 0;
    while k < ids.len()
        invariant
            k <= ids@.len(),
            spec_lists(pairs@, rest),
            out@ + spec_emit(ids@, rest, replace, k as int) == spec_emit(ids@, m, replace, 0),
        decreases ids@.len() - k,
    {
        let i = ids[k].index;
        match find_index(&pairs, i) {
            Some(j) => {
                let v = pairs[j].1;
                let ghost before = pairs@;
                pairs.remove(j);
                proof {
                    assert(rest.dom().contains(i) && rest[i] == v);
                    let next = rest.remove(i);
                    assert forall|x: int| 0 <= x < pairs@.len() implies next.dom().contains((#[trigger] pairs@[x]).0)
                        && next[pairs@[x].0] == pairs@[x].1 by {
                        if x < j {
                            assert(pairs@[x] == before[x]);
                        } else {
                            assert(pairs@[x] == before[x + 1]);
                        }
                    }
                    assert forall|y: usize| next.dom().contains(y) implies exists|x: int|
                        0 <= x < pairs@.len() && (#[trigger] pairs@[x]).0 == y by {
                        let x = choose|x: int| 0 <= x < before.len() && (#[trigger] before[x]).0 == y;
                        if x < j {
                            assert(pairs@[x] == before[x]);
                        } else {
                            assert(x != j);
                            assert(pairs@[x - 1] == before[x]);
                        }
                    }
                    assert forall|x: int, z: int| 0 <= x < z < pairs@.len() implies (#[trigger] pairs@[x]).0
                        != (#[trigger] pairs@[z]).0 by {
                        let bx = if x < j { x } else { x + 1 };
                        let bz = if z < j { z } else { z + 1 };
                        assert(pairs@[x] == before[bx]);
                        assert(pairs@[z] == before[bz]);
                    }
                    assert(out@.push((i, v)) + spec_emit(ids@, next, replace, k + 1) =~= out@ + spec_emit(
                        ids@,
                        rest,
                        replace,
                        k as int,
                    ));
                    rest = next;
                }
                out.push((i, v));
            },
            None => {
                proof {
                    assert(!rest.dom().contains(i));
                }
                if replace {
                    proof {
                        assert(out@.push((i, Number::Float(0))) + spec_emit(ids@, rest, replace, k + 1) =~= out@
                            + spec_emit(ids@, rest, replace, k as int));
                    }
                    out.push((i, Number::Float(0)));
                } else {
                    proof {
                        assert(out@ + spec_emit(ids@, rest, replace, k + 1) =~= out@ + spec_emit(
                            ids@,
                            rest,
                            replace,
                            k as int,
                        ));
                    }
                }
            },
        }
        k = k + 1;
    }
    proof {
        assert(out@ + spec_emit(ids@, rest, replace, k as int) =~= out@);
    }
    out
}

/// Maps a resolution failure to the solver failure it reports.
fn resolve_error(failure: ResolveFailure) -> (error: SwmmError)
    ensures
        spec_resolve_error(failure, error),
{
    match failure {
        ResolveFailure::Unknown(name) => SwmmError::with_detail(ErrorCode::ApiObjectName, name),
        ResolveFailure::Duplicate => settings_error("duplicate configured settings name"),
    }
}

/// `out` is what resolving named entries of a family gives: the family's identities are read
/// once, then matched by lowercase name.
pub open spec fn spec_named_resolved<I: Fn(ObjectType) -> Result<Vec<SettingsIdentity>, SwmmError>>(
    identities: I,
    family: ObjectType,
    values: Seq<(String, Number)>,
    replace: bool,
    out: Result<Seq<(usize, Number)>, SwmmError>,
) -> bool {
    exists|r: Result<Vec<SettingsIdentity>, SwmmError>|
        {
            &&& #[trigger] call_ensures(identities, (family,), r)
            &&& r matches Err(e) ==> out == Err::<Seq<(usize, Number)>, SwmmError>(e)
            &&& r matches Ok(ids) ==> spec_named_resolution(ids@, values, replace, out)
        }
}

/// Resolves named entries against the configured identities of `family`, in configured order;
/// with `replace`, an identity without an entry takes zero.
pub fn resolve_named_values<I: Fn(ObjectType) -> Result<Vec<SettingsIdentity>, SwmmError>>(
    identities: &I,
    family: ObjectType,
    values: &Vec<(String, Number)>,
    replace: bool,
) -> (result: Result<Vec<(usize, Number)>, SwmmError>)
    requires
        forall|t: ObjectType| call_requires(*identities, (t,)),
    ensures
        spec_named_resolved(*identities, family, values@, replace, spec_vec_result(result)),
{
    let read = identities(family);
    let ghost r = read;
    assert(call_ensures(*identities, (family,), r));
    let ids = match read {
        Err(e) => {
            return Err(e);
        },
        Ok(ids) => ids,
    };
    let lowered = lowered_identities(&ids);
    match resolve_entries(&ids, &lowered, values) {
        Err(f) => Err(resolve_error(f)),
        Ok(pairs) => {
            let ghost m = spec_resolve_fold(ids@, values@, values@.len() as int)->Ok_0;
            Ok(emit_entries(&ids, pairs, Ghost(m), replace))
        },
    }
}

/// `out` is what resolving an optional outlet gives: a node or subcatchment outlet is validated
/// as such; any other family is refused.
pub open spec fn spec_outlet_resolved<F: Fn(&RelatedObject, ObjectType, &'static str) -> Result<usize, SwmmError>>(
    validate: F,
    outlet: Option<RelatedObject>,
    out: Result<Option<SubcatchmentOutlet>, SwmmError>,
) -> bool {
    match outlet {
        None => out == Ok::<Option<SubcatchmentOutlet>, SwmmError>(None),
        Some(o) => if o.object_type == ObjectType::Node {
            exists|v: Result<usize, SwmmError>|
                {
                    &&& #[trigger] call_ensures(validate, (&o, ObjectType::Node, "outlet"), v)
                    &&& v matches Ok(i) ==> out == Ok::<Option<SubcatchmentOutlet>, SwmmError>(Some(SubcatchmentOutlet::Node(i)))
                    &&& v matches Err(e) ==> out == Err::<Option<SubcatchmentOutlet>, SwmmError>(e)
                }
        } else if o.object_type == ObjectType::Subcatch {
            exists|v: Result<usize, SwmmError>|
                {
                    &&& #[trigger] call_ensures(validate, (&o, ObjectType::Subcatch, "outlet"), v)
                    &&& v matches Ok(i) ==> out == Ok::<Option<SubcatchmentOutlet>, SwmmError>(
                        Some(SubcatchmentOutlet::Subcatchment(i)),
                    )
                    &&& v matches Err(e) ==> out == Err::<Option<SubcatchmentOutlet>, SwmmError>(e)
                }
        } else {
            out is Err && swmm_error_is(out->Err_0, ErrorCode::ApiPropertyValue, "outlet has the wrong object family"@)
        },
    }
}

/// Resolves an optional outlet.
fn resolve_outlet<F: Fn(&RelatedObject, ObjectType, &'static str) -> Result<usize, SwmmError>>(
    validate: &F,
    outlet: Option<RelatedObject>,
) -> (out: Result<Option<SubcatchmentOutlet>, SwmmError>)
    requires
        forall|r: &RelatedObject, t: ObjectType, n: &'static str| call_requires(*validate, (r, t, n)),
    ensures
        spec_outlet_resolved(*validate, outlet, out),
{
    match outlet {
        None => Ok(None),
        Some(o) => {
            if o.object_type == ObjectType::Node {
                let v = resolve_required(validate, &o, ObjectType::Node, "outlet");
                match v {
                    Ok(i) => Ok(Some(SubcatchmentOutlet::Node(i))),
                    Err(e) => Err(e),
                }
            } else if o.object_type == ObjectType::Subcatch {
                let v = resolve_required(validate, &o, ObjectType::Subcatch, "outlet");
                match v {
                    Ok(i) => Ok(Some(SubcatchmentOutlet::Subcatchment(i))),
                    Err(e) => Err(e),
                }
            } else {
                Err(SwmmError::with_str(ErrorCode::ApiPropertyValue, "outlet has the wrong object family"))
            }
        },
    }
}

/// `out` is what validating a groundwater declaration gives: its aquifer, then its node.
pub open spec fn spec_groundwater_configuration<
    F: Fn(&RelatedObject, ObjectType, &'static str) -> Result<usize, SwmmError>,
>(validate: F, settings: GroundwaterSettings, out: Result<GroundwaterConfiguration, SwmmError>) -> bool {
    exists|a: Result<usize, SwmmError>|
        {
            &&& #[trigger] call_ensures(validate, (&settings.aquifer, ObjectType::Aquifer, "aquifer"), a)
            &&& a matches Err(e) ==> out == Err::<GroundwaterConfiguration, SwmmError>(e)
            &&& a matches Ok(ai) ==> exists|n: Result<usize, SwmmError>|
                {
                    &&& #[trigger] call_ensures(validate, (&settings.node, ObjectType::Node, "node"), n)
                    &&& n matches Err(e) ==> out == Err::<GroundwaterConfiguration, SwmmError>(e)
                    &&& n matches Ok(ni) ==> out == Ok::<GroundwaterConfiguration, SwmmError>(
                        GroundwaterConfiguration::Present { aquifer_index: ai, node_index: ni, values: settings.values },
                    )
                }
        }
}

/// Validates a groundwater declaration's relationships and builds its configuration.
pub fn groundwater_configuration<F: Fn(&RelatedObject, ObjectType, &'static str) -> Result<usize, SwmmError>>(
    validate: &F,
    settings: GroundwaterSettings,
) -> (out: Result<GroundwaterConfiguration, SwmmError>)
    requires
        forall|r: &RelatedObject, t: ObjectType, n: &'static str| call_requires(*validate, (r, t, n)),
    ensures
        spec_groundwater_configuration(*validate, settings, out),
{
    let a = resolve_required(validate, &settings.aquifer, ObjectType::Aquifer, "aquifer");
    let ghost ga = a;
    let aquifer_index = match a {
        Err(e) => {
            return Err(e);
        },
        Ok(i) => i,
    };
    let n = resolve_required(validate, &settings.node, ObjectType::Node, "node");
    let ghost gn = n;
    match n {
        Err(e) => {
            assert(call_ensures(*validate, (&settings.node, ObjectType::Node, "node"), gn));
            Err(e)
        },
        Ok(node_index) => {
            assert(call_ensures(*validate, (&settings.node, ObjectType::Node, "node"), gn));
            Ok(GroundwaterConfiguration::Present { aquifer_index, node_index, values: settings.values })
        },
    }
}

/// `out` is what resolving an optional groundwater setting gives.
pub open spec fn spec_groundwater_resolved<F: Fn(&RelatedObject, ObjectType, &'static str) -> Result<usize, SwmmError>>(
    validate: F,
    groundwater: Option<Option<GroundwaterSettings>>,
    out: Result<Option<GroundwaterConfiguration>, SwmmError>,
) -> bool {
    match groundwater {
        None => out == Ok::<Option<GroundwaterConfiguration>, SwmmError>(None),
        Some(None) => out == Ok::<Option<GroundwaterConfiguration>, SwmmError>(Some(GroundwaterConfiguration::Removed)),
        Some(Some(s)) => exists|c: Result<GroundwaterConfiguration, SwmmError>|
            {
                &&& #[trigger] spec_groundwater_configuration(validate, s, c)
                &&& c matches Ok(g) ==> out == Ok::<Option<GroundwaterConfiguration>, SwmmError>(Some(g))
                &&& c matches Err(e) ==> out == Err::<Option<GroundwaterConfiguration>, SwmmError>(e)
            },
    }
}

/// Resolves an optional groundwater setting.
fn resolve_groundwater<F: Fn(&RelatedObject, ObjectType, &'static str) -> Result<usize, SwmmError>>(
    validate: &F,
    groundwater: Option<Option<GroundwaterSettings>>,
) -> (out: Result<Option<GroundwaterConfiguration>, SwmmError>)
    requires
        forall|r: &RelatedObject, t: ObjectType, n: &'static str| call_requires(*validate, (r, t, n)),
    ensures
        spec_groundwater_resolved(*validate, groundwater, out),
{
    match groundwater {
        None => Ok(None),
        Some(None) => Ok(Some(GroundwaterConfiguration::Removed)),
        Some(Some(s)) => match groundwater_configuration(validate, s) {
            Ok(g) => Ok(Some(g)),
            Err(e) => Err(e),
        },
    }
}

/// `out` is what resolving an optional snowpack setting gives.
pub open spec fn spec_snowpack_resolved<F: Fn(&RelatedObject, ObjectType, &'static str) -> Result<usize, SwmmError>>(
    validate: F,
    snowpack: Option<Option<RelatedObject>>,
    out: Result<Option<SnowpackConfiguration>, SwmmError>,
) -> bool {
    match snowpack {
        None => out == Ok::<Option<SnowpackConfiguration>, SwmmError>(None),
        Some(None) => out == Ok::<Option<SnowpackConfiguration>, SwmmError>(Some(SnowpackConfiguration::Removed)),
        Some(Some(r)) => exists|v: Result<usize, SwmmError>|
            {
                &&& #[trigger] call_ensures(validate, (&r, ObjectType::Snowmelt, "snowpack"), v)
                &&& v matches Ok(i) ==> out == Ok::<Option<SnowpackConfiguration>, SwmmError>(
                    Some(SnowpackConfiguration::Present { snowmelt_index: i }),
                )
                &&& v matches Err(e) ==> out == Err::<Option<SnowpackConfiguration>, SwmmError>(e)
            },
    }
}

/// Resolves an optional snowpack setting.
fn resolve_snowpack<F: Fn(&RelatedObject, ObjectType, &'static str) -> Result<usize, SwmmError>>(
    validate: &F,
    snowpack: Option<Option<RelatedObject>>,
) -> (out: Result<Option<SnowpackConfiguration>, SwmmError>)
    requires
        forall|r: &RelatedObject, t: ObjectType, n: &'static str| call_requires(*validate, (r, t, n)),
    ensures
        spec_snowpack_resolved(*validate, snowpack, out),
{
    match snowpack {
        None => Ok(None),
        Some(None) => Ok(Some(SnowpackConfiguration::Removed)),
        Some(Some(r)) => match resolve_required(validate, &r, ObjectType::Snowmelt, "snowpack") {
            Ok(i) => Ok(Some(SnowpackConfiguration::Present { snowmelt_index: i })),
            Err(e) => Err(e),
        },
    }
}

/// `out` is what resolving optional named entries of `family` gives (omitted identities take
/// zero).
pub open spec fn spec_entries_resolved<I: Fn(ObjectType) -> Result<Vec<SettingsIdentity>, SwmmError>>(
    identities: I,
    family: ObjectType,
    values: Option<Seq<(String, Number)>>,
    out: Result<Option<Seq<(usize, Number)>>, SwmmError>,
) -> bool {
    match values {
        None => out == Ok::<Option<Seq<(usize, Number)>>, SwmmError>(None),
        Some(v) => match out {
            Ok(Some(s)) => spec_named_resolved(identities, family, v, true, Ok(s)),
            Ok(None) => false,
            Err(e) => spec_named_resolved(identities, family, v, true, Err(e)),
        },
    }
}

/// An optional resolution outcome with its entries as a sequence.
pub open spec fn spec_entries_view(r: Result<Option<Vec<(usize, Number)>>, SwmmError>) -> Result<
    Option<Seq<(usize, Number)>>,
    SwmmError,
> {
    match r {
        Ok(p) => Ok(spec_opt_seq(p)),
        Err(e) => Err(e),
    }
}

/// Resolves optional named entries of `family`, omitted identities taking zero.
fn resolve_entries_of<I: Fn(ObjectType) -> Result<Vec<SettingsIdentity>, SwmmError>>(
    identities: &I,
    family: ObjectType,
    values: Option<Vec<(String, Number)>>,
) -> (out: Result<Option<Vec<(usize, Number)>>, SwmmError>)
    requires
        forall|t: ObjectType| call_requires(*identities, (t,)),
    ensures
        spec_entries_resolved(*identities, family, spec_opt_seq(values), spec_entries_view(out)),
{
    match values {
        None => {
            let out: Result<Option<Vec<(usize, Number)>>, SwmmError> = Ok(None);
            assert(spec_opt_seq::<(String, Number)>(None) == None::<Seq<(String, Number)>>);
            assert(spec_entries_view(out) == Ok::<Option<Seq<(usize, Number)>>, SwmmError>(None));
            assert(spec_entries_resolved(*identities, family, None, spec_entries_view(out)));
            out
        },
        Some(v) => {
            let r = resolve_named_values(identities, family, &v, true);
            match r {
                Ok(p) => Ok(Some(p)),
                Err(e) => Err(e),
            }
        },
    }
}

/// The outcomes of resolving a subcatchment update, in order: its rain gage, outlet,
/// groundwater, snowpack, loading and coverage.
pub type PatchSteps = (
    Result<Option<usize>, SwmmError>,
    Result<Option<SubcatchmentOutlet>, SwmmError>,
    Result<Option<GroundwaterConfiguration>, SwmmError>,
    Result<Option<SnowpackConfiguration>, SwmmError>,
    Result<Option<Seq<(usize, Number)>>, SwmmError>,
    Result<Option<Seq<(usize, Number)>>, SwmmError>,
);

/// `steps` are the resolution outcomes of `u`, each step taken only after the ones before it
/// succeeded.
pub open spec fn spec_patch_steps<
    F: Fn(&RelatedObject, ObjectType, &'static str) -> Result<usize, SwmmError>,
    I: Fn(ObjectType) -> Result<Vec<SettingsIdentity>, SwmmError>,
>(validate: F, identities: I, u: SubcatchmentUpdateView, steps: PatchSteps) -> bool {
    &&& spec_resolved(validate, u.rain_gage, ObjectType::Gage, "rain_gage", steps.0)
    &&& steps.0 is Ok ==> spec_outlet_resolved(validate, u.outlet, steps.1)
    &&& steps.0 is Ok && steps.1 is Ok ==> spec_groundwater_resolved(validate, u.groundwater, steps.2)
    &&& steps.0 is Ok && steps.1 is Ok && steps.2 is Ok ==> spec_snowpack_resolved(validate, u.snowpack, steps.3)
    &&& steps.0 is Ok && steps.1 is Ok && steps.2 is Ok && steps.3 is Ok ==> spec_entries_resolved(
        identities,
        ObjectType::Pollut,
        u.loading,
        steps.4,
    )
    &&& steps.0 is Ok && steps.1 is Ok && steps.2 is Ok && steps.3 is Ok && steps.4 is Ok ==> spec_entries_resolved(
        identities,
        ObjectType::Landuse,
        u.coverage,
        steps.5,
    )
}

/// `result` is the first failure among `steps`, else the patch they build from `u`.
pub open spec fn spec_patch_result(u: SubcatchmentUpdateView, steps: PatchSteps, result: Result<SubcatchmentPatch, SwmmError>) -> bool {
    if steps.0 is Err {
        result == Err::<SubcatchmentPatch, SwmmError>(steps.0->Err_0)
    } else if steps.1 is Err {
        result == Err::<SubcatchmentPatch, SwmmError>(steps.1->Err_0)
    } else if steps.2 is Err {
        result == Err::<SubcatchmentPatch, SwmmError>(steps.2->Err_0)
    } else if steps.3 is Err {
        result == Err::<SubcatchmentPatch, SwmmError>(steps.3->Err_0)
    } else if steps.4 is Err {
        result == Err::<SubcatchmentPatch, SwmmError>(steps.4->Err_0)
    } else if steps.5 is Err {
        result == Err::<SubcatchmentPatch, SwmmError>(steps.5->Err_0)
    } else {
        result is Ok && result->Ok_0@ == (SubcatchmentPatchView {
            scalars: u.scalars,
            rain_gage_index: steps.0->Ok_0,
            outlet: steps.1->Ok_0,
            infiltration: u.infiltration,
            groundwater: steps.2->Ok_0,
            snowpack: steps.3->Ok_0,
            loading: steps.4->Ok_0,
            coverage: steps.5->Ok_0,
        })
    }
}

/// `result` is what checking `update` against the configured objects gives: its relationships validated and its named entries resolved in turn.
pub open spec fn spec_subcatchment_patch<F: Fn(&RelatedObject, ObjectType, &'static str) -> Result<usize, SwmmError>, I: Fn(ObjectType) -> Result<Vec<SettingsIdentity>, SwmmError>>(
    validate: F,
    identities: I,
    update: SubcatchmentUpdate,
    result: Result<SubcatchmentPatch, SwmmError>,
) -> bool {
    exists|steps: PatchSteps|
        spec_patch_steps(validate, identities, update@, steps) && spec_patch_result(update@, steps, result)
}

/// The outcomes that checking a `SubcatchmentUpdate` against the configured objects can give.
pub open spec fn spec_subcatchment_check<F: Fn(&RelatedObject, ObjectType, &'static str) -> Result<usize, SwmmError>, I: Fn(ObjectType) -> Result<Vec<SettingsIdentity>, SwmmError>>(
    validate: F,
    identities: I,
) -> spec_fn(SubcatchmentUpdate, Result<SubcatchmentPatch, SwmmError>) -> bool {
    |update: SubcatchmentUpdate, result: Result<SubcatchmentPatch, SwmmError>| spec_subcatchment_patch(validate, identities, update, result)
}

impl SubcatchmentUpdate {
    /// Resolves the update's relationships and named entries and builds one subcatchment patch:
    /// the rain gage, outlet, groundwater aquifer and node, and snowpack are validated in turn,
    /// then initial buildup against the pollutants and coverage against the land uses (omitted
    /// identities taking zero); the first failure is returned.
    pub fn into_patch<
        F: Fn(&RelatedObject, ObjectType, &'static str) -> Result<usize, SwmmError>,
        I: Fn(ObjectType) -> Result<Vec<SettingsIdentity>, SwmmError>,
    >(self, validate: &F, identities: &I) -> (result: Result<SubcatchmentPatch, SwmmError>)
        requires
            forall|r: &RelatedObject, t: ObjectType, n: &'static str| call_requires(*validate, (r, t, n)),
            forall|t: ObjectType| call_requires(*identities, (t,)),
        ensures
            spec_subcatchment_patch(*validate, *identities, self, result),
    {
        let ghost u = self@;
        let SubcatchmentUpdate { scalars, rain_gage, outlet, infiltration, groundwater, snowpack, loading, coverage } = self;
        let ghost ok_index: Result<Option<usize>, SwmmError> = Ok(None);
        let ghost ok_outlet: Result<Option<SubcatchmentOutlet>, SwmmError> = Ok(None);
        let ghost ok_groundwater: Result<Option<GroundwaterConfiguration>, SwmmError> = Ok(None);
        let ghost ok_snowpack: Result<Option<SnowpackConfiguration>, SwmmError> = Ok(None);
        let ghost ok_entries: Result<Option<Seq<(usize, Number)>>, SwmmError> = Ok(None);
        let g = crate::convert::resolve(validate, rain_gage, ObjectType::Gage, "rain_gage");
        let ghost s0 = g;
        let rain_gage_index = match g {
            Err(e) => {
                assert(spec_patch_steps(*validate, *identities, u, (s0, ok_outlet, ok_groundwater, ok_snowpack, ok_entries, ok_entries)));
                assert(spec_patch_result(u, (s0, ok_outlet, ok_groundwater, ok_snowpack, ok_entries, ok_entries), Err::<SubcatchmentPatch, SwmmError>(e)));
                return Err(e);
            },
            Ok(i) => i,
        };
        let o = resolve_outlet(validate, outlet);
        let ghost s1 = o;
        let outlet = match o {
            Err(e) => {
                assert(spec_patch_steps(*validate, *identities, u, (s0, s1, ok_groundwater, ok_snowpack, ok_entries, ok_entries)));
                assert(spec_patch_result(u, (s0, s1, ok_groundwater, ok_snowpack, ok_entries, ok_entries), Err::<SubcatchmentPatch, SwmmError>(e)));
                return Err(e);
            },
            Ok(o) => o,
        };
        let w = resolve_groundwater(validate, groundwater);
        let ghost s2 = w;
        let groundwater = match w {
            Err(e) => {
                assert(spec_patch_steps(*validate, *identities, u, (s0, s1, s2, ok_snowpack, ok_entries, ok_entries)));
                assert(spec_patch_result(u, (s0, s1, s2, ok_snowpack, ok_entries, ok_entries), Err::<SubcatchmentPatch, SwmmError>(e)));
                return Err(e);
            },
            Ok(w) => w,
        };
        let p = resolve_snowpack(validate, snowpack);
        let ghost s3 = p;
        let snowpack = match p {
            Err(e) => {
                assert(spec_patch_steps(*validate, *identities, u, (s0, s1, s2, s3, ok_entries, ok_entries)));
                assert(spec_patch_result(u, (s0, s1, s2, s3, ok_entries, ok_entries), Err::<SubcatchmentPatch, SwmmError>(e)));
                return Err(e);
            },
            Ok(p) => p,
        };
        let l = resolve_entries_of(identities, ObjectType::Pollut, loading);
        let ghost s4 = spec_entries_view(l);
        let loading = match l {
            Err(e) => {
                assert(spec_patch_steps(*validate, *identities, u, (s0, s1, s2, s3, s4, ok_entries)));
                assert(spec_patch_result(u, (s0, s1, s2, s3, s4, ok_entries), Err::<SubcatchmentPatch, SwmmError>(e)));
                return Err(e);
            },
            Ok(l) => l,
        };
        let c = resolve_entries_of(identities, ObjectType::Landuse, coverage);
        let ghost s5 = spec_entries_view(c);
        let coverage = match c {
            Err(e) => {
                assert(spec_patch_steps(*validate, *identities, u, (s0, s1, s2, s3, s4, s5)));
                assert(spec_patch_result(u, (s0, s1, s2, s3, s4, s5), Err::<SubcatchmentPatch, SwmmError>(e)));
                return Err(e);
            },
            Ok(c) => c,
        };
        let patch = SubcatchmentPatch {
            scalars,
            rain_gage_index,
            outlet,
            infiltration,
            groundwater,
            snowpack,
            loading,
            coverage,
        };
        assert(spec_patch_steps(*validate, *identities, u, (s0, s1, s2, s3, s4, s5)));
        assert(spec_patch_result(u, (s0, s1, s2, s3, s4, s5), Ok::<SubcatchmentPatch, SwmmError>(patch)));
        Ok(patch)
    }
}

/// The configured family of a private named-settings mapping name.
pub open spec fn spec_named_family(mapping: Seq<char>) -> Option<ObjectType> {
    if mapping == "loading"@ {
        Some(ObjectType::Pollut)
    } else if mapping == "coverage"@ {
        Some(ObjectType::Landuse)
    } else {
        None
    }
}

/// `result` is a named-settings request: the supplied entries are read first, then the private
/// mapping name is resolved to its family.
pub open spec fn spec_named_request(
    mapping: Seq<char>,
    values: PyValue,
    result: Result<(ObjectType, Vec<(String, Number)>), NativeError>,
) -> bool {
    match spec_named_values(values, mapping) {
        Err(r) => crate::convert::spec_refusal_raised(result, r, "update_subcatchment"),
        Ok(v) => match spec_named_family(mapping) {
            None => result is Err && crate::error::is_property_error(
                result->Err_0,
                "update_subcatchment",
                ErrorCode::ApiPropertyValue,
                "invalid private named settings mapping"@,
            ),
            Some(t) => result is Ok && result->Ok_0.0 == t && result->Ok_0.1@ == v,
        },
    }
}

/// Reads a named-settings request: its entries and the family its mapping name selects.
pub fn named_settings_request(mapping: &str, values: &PyValue) -> (result: Result<
    (ObjectType, Vec<(String, Number)>),
    NativeError,
>)
    ensures
        spec_named_request(mapping@, *values, result),
{
    let entries = match named_mapping_values(values, mapping) {
        Err(e) => {
            return Err(e);
        },
        Ok(v) => v,
    };
    if str_eq(mapping, "loading") {
        Ok((ObjectType::Pollut, entries))
    } else if str_eq(mapping, "coverage") {
        Ok((ObjectType::Landuse, entries))
    } else {
        Err(subcatchment_py_error(String::from_str("invalid private named settings mapping")))
    }
}

/// The empty subcatchment patch.
pub open spec fn spec_empty_patch() -> SubcatchmentPatchView {
    SubcatchmentPatchView {
        scalars: spec_empty_subcatchment_update().scalars,
        rain_gage_index: None,
        outlet: None,
        infiltration: None,
        groundwater: None,
        snowpack: None,
        loading: None,
        coverage: None,
    }
}

/// The patch that replaces the named settings of `family` with `entries`.
pub open spec fn spec_named_patch(family: ObjectType, entries: Seq<(usize, Number)>) -> SubcatchmentPatchView {
    if family == ObjectType::Pollut {
        SubcatchmentPatchView { loading: Some(entries), ..spec_empty_patch() }
    } else {
        SubcatchmentPatchView { coverage: Some(entries), ..spec_empty_patch() }
    }
}

/// Builds the patch of a named-settings update: nothing changes for no entries without
/// `replace`; otherwise the entries are resolved against the family's identities (omitted
/// identities taking zero with `replace`) and replace its initial buildup or coverage.
pub fn named_settings_patch<I: Fn(ObjectType) -> Result<Vec<SettingsIdentity>, SwmmError>>(
    identities: &I,
    family: ObjectType,
    values: Vec<(String, Number)>,
    replace: bool,
) -> (result: Result<SubcatchmentPatch, SwmmError>)
    requires
        forall|t: ObjectType| call_requires(*identities, (t,)),
    ensures
        values@.len() == 0 && !replace ==> result is Ok && result->Ok_0@ == spec_empty_patch(),
        !(values@.len() == 0 && !replace) ==> exists|r: Result<Seq<(usize, Number)>, SwmmError>|
            {
                &&& #[trigger] spec_named_resolved(*identities, family, values@, replace, r)
                &&& r matches Err(e) ==> result == Err::<SubcatchmentPatch, SwmmError>(e)
                &&& r matches Ok(s) ==> result is Ok && result->Ok_0@ == spec_named_patch(family, s)
            },
{
    let empty = empty_subcatchment_update().scalars;
    if values.len() == 0 && !replace {
        return Ok(SubcatchmentPatch {
            scalars: empty,
            rain_gage_index: None,
            outlet: None,
            infiltration: None,
            groundwater: None,
            snowpack: None,
            loading: None,
            coverage: None,
        });
    }
    let r = resolve_named_values(identities, family, &values, replace);
    match r {
        Err(e) => Err(e),
        Ok(entries) => {
            if family == ObjectType::Pollut {
                Ok(SubcatchmentPatch {
                    scalars: empty,
                    rain_gage_index: None,
                    outlet: None,
                    infiltration: None,
                    groundwater: None,
                    snowpack: None,
                    loading: Some(entries),
                    coverage: None,
                })
            } else {
                Ok(SubcatchmentPatch {
                    scalars: empty,
                    rain_gage_index: None,
                    outlet: None,
                    infiltration: None,
                    groundwater: None,
                    snowpack: None,
                    loading: None,
                    coverage: Some(entries),
                })
            }
        },
    }
}

impl NativeSimulation {
    /// Atomically updates one subcatchment's root settings from raw Python values.
    ///
    /// Once the view's identity is confirmed, the update is resolved (`validate` and
    /// `identities`, through `SubcatchmentUpdate::into_patch`); only a checked patch reaches
    /// `apply`.
    pub fn update_subcatchment<S, M: FnOnce() -> Result<bool, SwmmError>, A: FnOnce(SubcatchmentPatch) -> Reported<()>, F: Fn(&RelatedObject, ObjectType, &'static str) -> Result<usize, SwmmError>, I: Fn(ObjectType) -> Result<Vec<SettingsIdentity>, SwmmError>>(
        &mut self,
        generation: u64,
        subtype: Option<S>,
        changes: Vec<(Option<String>, PyValue)>,
        matches: M,
        validate: &F,
        identities: &I,
        apply: A,
    ) -> (result: Result<(), NativeError>)
        requires
            call_requires(matches, ()),
            forall|r: &RelatedObject, t: ObjectType, n: &'static str| call_requires(*validate, (r, t, n)),
            forall|t: ObjectType| call_requires(*identities, (t,)),
            forall|x: SubcatchmentPatch| call_requires(apply, (x,)),
        ensures
            exists|p: Result<SubcatchmentUpdate, NativeError>|
                {
                    &&& spec_subcatchment_outcome(p, spec_subcatchment_update(changes@, changes@.len() as int))
                    &&& spec_field_update_checked(*old(self), *final(self), "update_subcatchment", generation, subtype, p, matches, spec_subcatchment_check(*validate, *identities), apply, result)
                },
            old(self).wf() ==> final(self).wf(),
    {
        let payload = extract_subcatchment_update(changes);
        let check = |u: SubcatchmentUpdate| -> (c: Result<SubcatchmentPatch, SwmmError>)
            requires
                forall|r: &RelatedObject, t: ObjectType, n: &'static str| call_requires(*validate, (r, t, n)),
                forall|t: ObjectType| call_requires(*identities, (t,)),
            ensures
                spec_subcatchment_patch(*validate, *identities, u, c),
            { u.into_patch(validate, identities) };
        self.field_update_checked("update_subcatchment", generation, subtype, payload, matches, check, Ghost(spec_subcatchment_check(*validate, *identities)), apply)
    }

    /// Atomically updates one subcatchment's initial buildup or coverage from a raw Python
    /// mapping.
    ///
    /// `apply` builds the patch (`named_settings_patch`) and patches the subcatchment.
    pub fn update_subcatchment_named_settings<
        S,
        M: FnOnce() -> Result<bool, SwmmError>,
        A: FnOnce((ObjectType, Vec<(String, Number)>)) -> Reported<()>,
    >(
        &mut self,
        generation: u64,
        subtype: Option<S>,
        mapping: &str,
        values: &PyValue,
        matches: M,
        apply: A,
    ) -> (result: Result<(), NativeError>)
        requires
            call_requires(matches, ()),
            forall|x: (ObjectType, Vec<(String, Number)>)| call_requires(apply, (x,)),
        ensures
            exists|p: Result<(ObjectType, Vec<(String, Number)>), NativeError>|
                {
                    &&& spec_named_request(mapping@, *values, p)
                    &&& spec_field_update(
                        *old(self),
                        *final(self),
                        "update_subcatchment_named_settings",
                        generation,
                        subtype,
                        p,
                        matches,
                        apply,
                        result,
                    )
                },
            old(self).wf() ==> final(self).wf(),
    {
        let payload = named_settings_request(mapping, values);
        self.field_update("update_subcatchment_named_settings", generation, subtype, payload, matches, apply)
    }
}

} // verus!
