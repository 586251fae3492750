use vstd::prelude::*;
use vstd::string::*;

use crate::convert::{
    detail, lenient_number, number_is_zero, related_live_view, spec_attribute, spec_detailed,
    spec_lenient_number, spec_number_is_zero, spec_refusal_outcome, spec_related,
    spec_strict_bool, spec_text, strict_bool, take_attributes, text, Refusal,
};
use crate::convert::{
    resolve_clearable, resolve_required, spec_resolved_clearable, spec_strict_number, strict_number,
};
use crate::error::internal_error;
use crate::fields::{
    is_internal_error, node_configuration_field, node_result_field, spec_node_configuration_field,
    spec_node_result_field, NodeConfigurationField, NodeResultField,
};
use crate::owner::{NativeSimulation, Reported};
use crate::views::{spec_field_update, spec_field_view, spec_field_update_checked};
use crate::error::{policy_py_error, NativeError, SwmmError};
use crate::fields::StorageType;
use crate::text::str_eq;
use crate::value::{Number, ObjectType, PublicType, PyValue, RelatedObject};

verus! {

/// Three numbers.
pub type Triple = (Number, Number, Number);

/// Creates one validation error for node-settings extraction.
pub fn node_py_error(detail: String) -> (raised: NativeError)
    ensures
        raised == (NativeError::Native {
            operation: "update_node_settings",
            error: SwmmError {
                code: crate::error::ErrorCode::ApiPropertyValue,
                detail: Some(detail),
            },
        }),
{
    policy_py_error("update_node_settings", detail)
}

/// Extracts one non-boolean numeric node value.
pub fn node_float(value: &PyValue, name: &str) -> (result: Result<Number, NativeError>)
    ensures
        spec_refusal_outcome(result, spec_detailed(spec_lenient_number(*value, name@)), "update_node_settings"),
{
    lenient_number(value, name, "update_node_settings")
}

/// Extracts one strict boolean node value.
pub fn node_bool(value: &PyValue, name: &str) -> (result: Result<bool, NativeError>)
    ensures
        spec_refusal_outcome(result, spec_detailed(spec_strict_bool(*value, name@)), "update_node_settings"),
{
    strict_bool(value, name, "update_node_settings")
}

/// A strict three-number tuple.
pub open spec fn spec_node_triple(value: PyValue, name: Seq<char>) -> Result<Triple, Seq<char>> {
    match value {
        PyValue::Tuple(items) => if items@.len() != 3 {
            Err(name + " must contain three values"@)
        } else {
            match spec_lenient_number(items@[0], name) {
                Err(d) => Err(d),
                Ok(a) => match spec_lenient_number(items@[1], name) {
                    Err(d) => Err(d),
                    Ok(b) => match spec_lenient_number(items@[2], name) {
                        Err(d) => Err(d),
                        Ok(c) => Ok((a, b, c)),
                    },
                },
            }
        },
        _ => Err(name + " must be a three-value tuple"@),
    }
}

/// Extracts one strict three-number tuple.
pub fn node_triple(value: &PyValue, name: &str) -> (result: Result<Triple, NativeError>)
    ensures
        spec_refusal_outcome(result, spec_detailed(spec_node_triple(*value, name@)), "update_node_settings"),
{
    match value {
        PyValue::Tuple(items) => {
            if items.len() != 3 {
                return Err(node_py_error(detail(name, " must contain three values")));
            }
            let a = match node_float(&items[0], name) {
                Ok(n) => n,
                Err(e) => {
                    return Err(e);
                },
            };
            let b = match node_float(&items[1], name) {
                Ok(n) => n,
                Err(e) => {
                    return Err(e);
                },
            };
            let c = match node_float(&items[2], name) {
                Ok(n) => n,
                Err(e) => {
                    return Err(e);
                },
            };
            Ok((a, b, c))
        },
        _ => Err(node_py_error(detail(name, " must be a three-value tuple"))),
    }
}

/// True when three numbers are all zero.
pub open spec fn spec_triple_is_zero(values: Triple) -> bool {
    spec_number_is_zero(values.0) && spec_number_is_zero(values.1) && spec_number_is_zero(values.2)
}

/// Returns whether three numbers are all zero.
fn triple_is_zero(values: Triple) -> (zero: bool)
    ensures
        zero == spec_triple_is_zero(values),
{
    number_is_zero(values.0) && number_is_zero(values.1) && number_is_zero(values.2)
}

/// Takes the value out of one attribute slot.
pub(crate) fn take_slot(slots: &mut Vec<Option<PyValue>>, k: usize) -> (value: Option<PyValue>)
    requires
        k < old(slots)@.len(),
    ensures
        value == old(slots)@[k as int],
        final(slots)@.len() == old(slots)@.len(),
        forall|m: int| 0 <= m < old(slots)@.len() && m != k ==> final(slots)@[m] == old(slots)@[m],
{
    let value = slots.remove(k);
    slots.insert(k, None);
    value
}

/// A storage shape declaration whose curve is not resolved yet.
#[derive(Debug)]
pub enum NativeStorageShape {
    Tabular(RelatedObject),
    Coefficients(StorageType, Triple),
}

/// Storage exfiltration: seepage at a fixed conductivity, or Green-Ampt infiltration.
#[derive(Clone, Copy, Debug)]
pub enum StorageExfiltration {
    Seepage { conductivity: Number },
    GreenAmpt { suction_head: Number, conductivity: Number, moisture_deficit: Number },
}

/// An outfall boundary declaration whose table is not resolved yet.
#[derive(Debug)]
pub enum NativeOutfallBoundary {
    Free,
    Normal,
    Fixed(Number),
    Tidal(RelatedObject),
    TimeSeries(RelatedObject),
}

/// A divider rule declaration whose curve is not resolved yet.
#[derive(Debug)]
pub enum NativeDividerRule {
    Overflow,
    Cutoff(Number),
    Tabular(RelatedObject),
    Weir(Number, Number, Number),
}

/// The storage shape kind named by a private spelling, other than tabular.
pub open spec fn spec_storage_kind(name: Seq<char>) -> Option<StorageType> {
    if name == "functional"@ {
        Some(StorageType::Functional)
    } else if name == "cylindrical"@ {
        Some(StorageType::Cylindrical)
    } else if name == "conical"@ {
        Some(StorageType::Conical)
    } else if name == "paraboloid"@ {
        Some(StorageType::Paraboloid)
    } else if name == "pyramidal"@ {
        Some(StorageType::Pyramidal)
    } else {
        None
    }
}

/// Resolves the storage shape kind named by a private spelling, other than tabular.
fn storage_kind(name: &str) -> (kind: Option<StorageType>)
    ensures
        kind == spec_storage_kind(name@),
{
    if str_eq(name, "functional") {
        Some(StorageType::Functional)
    } else if str_eq(name, "cylindrical") {
        Some(StorageType::Cylindrical)
    } else if str_eq(name, "conical") {
        Some(StorageType::Conical)
    } else if str_eq(name, "paraboloid") {
        Some(StorageType::Paraboloid)
    } else if str_eq(name, "pyramidal") {
        Some(StorageType::Pyramidal)
    } else {
        None
    }
}

/// The refusal of a malformed declaration.
pub open spec fn spec_malformed<X>(message: Seq<char>) -> Result<X, Refusal> {
    Err(Refusal::Detail(message))
}

/// One canonical storage shape declaration.
pub open spec fn spec_extract_storage_shape(value: PyValue) -> Result<NativeStorageShape, Refusal> {
    let malformed = "shape must be StorageShape"@;
    match value {
        PyValue::Declaration { class, attributes } => if class != PublicType::StorageShape {
            spec_malformed(malformed)
        } else {
            let a = attributes@;
            match spec_attribute(a, "kind"@) {
                None => spec_malformed(malformed),
                Some(k) => match spec_text(k) {
                    None => spec_malformed(malformed),
                    Some(kind) => match spec_attribute(a, "coefficients"@) {
                        None => spec_malformed(malformed),
                        Some(c) => match spec_node_triple(c, "shape.coefficients"@) {
                            Err(d) => Err(Refusal::Detail(d)),
                            Ok(coefficients) => match spec_attribute(a, "curve"@) {
                                None => spec_malformed(malformed),
                                Some(curve) => if kind@ == "tabular"@ {
                                    if !spec_triple_is_zero(coefficients) {
                                        spec_malformed("tabular shape coefficients must all be zero"@)
                                    } else {
                                        match spec_related(curve) {
                                            Err(e) => Err(Refusal::Raised(e)),
                                            Ok(None) => spec_malformed(malformed),
                                            Ok(Some(r)) => Ok(NativeStorageShape::Tabular(r)),
                                        }
                                    }
                                } else if !(curve is NoneValue) {
                                    spec_malformed("non-tabular storage shape cannot reference a curve"@)
                                } else {
                                    match spec_storage_kind(kind@) {
                                        Some(t) => Ok(NativeStorageShape::Coefficients(t, coefficients)),
                                        None => spec_malformed("unknown storage shape kind"@),
                                    }
                                },
                            },
                        },
                    },
                },
            }
        },
        _ => spec_malformed(malformed),
    }
}

/// A storage shape is the one that its declared `kind` names: a tabular shape declares zero
/// coefficients and holds the object that `curve` names; any other holds the kind's storage type
/// and the declared `coefficients`, and declares no curve.
pub proof fn lemma_storage_shape_follows_its_kind(class: PublicType, attributes: Vec<(String, PyValue)>)
    ensures
        spec_extract_storage_shape(PyValue::Declaration { class, attributes }) is Ok ==> {
            let x = spec_extract_storage_shape(PyValue::Declaration { class, attributes })->Ok_0;
            let a = attributes@;
            let kind = spec_text(spec_attribute(a, "kind"@)->0)->0@;
            let coefficients = spec_node_triple(spec_attribute(a, "coefficients"@)->0, "shape.coefficients"@);
            let curve = spec_attribute(a, "curve"@)->0;
            &&& class == PublicType::StorageShape
            &&& spec_attribute(a, "kind"@) is Some
            &&& spec_text(spec_attribute(a, "kind"@)->0) is Some
            &&& spec_attribute(a, "coefficients"@) is Some
            &&& coefficients is Ok
            &&& spec_attribute(a, "curve"@) is Some
            &&& match x {
                NativeStorageShape::Tabular(r) => {
                    &&& kind == "tabular"@
                    &&& spec_triple_is_zero(coefficients->Ok_0)
                    &&& spec_related(curve) == Ok::<Option<RelatedObject>, NativeError>(Some(r))
                },
                NativeStorageShape::Coefficients(t, c) => {
                    &&& kind != "tabular"@
                    &&& spec_storage_kind(kind) == Some(t)
                    &&& c == coefficients->Ok_0
                    &&& curve is NoneValue
                },
            }
        },
{
}

/// Extracts one canonical storage shape and its optional related curve.
pub fn extract_storage_shape(value: PyValue) -> (result: Result<NativeStorageShape, NativeError>)
    ensures
        spec_refusal_outcome(result, spec_extract_storage_shape(value), "update_node_settings"),
{
    let malformed = "shape must be StorageShape";
    match value {
        PyValue::Declaration { class, attributes } => {
            if class != PublicType::StorageShape {
                return Err(node_py_error(String::from_str(malformed)));
            }
            let names: Vec<&'static str> = vec!["kind", "coefficients", "curve"];
            proof {
                reveal_strlit("kind");
                reveal_strlit("coefficients");
                reveal_strlit("curve");
                assert(names@[0]@ == "kind"@);
                assert(names@[1]@ == "coefficients"@);
                assert(names@[2]@ == "curve"@);
                assert(names@[0]@.len() != names@[1]@.len());
                assert(names@[0]@.len() != names@[2]@.len());
                assert(names@[1]@.len() != names@[2]@.len());
                assert(forall|i: int, j: int|
                    0 <= i < j < names@.len() ==> (#[trigger] names@[i])@ != (#[trigger] names@[j])@);
            }
            let mut slots = take_attributes(attributes, &names);
            let kind = match take_slot(&mut slots, 0) {
                None => {
                    return Err(node_py_error(String::from_str(malformed)));
                },
                Some(k) => match text(k) {
                    None => {
                        return Err(node_py_error(String::from_str(malformed)));
                    },
                    Some(kind) => kind,
                },
            };
            let coefficients = match take_slot(&mut slots, 1) {
                None => {
                    return Err(node_py_error(String::from_str(malformed)));
                },
                Some(c) => match node_triple(&c, "shape.coefficients") {
                    Err(e) => {
                        return Err(e);
                    },
                    Ok(t) => t,
                },
            };
            let curve = match take_slot(&mut slots, 2) {
                None => {
                    return Err(node_py_error(String::from_str(malformed)));
                },
                Some(curve) => curve,
            };
            if str_eq(kind.as_str(), "tabular") {
                if !triple_is_zero(coefficients) {
                    return Err(node_py_error(String::from_str("tabular shape coefficients must all be zero")));
                }
                return match related_live_view(curve) {
                    Err(e) => Err(e),
                    Ok(None) => Err(node_py_error(String::from_str(malformed))),
                    Ok(Some(r)) => Ok(NativeStorageShape::Tabular(r)),
                };
            }
            if !matches!(curve, PyValue::NoneValue) {
                return Err(node_py_error(String::from_str("non-tabular storage shape cannot reference a curve")));
            }
            match storage_kind(kind.as_str()) {
                Some(t) => Ok(NativeStorageShape::Coefficients(t, coefficients)),
                None => Err(node_py_error(String::from_str("unknown storage shape kind"))),
            }
        },
        _ => Err(node_py_error(String::from_str(malformed))),
    }
}

/// One storage exfiltration declaration: seepage when suction head and moisture deficit are
/// both zero, else Green-Ampt.
pub open spec fn spec_extract_storage_exfiltration(value: PyValue) -> Result<StorageExfiltration, Refusal> {
    let malformed = "exfiltration must be StorageExfiltration or None"@;
    match value {
        PyValue::Declaration { class, attributes } => if class != PublicType::StorageExfiltration {
            spec_malformed(malformed)
        } else {
            let a = attributes@;
            match spec_attribute(a, "conductivity"@) {
                None => spec_malformed(malformed),
                Some(c) => match spec_lenient_number(c, "exfiltration.conductivity"@) {
                    Err(d) => Err(Refusal::Detail(d)),
                    Ok(conductivity) => match spec_attribute(a, "suction_head"@) {
                        None => spec_malformed(malformed),
                        Some(s) => match spec_lenient_number(s, "exfiltration.suction_head"@) {
                            Err(d) => Err(Refusal::Detail(d)),
                            Ok(suction_head) => match spec_attribute(a, "moisture_deficit"@) {
                                None => spec_malformed(malformed),
                                Some(m) => match spec_lenient_number(m, "exfiltration.moisture_deficit"@) {
                                    Err(d) => Err(Refusal::Detail(d)),
                                    Ok(moisture_deficit) => if spec_number_is_zero(suction_head)
                                        && spec_number_is_zero(moisture_deficit) {
                                        Ok(StorageExfiltration::Seepage { conductivity })
                                    } else {
                                        Ok(StorageExfiltration::GreenAmpt { suction_head, conductivity, moisture_deficit })
                                    },
                                },
                            },
                        },
                    },
                },
            }
        },
        _ => spec_malformed(malformed),
    }
}

/// A storage exfiltration keeps each declared attribute in its own field: its conductivity is the
/// declaration's `conductivity`, a Green-Ampt exfiltration's suction head and moisture deficit are
/// the declaration's `suction_head` and `moisture_deficit`, and it is seepage exactly when those
/// two are zero.
pub proof fn lemma_exfiltration_keeps_each_attribute(class: PublicType, attributes: Vec<(String, PyValue)>)
    ensures
        spec_extract_storage_exfiltration(PyValue::Declaration { class, attributes }) is Ok ==> {
            let x = spec_extract_storage_exfiltration(PyValue::Declaration { class, attributes })->Ok_0;
            let a = attributes@;
            &&& class == PublicType::StorageExfiltration
            &&& spec_attribute(a, "conductivity"@) is Some
            &&& spec_attribute(a, "suction_head"@) is Some
            &&& spec_attribute(a, "moisture_deficit"@) is Some
            &&& spec_lenient_number(spec_attribute(a, "conductivity"@)->0, "conductivity"@) is Ok
            &&& spec_lenient_number(spec_attribute(a, "suction_head"@)->0, "suction_head"@) is Ok
            &&& spec_lenient_number(spec_attribute(a, "moisture_deficit"@)->0, "moisture_deficit"@) is Ok
            &&& match x {
                StorageExfiltration::Seepage { conductivity } => {
                    &&& conductivity == spec_lenient_number(spec_attribute(a, "conductivity"@)->0, "conductivity"@)->Ok_0
                    &&& spec_number_is_zero(spec_lenient_number(spec_attribute(a, "suction_head"@)->0, "suction_head"@)->Ok_0)
                    &&& spec_number_is_zero(spec_lenient_number(spec_attribute(a, "moisture_deficit"@)->0, "moisture_deficit"@)->Ok_0)
                },
                StorageExfiltration::GreenAmpt { suction_head, conductivity, moisture_deficit } => {
                    &&& conductivity == spec_lenient_number(spec_attribute(a, "conductivity"@)->0, "conductivity"@)->Ok_0
                    &&& suction_head == spec_lenient_number(spec_attribute(a, "suction_head"@)->0, "suction_head"@)->Ok_0
                    &&& moisture_deficit == spec_lenient_number(spec_attribute(a, "moisture_deficit"@)->0, "moisture_deficit"@)->Ok_0
                    &&& !(spec_number_is_zero(suction_head) && spec_number_is_zero(moisture_deficit))
                },
            }
        },
{
}

/// Each supported node setting lands in its own field of the update, taking the value read from what was supplied for it, and nothing else changes.
pub proof fn lemma_node_settings_land_in_their_fields(u: NodeUpdate)
    ensures
        forall|k: String, value: PyValue| k@ == "invert_elevation"@ && spec_lenient_number(value, "invert_elevation"@) is Ok ==> #[trigger] spec_apply_node_change(u, Some(k), value) == Ok::<NodeUpdate, Refusal>(NodeUpdate { patch: NodePatch { invert_elevation: Some((spec_lenient_number(value, "invert_elevation"@)->Ok_0)), ..u.patch }, ..u }),
        forall|k: String, value: PyValue| k@ == "full_depth"@ && spec_lenient_number(value, "full_depth"@) is Ok ==> #[trigger] spec_apply_node_change(u, Some(k), value) == Ok::<NodeUpdate, Refusal>(NodeUpdate { patch: NodePatch { full_depth: Some((spec_lenient_number(value, "full_depth"@)->Ok_0)), ..u.patch }, ..u }),
        forall|k: String, value: PyValue| k@ == "surcharge_depth"@ && spec_lenient_number(value, "surcharge_depth"@) is Ok ==> #[trigger] spec_apply_node_change(u, Some(k), value) == Ok::<NodeUpdate, Refusal>(NodeUpdate { patch: NodePatch { surcharge_depth: Some((spec_lenient_number(value, "surcharge_depth"@)->Ok_0)), ..u.patch }, ..u }),
        forall|k: String, value: PyValue| k@ == "ponded_area"@ && spec_lenient_number(value, "ponded_area"@) is Ok ==> #[trigger] spec_apply_node_change(u, Some(k), value) == Ok::<NodeUpdate, Refusal>(NodeUpdate { patch: NodePatch { ponded_area: Some((spec_lenient_number(value, "ponded_area"@)->Ok_0)), ..u.patch }, ..u }),
        forall|k: String, value: PyValue| k@ == "initial_depth"@ && spec_lenient_number(value, "initial_depth"@) is Ok ==> #[trigger] spec_apply_node_change(u, Some(k), value) == Ok::<NodeUpdate, Refusal>(NodeUpdate { patch: NodePatch { initial_depth: Some((spec_lenient_number(value, "initial_depth"@)->Ok_0)), ..u.patch }, ..u }),
        forall|k: String, value: PyValue| k@ == "included_in_report"@ && spec_strict_bool(value, "included_in_report"@) is Ok ==> #[trigger] spec_apply_node_change(u, Some(k), value) == Ok::<NodeUpdate, Refusal>(NodeUpdate { patch: NodePatch { included_in_report: Some((spec_strict_bool(value, "included_in_report"@)->Ok_0)), ..u.patch }, ..u }),
{
    assert forall|k: String, value: PyValue| k@ == "invert_elevation"@ && spec_lenient_number(value, "invert_elevation"@) is Ok implies #[trigger] spec_apply_node_change(u, Some(k), value) == Ok::<NodeUpdate, Refusal>(NodeUpdate { patch: NodePatch { invert_elevation: Some((spec_lenient_number(value, "invert_elevation"@)->Ok_0)), ..u.patch }, ..u }) by {
        reveal_strlit("invert_elevation");
        reveal_strlit("tag");
        assert("invert_elevation"@.len() != "tag"@.len());
    }
    assert forall|k: String, value: PyValue| k@ == "full_depth"@ && spec_lenient_number(value, "full_depth"@) is Ok implies #[trigger] spec_apply_node_change(u, Some(k), value) == Ok::<NodeUpdate, Refusal>(NodeUpdate { patch: NodePatch { full_depth: Some((spec_lenient_number(value, "full_depth"@)->Ok_0)), ..u.patch }, ..u }) by {
        reveal_strlit("full_depth");
        reveal_strlit("tag");
        assert("full_depth"@.len() != "tag"@.len());
        reveal_strlit("invert_elevation");
        assert("full_depth"@.len() != "invert_elevation"@.len());
    }
    assert forall|k: String, value: PyValue| k@ == "surcharge_depth"@ && spec_lenient_number(value, "surcharge_depth"@) is Ok implies #[trigger] spec_apply_node_change(u, Some(k), value) == Ok::<NodeUpdate, Refusal>(NodeUpdate { patch: NodePatch { surcharge_depth: Some((spec_lenient_number(value, "surcharge_depth"@)->Ok_0)), ..u.patch }, ..u }) by {
        reveal_strlit("surcharge_depth");
        reveal_strlit("tag");
        assert("surcharge_depth"@.len() != "tag"@.len());
        reveal_strlit("invert_elevation");
        assert("surcharge_depth"@.len() != "invert_elevation"@.len());
        reveal_strlit("full_depth");
        assert("surcharge_depth"@.len() != "full_depth"@.len());
    }
    assert forall|k: String, value: PyValue| k@ == "ponded_area"@ && spec_lenient_number(value, "ponded_area"@) is Ok implies #[trigger] spec_apply_node_change(u, Some(k), value) == Ok::<NodeUpdate, Refusal>(NodeUpdate { patch: NodePatch { ponded_area: Some((spec_lenient_number(value, "ponded_area"@)->Ok_0)), ..u.patch }, ..u }) by {
        reveal_strlit("ponded_area");
        reveal_strlit("tag");
        assert("ponded_area"@.len() != "tag"@.len());
        reveal_strlit("invert_elevation");
        assert("ponded_area"@.len() != "invert_elevation"@.len());
        reveal_strlit("full_depth");
        assert("ponded_area"@.len() != "full_depth"@.len());
        reveal_strlit("surcharge_depth");
        assert("ponded_area"@.len() != "surcharge_depth"@.len());
    }
    assert forall|k: String, value: PyValue| k@ == "initial_depth"@ && spec_lenient_number(value, "initial_depth"@) is Ok implies #[trigger] spec_apply_node_change(u, Some(k), value) == Ok::<NodeUpdate, Refusal>(NodeUpdate { patch: NodePatch { initial_depth: Some((spec_lenient_number(value, "initial_depth"@)->Ok_0)), ..u.patch }, ..u }) by {
        reveal_strlit("initial_depth");
        reveal_strlit("tag");
        assert("initial_depth"@.len() != "tag"@.len());
        reveal_strlit("invert_elevation");
        assert("initial_depth"@.len() != "invert_elevation"@.len());
        reveal_strlit("full_depth");
        assert("initial_depth"@.len() != "full_depth"@.len());
        reveal_strlit("surcharge_depth");
        assert("initial_depth"@.len() != "surcharge_depth"@.len());
        reveal_strlit("ponded_area");
        assert("initial_depth"@.len() != "ponded_area"@.len());
    }
    assert forall|k: String, value: PyValue| k@ == "included_in_report"@ && spec_strict_bool(value, "included_in_report"@) is Ok implies #[trigger] spec_apply_node_change(u, Some(k), value) == Ok::<NodeUpdate, Refusal>(NodeUpdate { patch: NodePatch { included_in_report: Some((spec_strict_bool(value, "included_in_report"@)->Ok_0)), ..u.patch }, ..u }) by {
        reveal_strlit("included_in_report");
        reveal_strlit("tag");
        assert("included_in_report"@.len() != "tag"@.len());
        reveal_strlit("invert_elevation");
        assert("included_in_report"@.len() != "invert_elevation"@.len());
        reveal_strlit("full_depth");
        assert("included_in_report"@.len() != "full_depth"@.len());
        reveal_strlit("surcharge_depth");
        assert("included_in_report"@.len() != "surcharge_depth"@.len());
        reveal_strlit("ponded_area");
        assert("included_in_report"@.len() != "ponded_area"@.len());
        reveal_strlit("initial_depth");
        assert("included_in_report"@.len() != "initial_depth"@.len());
    }
}

/// Extracts one storage exfiltration declaration.
pub fn extract_storage_exfiltration(value: PyValue) -> (result: Result<StorageExfiltration, NativeError>)
    ensures
        spec_refusal_outcome(result, spec_extract_storage_exfiltration(value), "update_node_settings"),
{
    let malformed = "exfiltration must be StorageExfiltration or None";
    match value {
        PyValue::Declaration { class, attributes } => {
            if class != PublicType::StorageExfiltration {
                return Err(node_py_error(String::from_str(malformed)));
            }
            let names: Vec<&'static str> = vec!["conductivity", "suction_head", "moisture_deficit"];
            proof {
                reveal_strlit("conductivity");
                reveal_strlit("suction_head");
                reveal_strlit("moisture_deficit");
                assert(names@[0]@ == "conductivity"@);
                assert(names@[1]@ == "suction_head"@);
                assert(names@[2]@ == "moisture_deficit"@);
                assert(names@[0]@[0] != names@[1]@[0]);
                assert(names@[0]@.len() != names@[2]@.len());
                assert(names@[1]@.len() != names@[2]@.len());
                assert(forall|i: int, j: int|
                    0 <= i < j < names@.len() ==> (#[trigger] names@[i])@ != (#[trigger] names@[j])@);
            }
            let mut slots = take_attributes(attributes, &names);
            let conductivity = match take_slot(&mut slots, 0) {
                None => {
                    return Err(node_py_error(String::from_str(malformed)));
                },
                Some(c) => match node_float(&c, "exfiltration.conductivity") {
                    Err(e) => {
                        return Err(e);
                    },
                    Ok(n) => n,
                },
            };
            let suction_head = match take_slot(&mut slots, 1) {
                None => {
                    return Err(node_py_error(String::from_str(malformed)));
                },
                Some(s) => match node_float(&s, "exfiltration.suction_head") {
                    Err(e) => {
                        return Err(e);
                    },
                    Ok(n) => n,
                },
            };
            let moisture_deficit = match take_slot(&mut slots, 2) {
                None => {
                    return Err(node_py_error(String::from_str(malformed)));
                },
                Some(m) => match node_float(&m, "exfiltration.moisture_deficit") {
                    Err(e) => {
                        return Err(e);
                    },
                    Ok(n) => n,
                },
            };
            if number_is_zero(suction_head) && number_is_zero(moisture_deficit) {
                Ok(StorageExfiltration::Seepage { conductivity })
            } else {
                Ok(StorageExfiltration::GreenAmpt { suction_head, conductivity, moisture_deficit })
            }
        },
        _ => Err(node_py_error(String::from_str(malformed))),
    }
}

/// One outfall boundary declaration.
pub open spec fn spec_extract_outfall_boundary(value: PyValue) -> Result<NativeOutfallBoundary, Refusal> {
    let malformed = "boundary must be OutfallBoundary"@;
    match value {
        PyValue::Declaration { class, attributes } => if class != PublicType::OutfallBoundary {
            spec_malformed(malformed)
        } else {
            let a = attributes@;
            match spec_attribute(a, "kind"@) {
                None => spec_malformed(malformed),
                Some(k) => match spec_text(k) {
                    None => spec_malformed(malformed),
                    Some(kind) => match spec_attribute(a, "stage"@) {
                        None => spec_malformed(malformed),
                        Some(s) => match spec_lenient_number(s, "boundary.stage"@) {
                            Err(d) => Err(Refusal::Detail(d)),
                            Ok(stage) => match spec_attribute(a, "reference"@) {
                                None => spec_malformed(malformed),
                                Some(reference) => {
                                    let k = kind@;
                                    if k == "free"@ || k == "normal"@ {
                                        if !spec_number_is_zero(stage) || !(reference is NoneValue) {
                                            spec_malformed("free and normal boundaries accept no stage or reference"@)
                                        } else if k == "free"@ {
                                            Ok(NativeOutfallBoundary::Free)
                                        } else {
                                            Ok(NativeOutfallBoundary::Normal)
                                        }
                                    } else if k == "fixed"@ {
                                        if !(reference is NoneValue) {
                                            spec_malformed("fixed boundary accepts no reference"@)
                                        } else {
                                            Ok(NativeOutfallBoundary::Fixed(stage))
                                        }
                                    } else if k == "tidal"@ || k == "timeseries"@ {
                                        if !spec_number_is_zero(stage) {
                                            spec_malformed("table-driven boundary accepts no fixed stage"@)
                                        } else {
                                            match spec_related(reference) {
                                                Err(e) => Err(Refusal::Raised(e)),
                                                Ok(None) => spec_malformed(malformed),
                                                Ok(Some(r)) => if k == "tidal"@ {
                                                    Ok(NativeOutfallBoundary::Tidal(r))
                                                } else {
                                                    Ok(NativeOutfallBoundary::TimeSeries(r))
                                                },
                                            }
                                        }
                                    } else {
                                        spec_malformed("unknown outfall boundary kind"@)
                                    }
                                },
                            },
                        },
                    },
                },
            }
        },
        _ => spec_malformed(malformed),
    }
}

/// An outfall boundary is the one that its declared `kind` names: a fixed boundary holds the
/// declared `stage`, a tidal or time series boundary the object that `reference` names, and free
/// and normal boundaries declare a zero stage and no reference.
pub proof fn lemma_outfall_boundary_follows_its_kind(class: PublicType, attributes: Vec<(String, PyValue)>)
    ensures
        spec_extract_outfall_boundary(PyValue::Declaration { class, attributes }) is Ok ==> {
            let x = spec_extract_outfall_boundary(PyValue::Declaration { class, attributes })->Ok_0;
            let a = attributes@;
            let kind = spec_text(spec_attribute(a, "kind"@)->0)->0@;
            let stage = spec_lenient_number(spec_attribute(a, "stage"@)->0, "boundary.stage"@);
            let reference = spec_attribute(a, "reference"@)->0;
            &&& class == PublicType::OutfallBoundary
            &&& spec_attribute(a, "kind"@) is Some
            &&& spec_text(spec_attribute(a, "kind"@)->0) is Some
            &&& spec_attribute(a, "stage"@) is Some
            &&& stage is Ok
            &&& spec_attribute(a, "reference"@) is Some
            &&& match x {
                NativeOutfallBoundary::Free => {
                    &&& kind == "free"@
                    &&& spec_number_is_zero(stage->Ok_0)
                    &&& reference is NoneValue
                },
                NativeOutfallBoundary::Normal => {
                    &&& kind == "normal"@
                    &&& spec_number_is_zero(stage->Ok_0)
                    &&& reference is NoneValue
                },
                NativeOutfallBoundary::Fixed(s) => {
                    &&& kind == "fixed"@
                    &&& s == stage->Ok_0
                    &&& reference is NoneValue
                },
                NativeOutfallBoundary::Tidal(r) => {
                    &&& kind == "tidal"@
                    &&& spec_number_is_zero(stage->Ok_0)
                    &&& spec_related(reference) == Ok::<Option<RelatedObject>, NativeError>(Some(r))
                },
                NativeOutfallBoundary::TimeSeries(r) => {
                    &&& kind == "timeseries"@
                    &&& spec_number_is_zero(stage->Ok_0)
                    &&& spec_related(reference) == Ok::<Option<RelatedObject>, NativeError>(Some(r))
                },
            }
        },
{
}

/// Extracts one mutually exclusive outfall boundary declaration.
pub fn extract_outfall_boundary(value: PyValue) -> (result: Result<NativeOutfallBoundary, NativeError>)
    ensures
        spec_refusal_outcome(result, spec_extract_outfall_boundary(value), "update_node_settings"),
{
    let malformed = "boundary must be OutfallBoundary";
    match value {
        PyValue::Declaration { class, attributes } => {
            if class != PublicType::OutfallBoundary {
                return Err(node_py_error(String::from_str(malformed)));
            }
            let names: Vec<&'static str> = vec!["kind", "stage", "reference"];
            proof {
                reveal_strlit("kind");
                reveal_strlit("stage");
                reveal_strlit("reference");
                assert(names@[0]@ == "kind"@);
                assert(names@[1]@ == "stage"@);
                assert(names@[2]@ == "reference"@);
                assert(names@[0]@.len() != names@[1]@.len());
                assert(names@[0]@.len() != names@[2]@.len());
                assert(names@[1]@.len() != names@[2]@.len());
                assert(forall|i: int, j: int|
                    0 <= i < j < names@.len() ==> (#[trigger] names@[i])@ != (#[trigger] names@[j])@);
            }
            let mut slots = take_attributes(attributes, &names);
            let kind = match take_slot(&mut slots, 0) {
                None => {
                    return Err(node_py_error(String::from_str(malformed)));
                },
                Some(k) => match text(k) {
                    None => {
                        return Err(node_py_error(String::from_str(malformed)));
                    },
                    Some(kind) => kind,
                },
            };
            let stage = match take_slot(&mut slots, 1) {
                None => {
                    return Err(node_py_error(String::from_str(malformed)));
                },
                Some(s) => match node_float(&s, "boundary.stage") {
                    Err(e) => {
                        return Err(e);
                    },
                    Ok(n) => n,
                },
            };
            let reference = match take_slot(&mut slots, 2) {
                None => {
                    return Err(node_py_error(String::from_str(malformed)));
                },
                Some(r) => r,
            };
            let k = kind.as_str();
            let no_reference = matches!(reference, PyValue::NoneValue);
            if str_eq(k, "free") || str_eq(k, "normal") {
                if !number_is_zero(stage) || !no_reference {
                    return Err(node_py_error(String::from_str("free and normal boundaries accept no stage or reference")));
                }
                if str_eq(k, "free") {
                    Ok(NativeOutfallBoundary::Free)
                } else {
                    Ok(NativeOutfallBoundary::Normal)
                }
            } else if str_eq(k, "fixed") {
                if !no_reference {
                    return Err(node_py_error(String::from_str("fixed boundary accepts no reference")));
                }
                Ok(NativeOutfallBoundary::Fixed(stage))
            } else if str_eq(k, "tidal") || str_eq(k, "timeseries") {
                if !number_is_zero(stage) {
                    return Err(node_py_error(String::from_str("table-driven boundary accepts no fixed stage")));
                }
                match related_live_view(reference) {
                    Err(e) => Err(e),
                    Ok(None) => Err(node_py_error(String::from_str(malformed))),
                    Ok(Some(r)) => if str_eq(k, "tidal") {
                        Ok(NativeOutfallBoundary::Tidal(r))
                    } else {
                        Ok(NativeOutfallBoundary::TimeSeries(r))
                    },
                }
            } else {
                Err(node_py_error(String::from_str("unknown outfall boundary kind")))
            }
        },
        _ => Err(node_py_error(String::from_str(malformed))),
    }
}

/// One divider rule declaration.
pub open spec fn spec_extract_divider_rule(value: PyValue) -> Result<NativeDividerRule, Refusal> {
    let malformed = "rule must be DividerRule"@;
    match value {
        PyValue::Declaration { class, attributes } => if class != PublicType::DividerRule {
            spec_malformed(malformed)
        } else {
            let a = attributes@;
            match spec_attribute(a, "kind"@) {
                None => spec_malformed(malformed),
                Some(k) => match spec_text(k) {
                    None => spec_malformed(malformed),
                    Some(kind) => match spec_attribute(a, "values"@) {
                        None => spec_malformed(malformed),
                        Some(v) => match spec_node_triple(v, "rule.values"@) {
                            Err(d) => Err(Refusal::Detail(d)),
                            Ok(values) => match spec_attribute(a, "curve"@) {
                                None => spec_malformed(malformed),
                                Some(curve) => {
                                    let k = kind@;
                                    if k == "overflow"@ {
                                        if !spec_triple_is_zero(values) || !(curve is NoneValue) {
                                            spec_malformed("overflow rule accepts no values or curve"@)
                                        } else {
                                            Ok(NativeDividerRule::Overflow)
                                        }
                                    } else if k == "cutoff"@ {
                                        if !spec_number_is_zero(values.1) || !spec_number_is_zero(values.2)
                                            || !(curve is NoneValue) {
                                            spec_malformed("cutoff rule accepts only minimum flow"@)
                                        } else {
                                            Ok(NativeDividerRule::Cutoff(values.0))
                                        }
                                    } else if k == "tabular"@ {
                                        if !spec_triple_is_zero(values) {
                                            spec_malformed("tabular rule accepts only a curve"@)
                                        } else {
                                            match spec_related(curve) {
                                                Err(e) => Err(Refusal::Raised(e)),
                                                Ok(None) => spec_malformed(malformed),
                                                Ok(Some(r)) => Ok(NativeDividerRule::Tabular(r)),
                                            }
                                        }
                                    } else if k == "weir"@ {
                                        if !(curve is NoneValue) {
                                            spec_malformed("weir rule accepts no curve"@)
                                        } else {
                                            Ok(NativeDividerRule::Weir(values.0, values.1, values.2))
                                        }
                                    } else {
                                        spec_malformed("unknown divider rule kind"@)
                                    }
                                },
                            },
                        },
                    },
                },
            }
        },
        _ => spec_malformed(malformed),
    }
}

/// A divider rule is the one that its declared `kind` names: a cutoff rule holds the first of the
/// declared `values` and declares the other two zero, a weir rule holds the three `values` in
/// their order, a tabular rule the object that `curve` names, and an overflow rule declares zero
/// values and no curve.
pub proof fn lemma_divider_rule_follows_its_kind(class: PublicType, attributes: Vec<(String, PyValue)>)
    ensures
        spec_extract_divider_rule(PyValue::Declaration { class, attributes }) is Ok ==> {
            let x = spec_extract_divider_rule(PyValue::Declaration { class, attributes })->Ok_0;
            let a = attributes@;
            let kind = spec_text(spec_attribute(a, "kind"@)->0)->0@;
            let values = spec_node_triple(spec_attribute(a, "values"@)->0, "rule.values"@);
            let curve = spec_attribute(a, "curve"@)->0;
            &&& class == PublicType::DividerRule
            &&& spec_attribute(a, "kind"@) is Some
            &&& spec_text(spec_attribute(a, "kind"@)->0) is Some
            &&& spec_attribute(a, "values"@) is Some
            &&& values is Ok
            &&& spec_attribute(a, "curve"@) is Some
            &&& match x {
                NativeDividerRule::Overflow => {
                    &&& kind == "overflow"@
                    &&& spec_triple_is_zero(values->Ok_0)
                    &&& curve is NoneValue
                },
                NativeDividerRule::Cutoff(minimum) => {
                    &&& kind == "cutoff"@
                    &&& minimum == values->Ok_0.0
                    &&& spec_number_is_zero(values->Ok_0.1)
                    &&& spec_number_is_zero(values->Ok_0.2)
                    &&& curve is NoneValue
                },
                NativeDividerRule::Tabular(r) => {
                    &&& kind == "tabular"@
                    &&& spec_triple_is_zero(values->Ok_0)
                    &&& spec_related(curve) == Ok::<Option<RelatedObject>, NativeError>(Some(r))
                },
                NativeDividerRule::Weir(first, second, third) => {
                    &&& kind == "weir"@
                    &&& first == values->Ok_0.0
                    &&& second == values->Ok_0.1
                    &&& third == values->Ok_0.2
                    &&& curve is NoneValue
                },
            }
        },
{
}

/// Extracts one mutually exclusive divider rule declaration.
pub fn extract_divider_rule(value: PyValue) -> (result: Result<NativeDividerRule, NativeError>)
    ensures
        spec_refusal_outcome(result, spec_extract_divider_rule(value), "update_node_settings"),
{
    let malformed = "rule must be DividerRule";
    match value {
        PyValue::Declaration { class, attributes } => {
            if class != PublicType::DividerRule {
                return Err(node_py_error(String::from_str(malformed)));
            }
            let names: Vec<&'static str> = vec!["kind", "values", "curve"];
            proof {
                reveal_strlit("kind");
                reveal_strlit("values");
                reveal_strlit("curve");
                assert(names@[0]@ == "kind"@);
                assert(names@[1]@ == "values"@);
                assert(names@[2]@ == "curve"@);
                assert(names@[0]@.len() != names@[1]@.len());
                assert(names@[0]@.len() != names@[2]@.len());
                assert(names@[1]@.len() != names@[2]@.len());
                assert(forall|i: int, j: int|
                    0 <= i < j < names@.len() ==> (#[trigger] names@[i])@ != (#[trigger] names@[j])@);
            }
            let mut slots = take_attributes(attributes, &names);
            let kind = match take_slot(&mut slots, 0) {
                None => {
                    return Err(node_py_error(String::from_str(malformed)));
                },
                Some(k) => match text(k) {
                    None => {
                        return Err(node_py_error(String::from_str(malformed)));
                    },
                    Some(kind) => kind,
                },
            };
            let values = match take_slot(&mut slots, 1) {
                None => {
                    return Err(node_py_error(String::from_str(malformed)));
                },
                Some(v) => match node_triple(&v, "rule.values") {
                    Err(e) => {
                        return Err(e);
                    },
                    Ok(t) => t,
                },
            };
            let curve = match take_slot(&mut slots, 2) {
                None => {
                    return Err(node_py_error(String::from_str(malformed)));
                },
                Some(c) => c,
            };
            let k = kind.as_str();
            let no_curve = matches!(curve, PyValue::NoneValue);
            if str_eq(k, "overflow") {
                if !triple_is_zero(values) || !no_curve {
                    return Err(node_py_error(String::from_str("overflow rule accepts no values or curve")));
                }
                Ok(NativeDividerRule::Overflow)
            } else if str_eq(k, "cutoff") {
                if !number_is_zero(values.1) || !number_is_zero(values.2) || !no_curve {
                    return Err(node_py_error(String::from_str("cutoff rule accepts only minimum flow")));
                }
                Ok(NativeDividerRule::Cutoff(values.0))
            } else if str_eq(k, "tabular") {
                if !triple_is_zero(values) {
                    return Err(node_py_error(String::from_str("tabular rule accepts only a curve")));
                }
                match related_live_view(curve) {
                    Err(e) => Err(e),
                    Ok(None) => Err(node_py_error(String::from_str(malformed))),
                    Ok(Some(r)) => Ok(NativeDividerRule::Tabular(r)),
                }
            } else if str_eq(k, "weir") {
                if !no_curve {
                    return Err(node_py_error(String::from_str("weir rule accepts no curve")));
                }
                Ok(NativeDividerRule::Weir(values.0, values.1, values.2))
            } else {
                Err(node_py_error(String::from_str("unknown divider rule kind")))
            }
        },
        _ => Err(node_py_error(String::from_str(malformed))),
    }
}


/// A sparse storage update whose shape curve is not resolved yet.
#[derive(Debug)]
pub struct NativeStorageUpdate {
    pub shape: Option<NativeStorageShape>,
    pub evaporation_fraction: Option<Number>,
    pub exfiltration: Option<Option<StorageExfiltration>>,
}

/// A sparse outfall update whose related objects are not resolved yet.
#[derive(Debug)]
pub struct NativeOutfallUpdate {
    pub boundary: Option<NativeOutfallBoundary>,
    pub has_flap_gate: Option<bool>,
    pub route_to_subcatchment: Option<Option<RelatedObject>>,
}

/// A sparse divider update whose related objects are not resolved yet.
#[derive(Debug)]
pub struct NativeDividerUpdate {
    pub rule: Option<NativeDividerRule>,
    pub diverted_link: Option<Option<RelatedObject>>,
}

/// A resolved storage shape.
#[derive(Clone, Copy, Debug)]
pub enum CanonicalStorageShape {
    Tabular { curve_index: usize },
    Coefficients { kind: StorageType, coefficients: Triple },
}

/// A resolved sparse storage update.
#[derive(Clone, Copy, Debug)]
pub struct StorageUpdate {
    pub shape: Option<CanonicalStorageShape>,
    pub evaporation_fraction: Option<Number>,
    pub exfiltration: Option<Option<StorageExfiltration>>,
}

/// A resolved outfall boundary.
#[derive(Clone, Copy, Debug)]
pub enum OutfallBoundary {
    Free,
    Normal,
    Fixed { stage: Number },
    Tidal { curve_index: usize },
    TimeSeries { series_index: usize },
}

/// A resolved sparse outfall update.
#[derive(Clone, Copy, Debug)]
pub struct OutfallUpdate {
    pub boundary: Option<OutfallBoundary>,
    pub has_flap_gate: Option<bool>,
    pub route_to_subcatchment: Option<Option<usize>>,
}

/// A resolved divider rule.
#[derive(Clone, Copy, Debug)]
pub enum DividerMode {
    Overflow,
    Cutoff { minimum_flow: Number },
    Tabular { curve_index: usize },
    Weir { minimum_flow: Number, maximum_head: Number, discharge_coefficient: Number },
}

/// A resolved sparse divider update.
#[derive(Clone, Copy, Debug)]
pub struct DividerUpdate {
    pub mode: Option<DividerMode>,
    pub diverted_link_index: Option<Option<usize>>,
}

/// The resolved settings of one concrete node subtype.
#[derive(Clone, Copy, Debug)]
pub enum NodeSubtypePatch {
    StorageUpdate(StorageUpdate),
    OutfallUpdate(OutfallUpdate),
    DividerUpdate(DividerUpdate),
}

/// A sparse, resolved node settings patch.
#[derive(Debug)]
pub struct NodePatch {
    pub tag: Option<String>,
    pub invert_elevation: Option<Number>,
    pub full_depth: Option<Number>,
    pub surcharge_depth: Option<Number>,
    pub ponded_area: Option<Number>,
    pub initial_depth: Option<Number>,
    pub included_in_report: Option<bool>,
    pub subtype: Option<NodeSubtypePatch>,
}

/// Every supplied node setting, with its related objects not resolved yet.
#[derive(Debug)]
pub struct NodeUpdate {
    pub patch: NodePatch,
    pub storage: Option<NativeStorageUpdate>,
    pub outfall: Option<NativeOutfallUpdate>,
    pub divider: Option<NativeDividerUpdate>,
}

/// The empty node update.
pub open spec fn spec_empty_node_update() -> NodeUpdate {
    NodeUpdate {
        patch: NodePatch {
            tag: None,
            invert_elevation: None,
            full_depth: None,
            surcharge_depth: None,
            ponded_area: None,
            initial_depth: None,
            included_in_report: None,
            subtype: None,
        },
        storage: None,
        outfall: None,
        divider: None,
    }
}

/// The storage update so far, or an empty one.
pub open spec fn spec_storage_or_default(storage: Option<NativeStorageUpdate>) -> NativeStorageUpdate {
    match storage {
        Some(s) => s,
        None => NativeStorageUpdate { shape: None, evaporation_fraction: None, exfiltration: None },
    }
}

/// The outfall update so far, or an empty one.
pub open spec fn spec_outfall_or_default(outfall: Option<NativeOutfallUpdate>) -> NativeOutfallUpdate {
    match outfall {
        Some(o) => o,
        None => NativeOutfallUpdate { boundary: None, has_flap_gate: None, route_to_subcatchment: None },
    }
}

/// The divider update so far, or an empty one.
pub open spec fn spec_divider_or_default(divider: Option<NativeDividerUpdate>) -> NativeDividerUpdate {
    match divider {
        Some(d) => d,
        None => NativeDividerUpdate { rule: None, diverted_link: None },
    }
}

/// True when an update already holds settings of a concrete subtype other than `requested`.
pub open spec fn spec_other_subtypes(u: NodeUpdate, requested: Seq<char>) -> bool {
    if requested == "storage"@ {
        u.outfall is Some || u.divider is Some
    } else if requested == "outfall"@ {
        u.storage is Some || u.divider is Some
    } else if requested == "divider"@ {
        u.storage is Some || u.outfall is Some
    } else {
        true
    }
}

/// Rejects one update containing fields from multiple concrete node subtypes.
pub fn reject_other_subtypes(update: &NodeUpdate, requested: &str) -> (result: Result<(), NativeError>)
    ensures
        spec_other_subtypes(*update, requested@) ==> result is Err && spec_refusal_outcome(
            result,
            Err::<(), Refusal>(
                Refusal::Detail("node update accepts fields for only one concrete subtype"@),
            ),
            "update_node_settings",
        ),
        !spec_other_subtypes(*update, requested@) ==> result is Ok,
{
    let conflict = if str_eq(requested, "storage") {
        update.outfall.is_some() || update.divider.is_some()
    } else if str_eq(requested, "outfall") {
        update.storage.is_some() || update.divider.is_some()
    } else if str_eq(requested, "divider") {
        update.storage.is_some() || update.outfall.is_some()
    } else {
        true
    };
    if conflict {
        Err(node_py_error(String::from_str("node update accepts fields for only one concrete subtype")))
    } else {
        Ok(())
    }
}

/// `update` with one supplied `(key, value)` node setting applied.
pub open spec fn spec_apply_node_change(u: NodeUpdate, key: Option<String>, value: PyValue) -> Result<
    NodeUpdate,
    Refusal,
> {
    match key {
        None => Err(Refusal::Detail("node update fields must be strings"@)),
        Some(k) => {
            let name = k@;
            if name == "tag"@ {
                match spec_text(value) {
                    None => Err(Refusal::Detail("tag must be str"@)),
                    Some(v) => Ok(NodeUpdate { patch: NodePatch { tag: Some(v), ..u.patch }, ..u }),
                }
            } else if name == "invert_elevation"@ {
                match spec_lenient_number(value, "invert_elevation"@) {
                    Err(d) => Err(Refusal::Detail(d)),
                    Ok(v) => Ok(NodeUpdate { patch: NodePatch { invert_elevation: Some(v), ..u.patch }, ..u }),
                }
            } else if name == "full_depth"@ {
                match spec_lenient_number(value, "full_depth"@) {
                    Err(d) => Err(Refusal::Detail(d)),
                    Ok(v) => Ok(NodeUpdate { patch: NodePatch { full_depth: Some(v), ..u.patch }, ..u }),
                }
            } else if name == "surcharge_depth"@ {
                match spec_lenient_number(value, "surcharge_depth"@) {
                    Err(d) => Err(Refusal::Detail(d)),
                    Ok(v) => Ok(NodeUpdate { patch: NodePatch { surcharge_depth: Some(v), ..u.patch }, ..u }),
                }
            } else if name == "ponded_area"@ {
                match spec_lenient_number(value, "ponded_area"@) {
                    Err(d) => Err(Refusal::Detail(d)),
                    Ok(v) => Ok(NodeUpdate { patch: NodePatch { ponded_area: Some(v), ..u.patch }, ..u }),
                }
            } else if name == "initial_depth"@ {
                match spec_lenient_number(value, "initial_depth"@) {
                    Err(d) => Err(Refusal::Detail(d)),
                    Ok(v) => Ok(NodeUpdate { patch: NodePatch { initial_depth: Some(v), ..u.patch }, ..u }),
                }
            } else if name == "included_in_report"@ {
                match spec_strict_bool(value, "included_in_report"@) {
                    Err(d) => Err(Refusal::Detail(d)),
                    Ok(v) => Ok(NodeUpdate { patch: NodePatch { included_in_report: Some(v), ..u.patch }, ..u }),
                }
            } else if name == "shape"@ {
                if spec_other_subtypes(u, "storage"@) {
                    Err(Refusal::Detail("node update accepts fields for only one concrete subtype"@))
                } else {
                    match spec_extract_storage_shape(value) {
                    Err(r) => Err(r),
                    Ok(v) => Ok(NodeUpdate { storage: Some(NativeStorageUpdate { shape: Some(v), ..spec_storage_or_default(u.storage) }), ..u }),
                }
                }
            } else if name == "evaporation_fraction"@ {
                if spec_other_subtypes(u, "storage"@) {
                    Err(Refusal::Detail("node update accepts fields for only one concrete subtype"@))
                } else {
                    match spec_lenient_number(value, "evaporation_fraction"@) {
                    Err(d) => Err(Refusal::Detail(d)),
                    Ok(v) => Ok(NodeUpdate { storage: Some(NativeStorageUpdate { evaporation_fraction: Some(v), ..spec_storage_or_default(u.storage) }), ..u }),
                }
                }
            } else if name == "exfiltration"@ {
                if spec_other_subtypes(u, "storage"@) {
                    Err(Refusal::Detail("node update accepts fields for only one concrete subtype"@))
                } else {
                    match spec_exfiltration_setting(value) {
                    Err(r) => Err(r),
                    Ok(v) => Ok(NodeUpdate { storage: Some(NativeStorageUpdate { exfiltration: Some(v), ..spec_storage_or_default(u.storage) }), ..u }),
                }
                }
            } else if name == "boundary"@ {
                if spec_other_subtypes(u, "outfall"@) {
                    Err(Refusal::Detail("node update accepts fields for only one concrete subtype"@))
                } else {
                    match spec_extract_outfall_boundary(value) {
                    Err(r) => Err(r),
                    Ok(v) => Ok(NodeUpdate { outfall: Some(NativeOutfallUpdate { boundary: Some(v), ..spec_outfall_or_default(u.outfall) }), ..u }),
                }
                }
            } else if name == "has_flap_gate"@ {
                if spec_other_subtypes(u, "outfall"@) {
                    Err(Refusal::Detail("node update accepts fields for only one concrete subtype"@))
                } else {
                    match spec_strict_bool(value, "has_flap_gate"@) {
                    Err(d) => Err(Refusal::Detail(d)),
                    Ok(v) => Ok(NodeUpdate { outfall: Some(NativeOutfallUpdate { has_flap_gate: Some(v), ..spec_outfall_or_default(u.outfall) }), ..u }),
                }
                }
            } else if name == "route_to_subcatchment"@ {
                if spec_other_subtypes(u, "outfall"@) {
                    Err(Refusal::Detail("node update accepts fields for only one concrete subtype"@))
                } else {
                    match spec_related(value) {
                    Err(e) => Err(Refusal::Raised(e)),
                    Ok(v) => Ok(NodeUpdate { outfall: Some(NativeOutfallUpdate { route_to_subcatchment: Some(v), ..spec_outfall_or_default(u.outfall) }), ..u }),
                }
                }
            } else if name == "rule"@ {
                if spec_other_subtypes(u, "divider"@) {
                    Err(Refusal::Detail("node update accepts fields for only one concrete subtype"@))
                } else {
                    match spec_extract_divider_rule(value) {
                    Err(r) => Err(r),
                    Ok(v) => Ok(NodeUpdate { divider: Some(NativeDividerUpdate { rule: Some(v), ..spec_divider_or_default(u.divider) }), ..u }),
                }
                }
            } else if name == "diverted_link"@ {
                if spec_other_subtypes(u, "divider"@) {
                    Err(Refusal::Detail("node update accepts fields for only one concrete subtype"@))
                } else {
                    match spec_related(value) {
                    Err(e) => Err(Refusal::Raised(e)),
                    Ok(v) => Ok(NodeUpdate { divider: Some(NativeDividerUpdate { diverted_link: Some(v), ..spec_divider_or_default(u.divider) }), ..u }),
                }
                }
            } else {
                Err(Refusal::Detail("unknown node field: "@ + name))
            }
        },
    }
}

/// The exfiltration setting of a supplied value: `None` clears it.
pub open spec fn spec_exfiltration_setting(value: PyValue) -> Result<Option<StorageExfiltration>, Refusal> {
    if value is NoneValue {
        Ok(None)
    } else {
        match spec_extract_storage_exfiltration(value) {
            Ok(x) => Ok(Some(x)),
            Err(r) => Err(r),
        }
    }
}

/// The update built from the first `n` supplied node settings.
pub open spec fn spec_node_update(changes: Seq<(Option<String>, PyValue)>, n: int) -> Result<NodeUpdate, Refusal>
    decreases n,
{
    if n <= 0 {
        Ok(spec_empty_node_update())
    } else {
        match spec_node_update(changes, n - 1) {
            Err(r) => Err(r),
            Ok(u) => spec_apply_node_change(u, changes[n - 1].0, changes[n - 1].1),
        }
    }
}

/// Once a node setting is refused, every longer prefix is refused the same way.
pub proof fn lemma_node_update_refusal(changes: Seq<(Option<String>, PyValue)>, i: int, n: int)
    requires
        0 <= i <= n,
        spec_node_update(changes, i) is Err,
    ensures
        spec_node_update(changes, n) == spec_node_update(changes, i),
    decreases n - i,
{
    if n > i {
        lemma_node_update_refusal(changes, i, n - 1);
    }
}

/// Returns the storage update so far, or an empty one.
fn storage_or_default(storage: Option<NativeStorageUpdate>) -> (s: NativeStorageUpdate)
    ensures
        s == spec_storage_or_default(storage),
{
    match storage {
        Some(s) => s,
        None => NativeStorageUpdate { shape: None, evaporation_fraction: None, exfiltration: None },
    }
}

/// Returns the outfall update so far, or an empty one.
fn outfall_or_default(outfall: Option<NativeOutfallUpdate>) -> (o: NativeOutfallUpdate)
    ensures
        o == spec_outfall_or_default(outfall),
{
    match outfall {
        Some(o) => o,
        None => NativeOutfallUpdate { boundary: None, has_flap_gate: None, route_to_subcatchment: None },
    }
}

/// Returns the divider update so far, or an empty one.
fn divider_or_default(divider: Option<NativeDividerUpdate>) -> (d: NativeDividerUpdate)
    ensures
        d == spec_divider_or_default(divider),
{
    match divider {
        Some(d) => d,
        None => NativeDividerUpdate { rule: None, diverted_link: None },
    }
}

/// Applies one supplied `(key, value)` node setting to `update`.
fn apply_node_change(update: NodeUpdate, key: Option<String>, value: PyValue) -> (result: Result<
    NodeUpdate,
    NativeError,
>)
    ensures
        spec_refusal_outcome(result, spec_apply_node_change(update, key, value), "update_node_settings"),
{
    let name = match key {
        Some(k) => k,
        None => {
            return Err(node_py_error(String::from_str("node update fields must be strings")));
        },
    };
    let n = name.as_str();
    let mut u = update;
    if str_eq(n, "tag") {
        let v = match text(value) {
            Some(t) => t,
            None => {
                return Err(node_py_error(String::from_str("tag must be str")));
            },
        };
        u.patch.tag = Some(v);
        return Ok(u);
    }
    if str_eq(n, "invert_elevation") {
        let v = match node_float(&value, n) {
            Err(e) => {
                return Err(e);
            },
            Ok(v) => v,
        };
        u.patch.invert_elevation = Some(v);
        return Ok(u);
    }
    if str_eq(n, "full_depth") {
        let v = match node_float(&value, n) {
            Err(e) => {
                return Err(e);
            },
            Ok(v) => v,
        };
        u.patch.full_depth = Some(v);
        return Ok(u);
    }
    if str_eq(n, "surcharge_depth") {
        let v = match node_float(&value, n) {
            Err(e) => {
                return Err(e);
            },
            Ok(v) => v,
        };
        u.patch.surcharge_depth = Some(v);
        return Ok(u);
    }
    if str_eq(n, "ponded_area") {
        let v = match node_float(&value, n) {
            Err(e) => {
                return Err(e);
            },
            Ok(v) => v,
        };
        u.patch.ponded_area = Some(v);
        return Ok(u);
    }
    if str_eq(n, "initial_depth") {
        let v = match node_float(&value, n) {
            Err(e) => {
                return Err(e);
            },
            Ok(v) => v,
        };
        u.patch.initial_depth = Some(v);
        return Ok(u);
    }
    if str_eq(n, "included_in_report") {
        let v = match node_bool(&value, n) {
            Err(e) => {
                return Err(e);
            },
            Ok(v) => v,
        };
        u.patch.included_in_report = Some(v);
        return Ok(u);
    }
    if str_eq(n, "shape") {
        match reject_other_subtypes(&u, "storage") {
            Err(e) => {
                return Err(e);
            },
            Ok(()) => {},
        }
        let v = match extract_storage_shape(value) {
            Err(e) => {
                return Err(e);
            },
            Ok(v) => v,
        };
        let mut c = storage_or_default(u.storage);
        c.shape = Some(v);
        u.storage = Some(c);
        return Ok(u);
    }
    if str_eq(n, "evaporation_fraction") {
        match reject_other_subtypes(&u, "storage") {
            Err(e) => {
                return Err(e);
            },
            Ok(()) => {},
        }
        let v = match node_float(&value, n) {
            Err(e) => {
                return Err(e);
            },
            Ok(v) => v,
        };
        let mut c = storage_or_default(u.storage);
        c.evaporation_fraction = Some(v);
        u.storage = Some(c);
        return Ok(u);
    }
    if str_eq(n, "exfiltration") {
        match reject_other_subtypes(&u, "storage") {
            Err(e) => {
                return Err(e);
            },
            Ok(()) => {},
        }
        let v = if matches!(value, PyValue::NoneValue) {
            None
        } else {
            match extract_storage_exfiltration(value) {
                Err(e) => {
                    return Err(e);
                },
                Ok(x) => Some(x),
            }
        };
        let mut c = storage_or_default(u.storage);
        c.exfiltration = Some(v);
        u.storage = Some(c);
        return Ok(u);
    }
    if str_eq(n, "boundary") {
        match reject_other_subtypes(&u, "outfall") {
            Err(e) => {
                return Err(e);
            },
            Ok(()) => {},
        }
        let v = match extract_outfall_boundary(value) {
            Err(e) => {
                return Err(e);
            },
            Ok(v) => v,
        };
        let mut c = outfall_or_default(u.outfall);
        c.boundary = Some(v);
        u.outfall = Some(c);
        return Ok(u);
    }
    if str_eq(n, "has_flap_gate") {
        match reject_other_subtypes(&u, "outfall") {
            Err(e) => {
                return Err(e);
            },
            Ok(()) => {},
        }
        let v = match node_bool(&value, n) {
            Err(e) => {
                return Err(e);
            },
            Ok(v) => v,
        };
        let mut c = outfall_or_default(u.outfall);
        c.has_flap_gate = Some(v);
        u.outfall = Some(c);
        return Ok(u);
    }
    if str_eq(n, "route_to_subcatchment") {
        match reject_other_subtypes(&u, "outfall") {
            Err(e) => {
                return Err(e);
            },
            Ok(()) => {},
        }
        let v = match related_live_view(value) {
            Err(e) => {
                return Err(e);
            },
            Ok(r) => r,
        };
        let mut c = outfall_or_default(u.outfall);
        c.route_to_subcatchment = Some(v);
        u.outfall = Some(c);
        return Ok(u);
    }
    if str_eq(n, "rule") {
        match reject_other_subtypes(&u, "divider") {
            Err(e) => {
                return Err(e);
            },
            Ok(()) => {},
        }
        let v = match extract_divider_rule(value) {
            Err(e) => {
                return Err(e);
            },
            Ok(v) => v,
        };
        let mut c = divider_or_default(u.divider);
        c.rule = Some(v);
        u.divider = Some(c);
        return Ok(u);
    }
    if str_eq(n, "diverted_link") {
        match reject_other_subtypes(&u, "divider") {
            Err(e) => {
                return Err(e);
            },
            Ok(()) => {},
        }
        let v = match related_live_view(value) {
            Err(e) => {
                return Err(e);
            },
            Ok(r) => r,
        };
        let mut c = divider_or_default(u.divider);
        c.diverted_link = Some(v);
        u.divider = Some(c);
        return Ok(u);
    }
    Err(node_py_error(detail("unknown node field: ", n)))
}

/// Creates the empty node update.
fn empty_node_update() -> (update: NodeUpdate)
    ensures
        update == spec_empty_node_update(),
{
    NodeUpdate {
        patch: NodePatch {
            tag: None,
            invert_elevation: None,
            full_depth: None,
            surcharge_depth: None,
            ponded_area: None,
            initial_depth: None,
            included_in_report: None,
            subtype: None,
        },
        storage: None,
        outfall: None,
        divider: None,
    }
}

/// Extracts all supplied node update fields without touching solver state.
///
/// `changes` are the supplied `(key, value)` pairs in mapping order, a key that is not a `str`
/// given as `None`.
pub fn extract_node_update(changes: Vec<(Option<String>, PyValue)>) -> (result: Result<NodeUpdate, NativeError>)
    ensures
        spec_refusal_outcome(
            result,
            spec_node_update(changes@, changes@.len() as int),
            "update_node_settings",
        ),
{
    let count: usize = changes.len();
    let ghost all = changes@;
    let mut remaining = changes;
    let mut update = empty_node_update();
    let mut taken: usize = 0;
    proof {
        assert(remaining@ =~= all.skip(0));
    }
    while taken < count
        invariant
            count == all.len(),
            all == changes@,
            taken <= count,
            remaining@ == all.skip(taken as int),
            spec_node_update(all, taken as int) == Ok::<NodeUpdate, Refusal>(update),
        decreases count - taken,
    {
        let (key, value) = remaining.remove(0);
        proof {
            assert(remaining@ =~= all.skip(taken + 1));
            assert(all[taken as int] == (key, value));
        }
        let ghost before = update;
        match apply_node_change(update, key, value) {
            Ok(next) => {
                update = next;
            },
            Err(e) => {
                proof {
                    assert(spec_node_update(all, taken + 1) == spec_apply_node_change(
                        before,
                        all[taken as int].0,
                        all[taken as int].1,
                    ));
                    lemma_node_update_refusal(all, taken + 1, count as int);
                }
                return Err(e);
            },
        }
        taken = taken + 1;
    }
    Ok(update)
}

/// `out` is what resolving an optional storage shape gives: a tabular shape's curve is validated.
pub open spec fn spec_resolved_storage_shape<
    F: Fn(&RelatedObject, ObjectType, &'static str) -> Result<usize, SwmmError>,
>(validate: F, shape: Option<NativeStorageShape>, out: Result<Option<CanonicalStorageShape>, SwmmError>) -> bool {
    match shape {
        None => out == Ok::<Option<CanonicalStorageShape>, SwmmError>(None),
        Some(NativeStorageShape::Coefficients(kind, coefficients)) => out == Ok::<
            Option<CanonicalStorageShape>,
            SwmmError,
        >(Some(CanonicalStorageShape::Coefficients { kind, coefficients })),
        Some(NativeStorageShape::Tabular(r)) => exists|o: Result<usize, SwmmError>|
            {
                &&& call_ensures(validate, (&r, ObjectType::Curve, "shape.curve"), o)
                &&& match o {
                    Ok(i) => out == Ok::<Option<CanonicalStorageShape>, SwmmError>(
                        Some(CanonicalStorageShape::Tabular { curve_index: i }),
                    ),
                    Err(e) => out == Err::<Option<CanonicalStorageShape>, SwmmError>(e),
                }
            },
    }
}

/// `out` is what resolving an optional outfall boundary gives: a tidal boundary's curve and a
/// time-series boundary's series are validated.
pub open spec fn spec_resolved_boundary<
    F: Fn(&RelatedObject, ObjectType, &'static str) -> Result<usize, SwmmError>,
>(validate: F, boundary: Option<NativeOutfallBoundary>, out: Result<Option<OutfallBoundary>, SwmmError>) -> bool {
    match boundary {
        None => out == Ok::<Option<OutfallBoundary>, SwmmError>(None),
        Some(NativeOutfallBoundary::Free) => out == Ok::<Option<OutfallBoundary>, SwmmError>(
            Some(OutfallBoundary::Free),
        ),
        Some(NativeOutfallBoundary::Normal) => out == Ok::<Option<OutfallBoundary>, SwmmError>(
            Some(OutfallBoundary::Normal),
        ),
        Some(NativeOutfallBoundary::Fixed(stage)) => out == Ok::<Option<OutfallBoundary>, SwmmError>(
            Some(OutfallBoundary::Fixed { stage }),
        ),
        Some(NativeOutfallBoundary::Tidal(r)) => exists|o: Result<usize, SwmmError>|
            {
                &&& call_ensures(validate, (&r, ObjectType::Curve, "boundary.reference"), o)
                &&& match o {
                    Ok(i) => out == Ok::<Option<OutfallBoundary>, SwmmError>(
                        Some(OutfallBoundary::Tidal { curve_index: i }),
                    ),
                    Err(e) => out == Err::<Option<OutfallBoundary>, SwmmError>(e),
                }
            },
        Some(NativeOutfallBoundary::TimeSeries(r)) => exists|o: Result<usize, SwmmError>|
            {
                &&& call_ensures(validate, (&r, ObjectType::Tseries, "boundary.reference"), o)
                &&& match o {
                    Ok(i) => out == Ok::<Option<OutfallBoundary>, SwmmError>(
                        Some(OutfallBoundary::TimeSeries { series_index: i }),
                    ),
                    Err(e) => out == Err::<Option<OutfallBoundary>, SwmmError>(e),
                }
            },
    }
}

/// `out` is what resolving an optional divider rule gives: a tabular rule's curve is validated.
pub open spec fn spec_resolved_rule<
    F: Fn(&RelatedObject, ObjectType, &'static str) -> Result<usize, SwmmError>,
>(validate: F, rule: Option<NativeDividerRule>, out: Result<Option<DividerMode>, SwmmError>) -> bool {
    match rule {
        None => out == Ok::<Option<DividerMode>, SwmmError>(None),
        Some(NativeDividerRule::Overflow) => out == Ok::<Option<DividerMode>, SwmmError>(
            Some(DividerMode::Overflow),
        ),
        Some(NativeDividerRule::Cutoff(minimum_flow)) => out == Ok::<Option<DividerMode>, SwmmError>(
            Some(DividerMode::Cutoff { minimum_flow }),
        ),
        Some(NativeDividerRule::Weir(minimum_flow, maximum_head, discharge_coefficient)) => out
            == Ok::<Option<DividerMode>, SwmmError>(
            Some(DividerMode::Weir { minimum_flow, maximum_head, discharge_coefficient }),
        ),
        Some(NativeDividerRule::Tabular(r)) => exists|o: Result<usize, SwmmError>|
            {
                &&& call_ensures(validate, (&r, ObjectType::Curve, "rule.curve"), o)
                &&& match o {
                    Ok(i) => out == Ok::<Option<DividerMode>, SwmmError>(
                        Some(DividerMode::Tabular { curve_index: i }),
                    ),
                    Err(e) => out == Err::<Option<DividerMode>, SwmmError>(e),
                }
            },
    }
}

/// `out` is the resolved subtype settings of a node update: storage, else outfall, else divider.
pub open spec fn spec_resolved_node_subtype<
    F: Fn(&RelatedObject, ObjectType, &'static str) -> Result<usize, SwmmError>,
>(validate: F, u: NodeUpdate, out: Result<Option<NodeSubtypePatch>, SwmmError>) -> bool {
    if u.storage is Some {
        let s = u.storage->0;
        exists|shape: Result<Option<CanonicalStorageShape>, SwmmError>|
            {
                &&& spec_resolved_storage_shape(validate, s.shape, shape)
                &&& match shape {
                    Err(e) => out == Err::<Option<NodeSubtypePatch>, SwmmError>(e),
                    Ok(sh) => out == Ok::<Option<NodeSubtypePatch>, SwmmError>(
                        Some(
                            NodeSubtypePatch::StorageUpdate(
                                StorageUpdate {
                                    shape: sh,
                                    evaporation_fraction: s.evaporation_fraction,
                                    exfiltration: s.exfiltration,
                                },
                            ),
                        ),
                    ),
                }
            }
    } else if u.outfall is Some {
        let o = u.outfall->0;
        exists|boundary: Result<Option<OutfallBoundary>, SwmmError>|
            {
                &&& spec_resolved_boundary(validate, o.boundary, boundary)
                &&& boundary matches Err(e) ==> out == Err::<Option<NodeSubtypePatch>, SwmmError>(e)
                &&& boundary is Ok ==> exists|route: Result<Option<Option<usize>>, SwmmError>|
                    {
                        &&& spec_resolved_clearable(
                            validate,
                            o.route_to_subcatchment,
                            ObjectType::Subcatch,
                            "route_to_subcatchment",
                            route,
                        )
                        &&& match route {
                            Err(e) => out == Err::<Option<NodeSubtypePatch>, SwmmError>(e),
                            Ok(rt) => out == Ok::<Option<NodeSubtypePatch>, SwmmError>(
                                Some(
                                    NodeSubtypePatch::OutfallUpdate(
                                        OutfallUpdate {
                                            boundary: boundary->Ok_0,
                                            has_flap_gate: o.has_flap_gate,
                                            route_to_subcatchment: rt,
                                        },
                                    ),
                                ),
                            ),
                        }
                    }
            }
    } else if u.divider is Some {
        let d = u.divider->0;
        exists|mode: Result<Option<DividerMode>, SwmmError>|
            {
                &&& spec_resolved_rule(validate, d.rule, mode)
                &&& mode matches Err(e) ==> out == Err::<Option<NodeSubtypePatch>, SwmmError>(e)
                &&& mode is Ok ==> exists|link: Result<Option<Option<usize>>, SwmmError>|
                    {
                        &&& spec_resolved_clearable(
                            validate,
                            d.diverted_link,
                            ObjectType::Link,
                            "diverted_link",
                            link,
                        )
                        &&& match link {
                            Err(e) => out == Err::<Option<NodeSubtypePatch>, SwmmError>(e),
                            Ok(l) => out == Ok::<Option<NodeSubtypePatch>, SwmmError>(
                                Some(
                                    NodeSubtypePatch::DividerUpdate(
                                        DividerUpdate { mode: mode->Ok_0, diverted_link_index: l },
                                    ),
                                ),
                            ),
                        }
                    }
            }
    } else {
        out == Ok::<Option<NodeSubtypePatch>, SwmmError>(None)
    }
}

/// `result` is what checking `update` against the configured objects gives: its related views validated in order.
pub open spec fn spec_node_patch<F: Fn(&RelatedObject, ObjectType, &'static str) -> Result<usize, SwmmError>>(
    validate: F,
    update: NodeUpdate,
    result: Result<NodePatch, SwmmError>,
) -> bool {
    exists|subtype: Result<Option<NodeSubtypePatch>, SwmmError>|
        {
            &&& spec_resolved_node_subtype(validate, update, subtype)
            &&& match subtype {
                Err(e) => result == Err::<NodePatch, SwmmError>(e),
                Ok(t) => result == Ok::<NodePatch, SwmmError>(NodePatch { subtype: t, ..update.patch }),
            }
        }
}

/// The outcomes that checking a `NodeUpdate` against the configured objects can give.
pub open spec fn spec_node_check<F: Fn(&RelatedObject, ObjectType, &'static str) -> Result<usize, SwmmError>>(
    validate: F,
) -> spec_fn(NodeUpdate, Result<NodePatch, SwmmError>) -> bool {
    |update: NodeUpdate, result: Result<NodePatch, SwmmError>| spec_node_patch(validate, update, result)
}

impl NodeUpdate {
    /// Resolves related identities and builds one typed solver patch under the owner lock.
    ///
    /// `validate` checks one related Live View against the configured objects of a family and
    /// returns its index; the first failure is returned.
    pub fn into_patch<F: Fn(&RelatedObject, ObjectType, &'static str) -> Result<usize, SwmmError>>(
        self,
        validate: &F,
    ) -> (result: Result<NodePatch, SwmmError>)
        requires
            forall|r: &RelatedObject, t: ObjectType, n: &'static str| call_requires(*validate, (r, t, n)),
        ensures
            spec_node_patch(*validate, self, result),
    {
        let ghost whole = self;
        let NodeUpdate { mut patch, storage, outfall, divider } = self;
        let subtype: Result<Option<NodeSubtypePatch>, SwmmError> = if let Some(s) = storage {
            let NativeStorageUpdate { shape, evaporation_fraction, exfiltration } = s;
            let ghost gshape = shape;
            let resolved: Result<Option<CanonicalStorageShape>, SwmmError> = match shape {
                None => Ok(None),
                Some(NativeStorageShape::Coefficients(kind, coefficients)) => Ok(
                    Some(CanonicalStorageShape::Coefficients { kind, coefficients }),
                ),
                Some(NativeStorageShape::Tabular(r)) => match resolve_required(
                    validate,
                    &r,
                    ObjectType::Curve,
                    "shape.curve",
                ) {
                    Ok(i) => Ok(Some(CanonicalStorageShape::Tabular { curve_index: i })),
                    Err(e) => Err(e),
                },
            };
            let ghost rs = resolved;
            assert(spec_resolved_storage_shape(*validate, gshape, rs));
            match resolved {
                Err(e) => Err(e),
                Ok(sh) => Ok(
                    Some(
                        NodeSubtypePatch::StorageUpdate(
                            StorageUpdate { shape: sh, evaporation_fraction, exfiltration },
                        ),
                    ),
                ),
            }
        } else if let Some(o) = outfall {
            let NativeOutfallUpdate { boundary, has_flap_gate, route_to_subcatchment } = o;
            let ghost gb = boundary;
            let resolved: Result<Option<OutfallBoundary>, SwmmError> = match boundary {
                None => Ok(None),
                Some(NativeOutfallBoundary::Free) => Ok(Some(OutfallBoundary::Free)),
                Some(NativeOutfallBoundary::Normal) => Ok(Some(OutfallBoundary::Normal)),
                Some(NativeOutfallBoundary::Fixed(stage)) => Ok(Some(OutfallBoundary::Fixed { stage })),
                Some(NativeOutfallBoundary::Tidal(r)) => match resolve_required(
                    validate,
                    &r,
                    ObjectType::Curve,
                    "boundary.reference",
                ) {
                    Ok(i) => Ok(Some(OutfallBoundary::Tidal { curve_index: i })),
                    Err(e) => Err(e),
                },
                Some(NativeOutfallBoundary::TimeSeries(r)) => match resolve_required(
                    validate,
                    &r,
                    ObjectType::Tseries,
                    "boundary.reference",
                ) {
                    Ok(i) => Ok(Some(OutfallBoundary::TimeSeries { series_index: i })),
                    Err(e) => Err(e),
                },
            };
            let ghost rb = resolved;
            assert(spec_resolved_boundary(*validate, gb, rb));
            match resolved {
                Err(e) => Err(e),
                Ok(b) => match resolve_clearable(
                    validate,
                    route_to_subcatchment,
                    ObjectType::Subcatch,
                    "route_to_subcatchment",
                ) {
                    Err(e) => Err(e),
                    Ok(rt) => Ok(
                        Some(
                            NodeSubtypePatch::OutfallUpdate(
                                OutfallUpdate { boundary: b, has_flap_gate, route_to_subcatchment: rt },
                            ),
                        ),
                    ),
                },
            }
        } else if let Some(d) = divider {
            let NativeDividerUpdate { rule, diverted_link } = d;
            let ghost gr = rule;
            let resolved: Result<Option<DividerMode>, SwmmError> = match rule {
                None => Ok(None),
                Some(NativeDividerRule::Overflow) => Ok(Some(DividerMode::Overflow)),
                Some(NativeDividerRule::Cutoff(minimum_flow)) => Ok(Some(DividerMode::Cutoff { minimum_flow })),
                Some(NativeDividerRule::Weir(minimum_flow, maximum_head, discharge_coefficient)) => Ok(
                    Some(DividerMode::Weir { minimum_flow, maximum_head, discharge_coefficient }),
                ),
                Some(NativeDividerRule::Tabular(r)) => match resolve_required(
                    validate,
                    &r,
                    ObjectType::Curve,
                    "rule.curve",
                ) {
                    Ok(i) => Ok(Some(DividerMode::Tabular { curve_index: i })),
                    Err(e) => Err(e),
                },
            };
            let ghost rr = resolved;
            assert(spec_resolved_rule(*validate, gr, rr));
            match resolved {
                Err(e) => Err(e),
                Ok(m) => match resolve_clearable(validate, diverted_link, ObjectType::Link, "diverted_link") {
                    Err(e) => Err(e),
                    Ok(l) => Ok(
                        Some(NodeSubtypePatch::DividerUpdate(DividerUpdate { mode: m, diverted_link_index: l })),
                    ),
                },
            }
        } else {
            Ok(None)
        };
        let ghost rt = subtype;
        assert(spec_resolved_node_subtype(*validate, whole, rt));
        match subtype {
            Err(e) => Err(e),
            Ok(t) => {
                patch.subtype = t;
                Ok(patch)
            },
        }
    }
}

/// A configured outfall boundary, its table given by identity.
#[derive(Debug)]
pub enum OutfallBoundaryValue<I> {
    Free,
    Normal,
    Fixed { stage: Number },
    Tidal { curve: I },
    TimeSeries { series: I },
}

/// The discriminated parts of an outfall boundary: its kind, stage, and related table with
/// its family.
pub open spec fn spec_outfall_boundary_parts<I>(boundary: OutfallBoundaryValue<I>) -> (
    &'static str,
    Number,
    Option<(ObjectType, I)>,
) {
    match boundary {
        OutfallBoundaryValue::Free => ("free", Number::Float(0), None),
        OutfallBoundaryValue::Normal => ("normal", Number::Float(0), None),
        OutfallBoundaryValue::Fixed { stage } => ("fixed", stage, None),
        OutfallBoundaryValue::Tidal { curve } => ("tidal", Number::Float(0), Some((ObjectType::Curve, curve))),
        OutfallBoundaryValue::TimeSeries { series } => (
            "timeseries",
            Number::Float(0),
            Some((ObjectType::Tseries, series)),
        ),
    }
}

/// Converts one configured outfall boundary to its discriminated parts.
pub fn outfall_boundary_parts<I>(boundary: OutfallBoundaryValue<I>) -> (parts: (
    &'static str,
    Number,
    Option<(ObjectType, I)>,
))
    ensures
        parts == spec_outfall_boundary_parts(boundary),
{
    match boundary {
        OutfallBoundaryValue::Free => ("free", Number::Float(0), None),
        OutfallBoundaryValue::Normal => ("normal", Number::Float(0), None),
        OutfallBoundaryValue::Fixed { stage } => ("fixed", stage, None),
        OutfallBoundaryValue::Tidal { curve } => ("tidal", Number::Float(0), Some((ObjectType::Curve, curve))),
        OutfallBoundaryValue::TimeSeries { series } => (
            "timeseries",
            Number::Float(0),
            Some((ObjectType::Tseries, series)),
        ),
    }
}

/// A configured divider rule, its curve given by identity.
#[derive(Debug)]
pub enum DividerRuleValue<I> {
    Overflow,
    Cutoff { minimum_flow: Number },
    Tabular { curve: I },
    Weir { minimum_flow: Number, maximum_head: Number, discharge_coefficient: Number },
}

/// The discriminated parts of a divider rule: its kind, three values, and related curve.
pub open spec fn spec_divider_rule_parts<I>(mode: DividerRuleValue<I>) -> (&'static str, Triple, Option<(ObjectType, I)>) {
    let zero = Number::Float(0);
    match mode {
        DividerRuleValue::Overflow => ("overflow", (zero, zero, zero), None),
        DividerRuleValue::Cutoff { minimum_flow } => ("cutoff", (minimum_flow, zero, zero), None),
        DividerRuleValue::Tabular { curve } => ("tabular", (zero, zero, zero), Some((ObjectType::Curve, curve))),
        DividerRuleValue::Weir { minimum_flow, maximum_head, discharge_coefficient } => (
            "weir",
            (minimum_flow, maximum_head, discharge_coefficient),
            None,
        ),
    }
}

/// Converts one configured divider rule to its discriminated parts.
pub fn divider_rule_parts<I>(mode: DividerRuleValue<I>) -> (parts: (
    &'static str,
    Triple,
    Option<(ObjectType, I)>,
))
    ensures
        parts == spec_divider_rule_parts(mode),
{
    let zero = Number::Float(0);
    match mode {
        DividerRuleValue::Overflow => ("overflow", (zero, zero, zero), None),
        DividerRuleValue::Cutoff { minimum_flow } => ("cutoff", (minimum_flow, zero, zero), None),
        DividerRuleValue::Tabular { curve } => ("tabular", (zero, zero, zero), Some((ObjectType::Curve, curve))),
        DividerRuleValue::Weir { minimum_flow, maximum_head, discharge_coefficient } => (
            "weir",
            (minimum_flow, maximum_head, discharge_coefficient),
            None,
        ),
    }
}

/// The family of the related object that a node relationship field reads.
pub open spec fn spec_node_relationship_family(field: NodeConfigurationField) -> Option<ObjectType> {
    match field {
        NodeConfigurationField::OutfallRouteToSubcatchment => Some(ObjectType::Subcatch),
        NodeConfigurationField::DividerDivertedLink => Some(ObjectType::Link),
        _ => None,
    }
}

/// Returns the family of the related object that a node relationship field reads.
pub fn node_relationship_family(field: NodeConfigurationField) -> (family: Result<ObjectType, NativeError>)
    ensures
        match spec_node_relationship_family(field) {
            Some(t) => family == Ok::<ObjectType, NativeError>(t),
            None => family is Err && is_internal_error(
                family->Err_0,
                "node_configuration_value",
                "invalid private node relationship field"@,
            ),
        },
{
    match field {
        NodeConfigurationField::OutfallRouteToSubcatchment => Ok(ObjectType::Subcatch),
        NodeConfigurationField::DividerDivertedLink => Ok(ObjectType::Link),
        _ => Err(internal_error("node_configuration_value", "invalid private node relationship field")),
    }
}

impl NativeSimulation {

    /// Reads one configured node setting of a Live View.
    pub fn node_configuration_value<S, T, M: FnOnce() -> Result<bool, SwmmError>, R: FnOnce(NodeConfigurationField) -> Result<T, SwmmError>>(
        &self,
        generation: u64,
        subtype: Option<S>,
        field: &str,
        matches: M,
        read: R,
    ) -> (result: Result<T, NativeError>)
        requires
            call_requires(matches, ()),
            forall|f: NodeConfigurationField| call_requires(read, (f,)),
        ensures
            exists|f: Result<NodeConfigurationField, NativeError>|
                {
                    &&& match spec_node_configuration_field(field@) {
                        Some(x) => f == Ok::<NodeConfigurationField, NativeError>(x),
                        None => f is Err && is_internal_error(
                            f->Err_0,
                            "node_configuration_value",
                            "invalid private node configuration field"@,
                        ),
                    }
                    &&& spec_field_view(*self, "node_configuration_value", generation, subtype, f, matches, read, result)
                },
    {
        let selected = node_configuration_field(field);
        self.field_view("node_configuration_value", generation, subtype, selected, matches, read)
    }

    /// Reads one current node result of a Live View.
    pub fn node_result<S, T, M: FnOnce() -> Result<bool, SwmmError>, R: FnOnce(NodeResultField) -> Result<T, SwmmError>>(
        &self,
        generation: u64,
        subtype: Option<S>,
        field: &str,
        matches: M,
        read: R,
    ) -> (result: Result<T, NativeError>)
        requires
            call_requires(matches, ()),
            forall|f: NodeResultField| call_requires(read, (f,)),
        ensures
            exists|f: Result<NodeResultField, NativeError>|
                {
                    &&& match spec_node_result_field(field@) {
                        Some(x) => f == Ok::<NodeResultField, NativeError>(x),
                        None => f is Err && is_internal_error(
                            f->Err_0,
                            "node_result",
                            "invalid private node result field"@,
                        ),
                    }
                    &&& spec_field_view(*self, "node_result", generation, subtype, f, matches, read, result)
                },
    {
        let selected = node_result_field(field);
        self.field_view("node_result", generation, subtype, selected, matches, read)
    }

    /// Reads the external inflow of a node.
    pub fn node_external_inflow<S, T, M: FnOnce() -> Result<bool, SwmmError>, R: FnOnce(()) -> Result<T, SwmmError>>(
        &self,
        generation: u64,
        subtype: Option<S>,
        matches: M,
        read: R,
    ) -> (result: Result<T, NativeError>)
        requires
            call_requires(matches, ()),
            call_requires(read, ((),)),
        ensures
            spec_field_view(*self, "node_external_inflow", generation, subtype, Ok::<(), NativeError>(()), matches, read, result),
    {
        self.field_view("node_external_inflow", generation, subtype, Ok(()), matches, read)
    }

    /// Reads the current water quality of a node.
    pub fn node_quality_mapping<S, T, M: FnOnce() -> Result<bool, SwmmError>, R: FnOnce(()) -> Result<T, SwmmError>>(
        &self,
        generation: u64,
        subtype: Option<S>,
        matches: M,
        read: R,
    ) -> (result: Result<T, NativeError>)
        requires
            call_requires(matches, ()),
            call_requires(read, ((),)),
        ensures
            spec_field_view(*self, "node_quality_mapping", generation, subtype, Ok::<(), NativeError>(()), matches, read, result),
    {
        self.field_view("node_quality_mapping", generation, subtype, Ok(()), matches, read)
    }

    /// Reads the external pollutant mass flux of a node.
    pub fn node_external_pollutant_mass_flux<S, T, M: FnOnce() -> Result<bool, SwmmError>, R: FnOnce(()) -> Result<T, SwmmError>>(
        &self,
        generation: u64,
        subtype: Option<S>,
        matches: M,
        read: R,
    ) -> (result: Result<T, NativeError>)
        requires
            call_requires(matches, ()),
            call_requires(read, ((),)),
        ensures
            spec_field_view(*self, "node_external_pollutant_mass_flux", generation, subtype, Ok::<(), NativeError>(()), matches, read, result),
    {
        self.field_view("node_external_pollutant_mass_flux", generation, subtype, Ok(()), matches, read)
    }

    /// Reads the fixed stage of an outfall.
    pub fn outfall_fixed_stage<S, T, M: FnOnce() -> Result<bool, SwmmError>, R: FnOnce(()) -> Result<T, SwmmError>>(
        &self,
        generation: u64,
        subtype: Option<S>,
        matches: M,
        read: R,
    ) -> (result: Result<T, NativeError>)
        requires
            call_requires(matches, ()),
            call_requires(read, ((),)),
        ensures
            spec_field_view(*self, "outfall_fixed_stage", generation, subtype, Ok::<(), NativeError>(()), matches, read, result),
    {
        self.field_view("outfall_fixed_stage", generation, subtype, Ok(()), matches, read)
    }

    /// Reads the total inflow volume of a node.
    pub fn node_total_inflow_volume<S, T, M: FnOnce() -> Result<bool, SwmmError>, R: FnOnce(()) -> Result<T, SwmmError>>(
        &self,
        generation: u64,
        subtype: Option<S>,
        matches: M,
        read: R,
    ) -> (result: Result<T, NativeError>)
        requires
            call_requires(matches, ()),
            call_requires(read, ((),)),
        ensures
            spec_field_view(*self, "node_total_inflow_volume", generation, subtype, Ok::<(), NativeError>(()), matches, read, result),
    {
        self.field_view("node_total_inflow_volume", generation, subtype, Ok(()), matches, read)
    }

    /// Atomically updates the settings of one node from raw Python values.
    ///
    /// Once the view's identity is confirmed, the update's relationships are validated
    /// (`validate`, through `NodeUpdate::into_patch`); only a checked patch reaches `apply`.
    pub fn update_node_settings<S, M: FnOnce() -> Result<bool, SwmmError>, A: FnOnce(NodePatch) -> Reported<()>, F: Fn(&RelatedObject, ObjectType, &'static str) -> Result<usize, SwmmError>>(
        &mut self,
        generation: u64,
        subtype: Option<S>,
        changes: Vec<(Option<String>, PyValue)>,
        matches: M,
        validate: &F,
        apply: A,
    ) -> (result: Result<(), NativeError>)
        requires
            call_requires(matches, ()),
            forall|r: &RelatedObject, t: ObjectType, n: &'static str| call_requires(*validate, (r, t, n)),
            forall|x: NodePatch| call_requires(apply, (x,)),
        ensures
            exists|p: Result<NodeUpdate, NativeError>|
                {
                    &&& spec_refusal_outcome(p, spec_node_update(changes@, changes@.len() as int), "update_node_settings")
                    &&& spec_field_update_checked(*old(self), *final(self), "update_node_settings", generation, subtype, p, matches, spec_node_check(*validate), apply, result)
                },
            old(self).wf() ==> final(self).wf(),
    {
        let payload = extract_node_update(changes);
        let check = |u: NodeUpdate| -> (c: Result<NodePatch, SwmmError>)
            requires
                forall|r: &RelatedObject, t: ObjectType, n: &'static str| call_requires(*validate, (r, t, n)),
            ensures
                spec_node_patch(*validate, u, c),
            { u.into_patch(validate) };
        self.field_update_checked("update_node_settings", generation, subtype, payload, matches, check, Ghost(spec_node_check(*validate)), apply)
    }

    /// Sets the external inflow of one node.
    pub fn set_node_external_inflow<S, M: FnOnce() -> Result<bool, SwmmError>, A: FnOnce(Number) -> Reported<()>>(
        &mut self,
        generation: u64,
        subtype: Option<S>,
        value: &PyValue,
        matches: M,
        apply: A,
    ) -> (result: Result<(), NativeError>)
        requires
            call_requires(matches, ()),
            forall|x: Number| call_requires(apply, (x,)),
        ensures
            exists|p: Result<Number, NativeError>|
                {
                    &&& crate::policy::spec_policy_outcome(p, spec_strict_number(*value, "external_inflow"@), "set_node_external_inflow")
                    &&& spec_field_update(*old(self), *final(self), "set_node_external_inflow", generation, subtype, p, matches, apply, result)
                },
            old(self).wf() ==> final(self).wf(),
    {
        let payload = strict_number(value, "external_inflow", "set_node_external_inflow");
        self.field_update("set_node_external_inflow", generation, subtype, payload, matches, apply)
    }

    /// Sets the fixed stage of one outfall.
    pub fn set_outfall_fixed_stage<S, M: FnOnce() -> Result<bool, SwmmError>, A: FnOnce(Number) -> Reported<()>>(
        &mut self,
        generation: u64,
        subtype: Option<S>,
        value: &PyValue,
        matches: M,
        apply: A,
    ) -> (result: Result<(), NativeError>)
        requires
            call_requires(matches, ()),
            forall|x: Number| call_requires(apply, (x,)),
        ensures
            exists|p: Result<Number, NativeError>|
                {
                    &&& crate::policy::spec_policy_outcome(p, spec_strict_number(*value, "fixed_stage"@), "set_outfall_fixed_stage")
                    &&& spec_field_update(*old(self), *final(self), "set_outfall_fixed_stage", generation, subtype, p, matches, apply, result)
                },
            old(self).wf() ==> final(self).wf(),
    {
        let payload = strict_number(value, "fixed_stage", "set_outfall_fixed_stage");
        self.field_update("set_outfall_fixed_stage", generation, subtype, payload, matches, apply)
    }
}

} // verus!
