use vstd::prelude::*;
use vstd::string::*;

use crate::convert::{
    detail, lenient_number, nonnegative_integer, related_live_view, spec_attribute,
    spec_detailed, spec_index_value, spec_lenient_number, spec_nonnegative_integer,
    spec_refusal_outcome, spec_related, spec_strict_bool, strict_bool, take_attributes, Refusal,
};
use crate::error::{policy_py_error, NativeError, SwmmError};
use crate::convert::{
    resolve, resolve_required, spec_resolved, spec_strict_number, spec_text, strict_number, text,
};
use crate::fields::{
    inlet_configuration_field, inlet_result_field, is_internal_error, link_configuration_field,
    link_result_field, spec_inlet_configuration_field, spec_inlet_result_field,
    spec_link_configuration_field, spec_link_result_field, InletConfigurationField,
    InletResultField, LinkConfigurationField, LinkResultField,
};
use crate::owner::{NativeSimulation, Reported};
use crate::views::{spec_field_update, spec_field_view, spec_field_update_checked};
use crate::fields::{
    extract_orifice_kind, extract_outlet_head_basis, outlet_head_basis_name,
    spec_outlet_head_basis_name, extract_road_surface, extract_weir_kind,
    extract_xsect_type, spec_extract_orifice_kind, spec_extract_outlet_head_basis,
    spec_extract_road_surface, spec_extract_weir_kind, spec_extract_xsect_type, OrificeType,
    OutletHeadBasis, RoadSurface, WeirType, XsectType,
};
use crate::text::str_eq;
use crate::value::{Number, ObjectType, PublicType, PyValue, RelatedObject};

verus! {

/// Four cross-section geometry parameters.
pub type Geometry = (Number, Number, Number, Number);

/// A cross-section declaration whose related objects are not resolved yet.
#[derive(Debug)]
pub enum NativeCrossSection {
    Circular(Number),
    Standard(XsectType, Geometry, usize),
    Custom(RelatedObject, Number, usize),
    Irregular(RelatedObject, usize),
    Street(RelatedObject, usize),
}

/// An outlet rating declaration whose related curve is not resolved yet.
#[derive(Debug)]
pub enum NativeOutletRating {
    Functional(Number, Number, OutletHeadBasis),
    Tabular(RelatedObject, OutletHeadBasis),
}

/// Creates one validation error for link-settings extraction.
pub fn link_py_error(operation: &'static str, detail: String) -> (raised: NativeError)
    ensures
        raised == (NativeError::Native {
            operation,
            error: crate::error::SwmmError {
                code: crate::error::ErrorCode::ApiPropertyValue,
                detail: Some(detail),
            },
        }),
{
    policy_py_error(operation, detail)
}

/// Extracts one non-boolean numeric link value.
pub fn link_float(value: &PyValue, name: &str, operation: &'static str) -> (result: Result<
    Number,
    NativeError,
>)
    ensures
        spec_refusal_outcome(result, spec_detailed(spec_lenient_number(*value, name@)), operation),
{
    lenient_number(value, name, operation)
}

/// Extracts one strict boolean link value.
pub fn link_bool(value: &PyValue, name: &str, operation: &'static str) -> (result: Result<
    bool,
    NativeError,
>)
    ensures
        spec_refusal_outcome(result, spec_detailed(spec_strict_bool(*value, name@)), operation),
{
    strict_bool(value, name, operation)
}

/// Extracts one non-boolean nonnegative integer without applying its domain range.
pub fn link_usize(value: &PyValue, name: &str, operation: &'static str) -> (result: Result<
    usize,
    NativeError,
>)
    ensures
        spec_refusal_outcome(
            result,
            spec_detailed(spec_nonnegative_integer(*value, name@)),
            operation,
        ),
{
    nonnegative_integer(value, name, operation)
}

/// A four-value numeric tuple.
pub open spec fn spec_link_geometry(value: PyValue) -> Result<Geometry, Seq<char>> {
    match value {
        PyValue::Tuple(items) => if items@.len() != 4 {
            Err("geometry must contain four values"@)
        } else {
            match spec_lenient_number(items@[0], "geometry"@) {
                Err(d) => Err(d),
                Ok(a) => match spec_lenient_number(items@[1], "geometry"@) {
                    Err(d) => Err(d),
                    Ok(b) => match spec_lenient_number(items@[2], "geometry"@) {
                        Err(d) => Err(d),
                        Ok(c) => match spec_lenient_number(items@[3], "geometry"@) {
                            Err(d) => Err(d),
                            Ok(e) => Ok((a, b, c, e)),
                        },
                    },
                },
            }
        },
        _ => Err("geometry must be a four-value tuple"@),
    }
}

/// Extracts one four-value numeric tuple.
pub fn link_geometry(value: &PyValue, operation: &'static str) -> (result: Result<
    Geometry,
    NativeError,
>)
    ensures
        spec_refusal_outcome(result, spec_detailed(spec_link_geometry(*value)), operation),
{
    match value {
        PyValue::Tuple(items) => {
            if items.len() != 4 {
                return Err(
                    link_py_error(operation, String::from_str("geometry must contain four values")),
                );
            }
            let a = match lenient_number(&items[0], "geometry", operation) {
                Ok(n) => n,
                Err(e) => {
                    return Err(e);
                },
            };
            let b = match lenient_number(&items[1], "geometry", operation) {
                Ok(n) => n,
                Err(e) => {
                    return Err(e);
                },
            };
            let c = match lenient_number(&items[2], "geometry", operation) {
                Ok(n) => n,
                Err(e) => {
                    return Err(e);
                },
            };
            let d = match lenient_number(&items[3], "geometry", operation) {
                Ok(n) => n,
                Err(e) => {
                    return Err(e);
                },
            };
            Ok((a, b, c, d))
        },
        _ => Err(link_py_error(operation, String::from_str("geometry must be a four-value tuple"))),
    }
}

/// The barrel count of a conduit: a non-boolean integer in `[0, 255]`.
pub open spec fn spec_barrels(value: PyValue) -> Result<u8, Seq<char>> {
    if value is Bool {
        Err("barrels must not be bool"@)
    } else {
        match spec_index_value(value) {
            Some(i) => if 0 <= i && i <= 255 {
                Ok(i as u8)
            } else {
                Err("barrels must be an integer in [0, 255]"@)
            },
            None => Err("barrels must be an integer in [0, 255]"@),
        }
    }
}

/// Extracts one conduit barrel count.
pub fn link_barrels(value: &PyValue, operation: &'static str) -> (result: Result<u8, NativeError>)
    ensures
        spec_refusal_outcome(result, spec_detailed(spec_barrels(*value)), operation),
{
    if let PyValue::Bool(_) = value {
        return Err(link_py_error(operation, String::from_str("barrels must not be bool")));
    }
    match crate::convert::index_value(value) {
        Some(i) => {
            if 0 <= i && i <= 255 {
                Ok(i as u8)
            } else {
                Err(link_py_error(operation, String::from_str("barrels must be an integer in [0, 255]")))
            }
        },
        None => Err(link_py_error(operation, String::from_str("barrels must be an integer in [0, 255]"))),
    }
}

/// The refusal of a value that is not the expected typed declaration.
pub open spec fn spec_not_declared<X>(declaration: Seq<char>) -> Result<X, Refusal> {
    Err(Refusal::Detail(declaration + " must be a typed declaration"@))
}

/// The culvert code attribute of a cross-section declaration.
pub open spec fn spec_culvert_code(code: Option<PyValue>) -> Result<usize, Refusal> {
    match code {
        None => spec_not_declared("cross_section"@),
        Some(v) => spec_detailed(spec_nonnegative_integer(v, "cross_section.culvert_code"@)),
    }
}

/// A required related Live View held by a declaration attribute.
pub open spec fn spec_required_relation(
    attribute: Option<PyValue>,
    declaration: Seq<char>,
    name: Seq<char>,
) -> Result<RelatedObject, Refusal> {
    match attribute {
        None => spec_not_declared(declaration),
        Some(v) => match spec_related(v) {
            Err(e) => Err(Refusal::Raised(e)),
            Ok(None) => Err(Refusal::Detail(name + " is required"@)),
            Ok(Some(r)) => Ok(r),
        },
    }
}

/// One detached typed cross-section declaration.
pub open spec fn spec_extract_cross_section(value: PyValue) -> Result<NativeCrossSection, Refusal> {
    match value {
        PyValue::Declaration { class, attributes } => {
            let a = attributes@;
            if class == PublicType::CircularCrossSection {
                match spec_attribute(a, "diameter"@) {
                    None => spec_not_declared("cross_section"@),
                    Some(d) => match spec_lenient_number(d, "cross_section.diameter"@) {
                        Err(m) => Err(Refusal::Detail(m)),
                        Ok(n) => Ok(NativeCrossSection::Circular(n)),
                    },
                }
            } else if class == PublicType::StandardCrossSection {
                match spec_attribute(a, "shape"@) {
                    None => spec_not_declared("cross_section"@),
                    Some(s) => match spec_extract_xsect_type(s) {
                        Err(m) => Err(Refusal::Detail(m)),
                        Ok(shape) => match spec_attribute(a, "geometry"@) {
                            None => spec_not_declared("cross_section"@),
                            Some(g) => match spec_link_geometry(g) {
                                Err(m) => Err(Refusal::Detail(m)),
                                Ok(geometry) => match spec_culvert_code(
                                    spec_attribute(a, "culvert_code"@),
                                ) {
                                    Err(r) => Err(r),
                                    Ok(code) => Ok(
                                        NativeCrossSection::Standard(shape, geometry, code),
                                    ),
                                },
                            },
                        },
                    },
                }
            } else if class == PublicType::CustomCrossSection {
                match spec_required_relation(
                    spec_attribute(a, "shape"@),
                    "cross_section"@,
                    "cross_section.shape"@,
                ) {
                    Err(r) => Err(r),
                    Ok(shape) => match spec_attribute(a, "full_depth"@) {
                        None => spec_not_declared("cross_section"@),
                        Some(f) => match spec_lenient_number(f, "cross_section.full_depth"@) {
                            Err(m) => Err(Refusal::Detail(m)),
                            Ok(depth) => match spec_culvert_code(spec_attribute(a, "culvert_code"@)) {
                                Err(r) => Err(r),
                                Ok(code) => Ok(NativeCrossSection::Custom(shape, depth, code)),
                            },
                        },
                    },
                }
            } else if class == PublicType::IrregularCrossSection {
                match spec_required_relation(
                    spec_attribute(a, "transect"@),
                    "cross_section"@,
                    "cross_section.transect"@,
                ) {
                    Err(r) => Err(r),
                    Ok(transect) => match spec_culvert_code(spec_attribute(a, "culvert_code"@)) {
                        Err(r) => Err(r),
                        Ok(code) => Ok(NativeCrossSection::Irregular(transect, code)),
                    },
                }
            } else if class == PublicType::StreetCrossSection {
                match spec_required_relation(
                    spec_attribute(a, "street"@),
                    "cross_section"@,
                    "cross_section.street"@,
                ) {
                    Err(r) => Err(r),
                    Ok(street) => match spec_culvert_code(spec_attribute(a, "culvert_code"@)) {
                        Err(r) => Err(r),
                        Ok(code) => Ok(NativeCrossSection::Street(street, code)),
                    },
                }
            } else {
                spec_not_declared("cross_section"@)
            }
        },
        _ => spec_not_declared("cross_section"@),
    }
}

/// Raises the refusal of a value that is not the expected typed declaration.
fn not_declared(declaration: &str) -> (raised: NativeError)
    ensures
        spec_refusal_outcome(
            Err::<(), NativeError>(raised),
            spec_not_declared::<()>(declaration@),
            "update_link_settings",
        ),
{
    link_py_error("update_link_settings", detail(declaration, " must be a typed declaration"))
}

/// Extracts the culvert code attribute of a cross-section declaration.
fn culvert_code(code: Option<PyValue>) -> (result: Result<usize, NativeError>)
    ensures
        spec_refusal_outcome(result, spec_culvert_code(code), "update_link_settings"),
{
    match code {
        None => Err(not_declared("cross_section")),
        Some(v) => link_usize(&v, "cross_section.culvert_code", "update_link_settings"),
    }
}

/// Extracts a required related Live View held by a declaration attribute.
fn required_relation(attribute: Option<PyValue>, declaration: &str, name: &str) -> (result: Result<
    RelatedObject,
    NativeError,
>)
    ensures
        spec_refusal_outcome(
            result,
            spec_required_relation(attribute, declaration@, name@),
            "update_link_settings",
        ),
{
    match attribute {
        None => Err(not_declared(declaration)),
        Some(v) => match related_live_view(v) {
            Err(e) => Err(e),
            Ok(None) => Err(link_py_error("update_link_settings", detail(name, " is required"))),
            Ok(Some(r)) => Ok(r),
        },
    }
}

/// The value of attribute `k` among the slots taken for `names`.
pub open spec fn spec_slot(slots: Seq<Option<PyValue>>, k: int) -> Option<PyValue> {
    slots[k]
}

/// Takes the value out of one attribute slot.
fn take_slot(slots: &mut Vec<Option<PyValue>>, k: usize) -> (value: Option<PyValue>)
    requires
        k < old(slots)@.len(),
    ensures
        value == old(slots)@[k as int],
        final(slots)@.len() == old(slots)@.len(),
        forall|m: int| 0 <= m < old(slots)@.len() && m != k ==> final(slots)@[m] == old(slots)@[m],
{
    let value = slots.remove(k);
    slots.insert(k, None);
    value
}

/// A cross-section is the one that its declaration's class names, and keeps each declared
/// attribute in its own place: a circular section its `diameter`; a standard one its `shape`,
/// `geometry` and `culvert_code`; a custom one its `shape` curve, `full_depth` and `culvert_code`;
/// an irregular one its `transect` and `culvert_code`; a street one its `street` and `culvert_code`.
pub proof fn lemma_cross_section_keeps_each_attribute(class: PublicType, attributes: Vec<(String, PyValue)>)
    ensures
        spec_extract_cross_section(PyValue::Declaration { class, attributes }) is Ok ==> {
            let x = spec_extract_cross_section(PyValue::Declaration { class, attributes })->Ok_0;
            let a = attributes@;
            match x {
                NativeCrossSection::Circular(diameter) => {
                    &&& class == PublicType::CircularCrossSection
                    &&& spec_attribute(a, "diameter"@) is Some
                    &&& spec_lenient_number(spec_attribute(a, "diameter"@)->0, "cross_section.diameter"@)
                        == Ok::<Number, Seq<char>>(diameter)
                },
                NativeCrossSection::Standard(shape, geometry, code) => {
                    &&& class == PublicType::StandardCrossSection
                    &&& spec_attribute(a, "shape"@) is Some
                    &&& spec_attribute(a, "geometry"@) is Some
                    &&& spec_extract_xsect_type(spec_attribute(a, "shape"@)->0) is Ok
                    &&& spec_extract_xsect_type(spec_attribute(a, "shape"@)->0)->Ok_0 == shape
                    &&& spec_link_geometry(spec_attribute(a, "geometry"@)->0) is Ok
                    &&& spec_link_geometry(spec_attribute(a, "geometry"@)->0)->Ok_0 == geometry
                    &&& spec_culvert_code(spec_attribute(a, "culvert_code"@)) == Ok::<usize, Refusal>(code)
                },
                NativeCrossSection::Custom(shape, full_depth, code) => {
                    &&& class == PublicType::CustomCrossSection
                    &&& spec_required_relation(spec_attribute(a, "shape"@), "cross_section"@, "cross_section.shape"@)
                        == Ok::<RelatedObject, Refusal>(shape)
                    &&& spec_attribute(a, "full_depth"@) is Some
                    &&& spec_lenient_number(spec_attribute(a, "full_depth"@)->0, "cross_section.full_depth"@)
                        == Ok::<Number, Seq<char>>(full_depth)
                    &&& spec_culvert_code(spec_attribute(a, "culvert_code"@)) == Ok::<usize, Refusal>(code)
                },
                NativeCrossSection::Irregular(transect, code) => {
                    &&& class == PublicType::IrregularCrossSection
                    &&& spec_required_relation(spec_attribute(a, "transect"@), "cross_section"@, "cross_section.transect"@)
                        == Ok::<RelatedObject, Refusal>(transect)
                    &&& spec_culvert_code(spec_attribute(a, "culvert_code"@)) == Ok::<usize, Refusal>(code)
                },
                NativeCrossSection::Street(street, code) => {
                    &&& class == PublicType::StreetCrossSection
                    &&& spec_required_relation(spec_attribute(a, "street"@), "cross_section"@, "cross_section.street"@)
                        == Ok::<RelatedObject, Refusal>(street)
                    &&& spec_culvert_code(spec_attribute(a, "culvert_code"@)) == Ok::<usize, Refusal>(code)
                },
            }
        },
{
}

/// Extracts one detached typed cross-section declaration.
pub fn extract_cross_section(value: PyValue) -> (result: Result<NativeCrossSection, NativeError>)
    ensures
        spec_refusal_outcome(result, spec_extract_cross_section(value), "update_link_settings"),
{
    let operation = "update_link_settings";
    let ghost original = value;
    match value {
        PyValue::Declaration { class, attributes } => {
            let ghost a = attributes@;
            let names: Vec<&'static str> = vec![
                "diameter",
                "shape",
                "geometry",
                "culvert_code",
                "full_depth",
                "transect",
                "street",
            ];
            proof {
                reveal_strlit("diameter");
                reveal_strlit("shape");
                reveal_strlit("geometry");
                reveal_strlit("culvert_code");
                reveal_strlit("full_depth");
                reveal_strlit("transect");
                reveal_strlit("street");
                assert(names@[0]@ == "diameter"@);
                assert(names@[1]@ == "shape"@);
                assert(names@[2]@ == "geometry"@);
                assert(names@[3]@ == "culvert_code"@);
                assert(names@[4]@ == "full_depth"@);
                assert(names@[5]@ == "transect"@);
                assert(names@[6]@ == "street"@);
                assert(names@[0]@.len() != names@[1]@.len());
                assert(names@[0]@ != names@[1]@);
                assert(names@[0]@[0] != names@[2]@[0]);
                assert(names@[0]@ != names@[2]@);
                assert(names@[0]@.len() != names@[3]@.len());
                assert(names@[0]@ != names@[3]@);
                assert(names@[0]@.len() != names@[4]@.len());
                assert(names@[0]@ != names@[4]@);
                assert(names@[0]@[0] != names@[5]@[0]);
                assert(names@[0]@ != names@[5]@);
                assert(names@[0]@.len() != names@[6]@.len());
                assert(names@[0]@ != names@[6]@);
                assert(names@[1]@.len() != names@[2]@.len());
                assert(names@[1]@ != names@[2]@);
                assert(names@[1]@.len() != names@[3]@.len());
                assert(names@[1]@ != names@[3]@);
                assert(names@[1]@.len() != names@[4]@.len());
                assert(names@[1]@ != names@[4]@);
                assert(names@[1]@.len() != names@[5]@.len());
                assert(names@[1]@ != names@[5]@);
                assert(names@[1]@.len() != names@[6]@.len());
                assert(names@[1]@ != names@[6]@);
                assert(names@[2]@.len() != names@[3]@.len());
                assert(names@[2]@ != names@[3]@);
                assert(names@[2]@.len() != names@[4]@.len());
                assert(names@[2]@ != names@[4]@);
                assert(names@[2]@[0] != names@[5]@[0]);
                assert(names@[2]@ != names@[5]@);
                assert(names@[2]@.len() != names@[6]@.len());
                assert(names@[2]@ != names@[6]@);
                assert(names@[3]@.len() != names@[4]@.len());
                assert(names@[3]@ != names@[4]@);
                assert(names@[3]@.len() != names@[5]@.len());
                assert(names@[3]@ != names@[5]@);
                assert(names@[3]@.len() != names@[6]@.len());
                assert(names@[3]@ != names@[6]@);
                assert(names@[4]@.len() != names@[5]@.len());
                assert(names@[4]@ != names@[5]@);
                assert(names@[4]@.len() != names@[6]@.len());
                assert(names@[4]@ != names@[6]@);
                assert(names@[5]@.len() != names@[6]@.len());
                assert(names@[5]@ != names@[6]@);
                assert(forall|i: int, j: int|
                    0 <= i < j < names@.len() ==> (#[trigger] names@[i])@ != (#[trigger] names@[j])@);
            }
            let mut slots = take_attributes(attributes, &names);
            if class == PublicType::CircularCrossSection {
                match take_slot(&mut slots, 0) {
                    None => Err(not_declared("cross_section")),
                    Some(d) => match link_float(&d, "cross_section.diameter", operation) {
                        Err(e) => Err(e),
                        Ok(n) => Ok(NativeCrossSection::Circular(n)),
                    },
                }
            } else if class == PublicType::StandardCrossSection {
                let shape = match take_slot(&mut slots, 1) {
                    None => {
                        return Err(not_declared("cross_section"));
                    },
                    Some(s) => match extract_xsect_type(&s) {
                        Err(e) => {
                            return Err(e);
                        },
                        Ok(shape) => shape,
                    },
                };
                let geometry = match take_slot(&mut slots, 2) {
                    None => {
                        return Err(not_declared("cross_section"));
                    },
                    Some(g) => match link_geometry(&g, operation) {
                        Err(e) => {
                            return Err(e);
                        },
                        Ok(geometry) => geometry,
                    },
                };
                match culvert_code(take_slot(&mut slots, 3)) {
                    Err(e) => Err(e),
                    Ok(code) => Ok(NativeCrossSection::Standard(shape, geometry, code)),
                }
            } else if class == PublicType::CustomCrossSection {
                let shape = match required_relation(
                    take_slot(&mut slots, 1),
                    "cross_section",
                    "cross_section.shape",
                ) {
                    Err(e) => {
                        return Err(e);
                    },
                    Ok(r) => r,
                };
                let depth = match take_slot(&mut slots, 4) {
                    None => {
                        return Err(not_declared("cross_section"));
                    },
                    Some(f) => match link_float(&f, "cross_section.full_depth", operation) {
                        Err(e) => {
                            return Err(e);
                        },
                        Ok(n) => n,
                    },
                };
                match culvert_code(take_slot(&mut slots, 3)) {
                    Err(e) => Err(e),
                    Ok(code) => Ok(NativeCrossSection::Custom(shape, depth, code)),
                }
            } else if class == PublicType::IrregularCrossSection {
                let transect = match required_relation(
                    take_slot(&mut slots, 5),
                    "cross_section",
                    "cross_section.transect",
                ) {
                    Err(e) => {
                        return Err(e);
                    },
                    Ok(r) => r,
                };
                match culvert_code(take_slot(&mut slots, 3)) {
                    Err(e) => Err(e),
                    Ok(code) => Ok(NativeCrossSection::Irregular(transect, code)),
                }
            } else if class == PublicType::StreetCrossSection {
                let street = match required_relation(
                    take_slot(&mut slots, 6),
                    "cross_section",
                    "cross_section.street",
                ) {
                    Err(e) => {
                        return Err(e);
                    },
                    Ok(r) => r,
                };
                match culvert_code(take_slot(&mut slots, 3)) {
                    Err(e) => Err(e),
                    Ok(code) => Ok(NativeCrossSection::Street(street, code)),
                }
            } else {
                Err(not_declared("cross_section"))
            }
        },
        _ => Err(not_declared("cross_section")),
    }
}

/// One detached outlet rating declaration.
pub open spec fn spec_extract_outlet_rating(value: PyValue) -> Result<NativeOutletRating, Refusal> {
    match value {
        PyValue::Declaration { class, attributes } => {
            let a = attributes@;
            if class == PublicType::FunctionalOutletRating {
                match spec_attribute(a, "coefficient"@) {
                    None => spec_not_declared("rating"@),
                    Some(c) => match spec_lenient_number(c, "rating.coefficient"@) {
                        Err(m) => Err(Refusal::Detail(m)),
                        Ok(coefficient) => match spec_attribute(a, "exponent"@) {
                            None => spec_not_declared("rating"@),
                            Some(x) => match spec_lenient_number(x, "rating.exponent"@) {
                                Err(m) => Err(Refusal::Detail(m)),
                                Ok(exponent) => match spec_attribute(a, "head_basis"@) {
                                    None => spec_not_declared("rating"@),
                                    Some(h) => match spec_extract_outlet_head_basis(h) {
                                        Err(m) => Err(Refusal::Detail(m)),
                                        Ok(basis) => Ok(
                                            NativeOutletRating::Functional(coefficient, exponent, basis),
                                        ),
                                    },
                                },
                            },
                        },
                    },
                }
            } else if class == PublicType::TabularOutletRating {
                match spec_required_relation(spec_attribute(a, "curve"@), "rating"@, "rating.curve"@) {
                    Err(r) => Err(r),
                    Ok(curve) => match spec_attribute(a, "head_basis"@) {
                        None => spec_not_declared("rating"@),
                        Some(h) => match spec_extract_outlet_head_basis(h) {
                            Err(m) => Err(Refusal::Detail(m)),
                            Ok(basis) => Ok(NativeOutletRating::Tabular(curve, basis)),
                        },
                    },
                }
            } else {
                spec_not_declared("rating"@)
            }
        },
        _ => spec_not_declared("rating"@),
    }
}

/// An outlet rating is the one that its declaration's class names, and keeps each declared
/// attribute in its own place: a functional rating its `coefficient`, `exponent` and `head_basis`
/// in that order; a tabular one its `curve` and `head_basis`.
pub proof fn lemma_outlet_rating_keeps_each_attribute(class: PublicType, attributes: Vec<(String, PyValue)>)
    ensures
        spec_extract_outlet_rating(PyValue::Declaration { class, attributes }) is Ok ==> {
            let x = spec_extract_outlet_rating(PyValue::Declaration { class, attributes })->Ok_0;
            let a = attributes@;
            &&& spec_attribute(a, "head_basis"@) is Some
            &&& spec_extract_outlet_head_basis(spec_attribute(a, "head_basis"@)->0) is Ok
            &&& match x {
                NativeOutletRating::Functional(coefficient, exponent, basis) => {
                    &&& class == PublicType::FunctionalOutletRating
                    &&& spec_attribute(a, "coefficient"@) is Some
                    &&& spec_attribute(a, "exponent"@) is Some
                    &&& spec_lenient_number(spec_attribute(a, "coefficient"@)->0, "rating.coefficient"@)
                        == Ok::<Number, Seq<char>>(coefficient)
                    &&& spec_lenient_number(spec_attribute(a, "exponent"@)->0, "rating.exponent"@)
                        == Ok::<Number, Seq<char>>(exponent)
                    &&& spec_extract_outlet_head_basis(spec_attribute(a, "head_basis"@)->0)->Ok_0 == basis
                },
                NativeOutletRating::Tabular(curve, basis) => {
                    &&& class == PublicType::TabularOutletRating
                    &&& spec_required_relation(spec_attribute(a, "curve"@), "rating"@, "rating.curve"@)
                        == Ok::<RelatedObject, Refusal>(curve)
                    &&& spec_extract_outlet_head_basis(spec_attribute(a, "head_basis"@)->0)->Ok_0 == basis
                },
            }
        },
{
}

/// Extracts one detached outlet rating declaration.
pub fn extract_outlet_rating(value: PyValue) -> (result: Result<NativeOutletRating, NativeError>)
    ensures
        spec_refusal_outcome(result, spec_extract_outlet_rating(value), "update_link_settings"),
{
    let operation = "update_link_settings";
    match value {
        PyValue::Declaration { class, attributes } => {
            let names: Vec<&'static str> = vec!["coefficient", "exponent", "head_basis", "curve"];
            proof {
                reveal_strlit("coefficient");
                reveal_strlit("exponent");
                reveal_strlit("head_basis");
                reveal_strlit("curve");
                assert(names@[0]@ == "coefficient"@);
                assert(names@[1]@ == "exponent"@);
                assert(names@[2]@ == "head_basis"@);
                assert(names@[3]@ == "curve"@);
                assert(names@[0]@.len() != names@[1]@.len());
                assert(names@[0]@ != names@[1]@);
                assert(names@[0]@.len() != names@[2]@.len());
                assert(names@[0]@ != names@[2]@);
                assert(names@[0]@.len() != names@[3]@.len());
                assert(names@[0]@ != names@[3]@);
                assert(names@[1]@.len() != names@[2]@.len());
                assert(names@[1]@ != names@[2]@);
                assert(names@[1]@.len() != names@[3]@.len());
                assert(names@[1]@ != names@[3]@);
                assert(names@[2]@.len() != names@[3]@.len());
                assert(names@[2]@ != names@[3]@);
                assert(forall|i: int, j: int|
                    0 <= i < j < names@.len() ==> (#[trigger] names@[i])@ != (#[trigger] names@[j])@);
            }
            let mut slots = take_attributes(attributes, &names);
            if class == PublicType::FunctionalOutletRating {
                let coefficient = match take_slot(&mut slots, 0) {
                    None => {
                        return Err(not_declared("rating"));
                    },
                    Some(c) => match link_float(&c, "rating.coefficient", operation) {
                        Err(e) => {
                            return Err(e);
                        },
                        Ok(n) => n,
                    },
                };
                let exponent = match take_slot(&mut slots, 1) {
                    None => {
                        return Err(not_declared("rating"));
                    },
                    Some(x) => match link_float(&x, "rating.exponent", operation) {
                        Err(e) => {
                            return Err(e);
                        },
                        Ok(n) => n,
                    },
                };
                match take_slot(&mut slots, 2) {
                    None => Err(not_declared("rating")),
                    Some(h) => match extract_outlet_head_basis(&h) {
                        Err(e) => Err(e),
                        Ok(basis) => Ok(NativeOutletRating::Functional(coefficient, exponent, basis)),
                    },
                }
            } else if class == PublicType::TabularOutletRating {
                let curve = match required_relation(take_slot(&mut slots, 3), "rating", "rating.curve") {
                    Err(e) => {
                        return Err(e);
                    },
                    Ok(r) => r,
                };
                match take_slot(&mut slots, 2) {
                    None => Err(not_declared("rating")),
                    Some(h) => match extract_outlet_head_basis(&h) {
                        Err(e) => Err(e),
                        Ok(basis) => Ok(NativeOutletRating::Tabular(curve, basis)),
                    },
                }
            } else {
                Err(not_declared("rating"))
            }
        },
        _ => Err(not_declared("rating")),
    }
}

/// A sparse conduit update.
#[derive(Clone, Copy, Debug)]
pub struct ConduitPatch {
    pub length: Option<Number>,
    pub roughness: Option<Number>,
    pub barrels: Option<u8>,
}

/// A sparse pump update.
#[derive(Clone, Copy, Debug)]
pub struct PumpUpdate {
    pub initial_setting: Option<Number>,
    pub startup_depth: Option<Number>,
    pub shutoff_depth: Option<Number>,
}

/// A sparse orifice update.
#[derive(Clone, Copy, Debug)]
pub struct OrificeUpdate {
    pub kind: Option<OrificeType>,
    pub discharge_coefficient: Option<Number>,
    pub opening_time_hours: Option<Number>,
}

/// A sparse weir update; the coefficient curve is a resolved curve index, or `None` to clear it.
#[derive(Clone, Copy, Debug)]
pub struct WeirUpdate {
    pub kind: Option<WeirType>,
    pub discharge_coefficient: Option<Number>,
    pub end_discharge_coefficient: Option<Number>,
    pub end_contractions: Option<Number>,
    pub can_surcharge: Option<bool>,
    pub roadway_width: Option<Number>,
    pub roadway_surface: Option<RoadSurface>,
    pub coefficient_curve_index: Option<Option<usize>>,
}

/// A sparse weir update whose coefficient curve is not resolved yet.
#[derive(Debug)]
pub struct NativeWeirUpdate {
    pub update: WeirUpdate,
    pub coefficient_curve: Option<Option<RelatedObject>>,
}

/// A resolved outlet rating.
#[derive(Clone, Copy, Debug)]
pub enum OutletRating {
    Functional { coefficient: Number, exponent: Number, head_basis: OutletHeadBasis },
    Tabular { curve_index: usize, head_basis: OutletHeadBasis },
}

/// A sparse outlet update.
#[derive(Clone, Copy, Debug)]
pub struct OutletUpdate {
    pub rating: Option<OutletRating>,
}

/// A resolved conduit cross section.
#[derive(Clone, Copy, Debug)]
pub enum CrossSectionConfiguration {
    Circular { diameter: Number },
    Standard { shape: XsectType, geometry: Geometry, culvert_code: usize },
    Custom { shape_curve_index: usize, full_depth: Number, culvert_code: usize },
    Irregular { transect_index: usize, culvert_code: usize },
    Street { street_index: usize, culvert_code: usize },
}

/// The resolved settings of one concrete link subtype.
#[derive(Clone, Copy, Debug)]
pub enum LinkSubtypePatch {
    Conduit(ConduitPatch),
    Pump(PumpUpdate),
    Orifice(OrificeUpdate),
    Weir(WeirUpdate),
    Outlet(OutletUpdate),
}

/// A sparse, resolved link settings patch.
#[derive(Debug)]
pub struct LinkPatch {
    pub tag: Option<String>,
    pub inlet_node_index: Option<usize>,
    pub outlet_node_index: Option<usize>,
    pub inlet_offset: Option<Number>,
    pub outlet_offset: Option<Number>,
    pub included_in_report: Option<bool>,
    pub initial_flow: Option<Number>,
    pub inlet_loss_coefficient: Option<Number>,
    pub outlet_loss_coefficient: Option<Number>,
    pub average_loss_coefficient: Option<Number>,
    pub seepage_rate: Option<Number>,
    pub has_flap_gate: Option<bool>,
    pub cross_section: Option<CrossSectionConfiguration>,
    pub subtype: Option<LinkSubtypePatch>,
}

/// Every supplied link setting, with its related objects not resolved yet.
#[derive(Debug)]
pub struct LinkUpdate {
    pub patch: LinkPatch,
    pub inlet_node: Option<RelatedObject>,
    pub outlet_node: Option<RelatedObject>,
    pub conduit: Option<ConduitPatch>,
    pub cross_section: Option<NativeCrossSection>,
    pub pump: Option<PumpUpdate>,
    pub orifice: Option<OrificeUpdate>,
    pub weir: Option<NativeWeirUpdate>,
    pub outlet: Option<NativeOutletRating>,
}

/// The empty conduit update.
pub open spec fn spec_empty_conduit() -> ConduitPatch {
    ConduitPatch { length: None, roughness: None, barrels: None }
}

/// The empty pump update.
pub open spec fn spec_empty_pump() -> PumpUpdate {
    PumpUpdate { initial_setting: None, startup_depth: None, shutoff_depth: None }
}

/// The empty orifice update.
pub open spec fn spec_empty_orifice() -> OrificeUpdate {
    OrificeUpdate { kind: None, discharge_coefficient: None, opening_time_hours: None }
}

/// The empty weir update.
pub open spec fn spec_empty_weir() -> NativeWeirUpdate {
    NativeWeirUpdate {
        update: WeirUpdate {
            kind: None,
            discharge_coefficient: None,
            end_discharge_coefficient: None,
            end_contractions: None,
            can_surcharge: None,
            roadway_width: None,
            roadway_surface: None,
            coefficient_curve_index: None,
        },
        coefficient_curve: None,
    }
}

/// The empty link update.
pub open spec fn spec_empty_link_update() -> LinkUpdate {
    LinkUpdate {
        patch: LinkPatch {
            tag: None,
            inlet_node_index: None,
            outlet_node_index: None,
            inlet_offset: None,
            outlet_offset: None,
            included_in_report: None,
            initial_flow: None,
            inlet_loss_coefficient: None,
            outlet_loss_coefficient: None,
            average_loss_coefficient: None,
            seepage_rate: None,
            has_flap_gate: None,
            cross_section: None,
            subtype: None,
        },
        inlet_node: None,
        outlet_node: None,
        conduit: None,
        cross_section: None,
        pump: None,
        orifice: None,
        weir: None,
        outlet: None,
    }
}

/// The conduit update so far, or an empty one.
pub open spec fn spec_conduit_or_default(conduit: Option<ConduitPatch>) -> ConduitPatch {
    match conduit {
        Some(c) => c,
        None => spec_empty_conduit(),
    }
}

/// The pump update so far, or an empty one.
pub open spec fn spec_pump_or_default(pump: Option<PumpUpdate>) -> PumpUpdate {
    match pump {
        Some(p) => p,
        None => spec_empty_pump(),
    }
}

/// The orifice update so far, or an empty one.
pub open spec fn spec_orifice_or_default(orifice: Option<OrificeUpdate>) -> OrificeUpdate {
    match orifice {
        Some(o) => o,
        None => spec_empty_orifice(),
    }
}

/// The weir update so far, or an empty one.
pub open spec fn spec_weir_or_default(weir: Option<NativeWeirUpdate>) -> NativeWeirUpdate {
    match weir {
        Some(w) => w,
        None => spec_empty_weir(),
    }
}

/// `update` with one supplied `(key, value)` setting of a link of `subtype` applied.
pub open spec fn spec_apply_link_change(
    subtype: Seq<char>,
    u: LinkUpdate,
    key: Option<String>,
    value: PyValue,
) -> Result<LinkUpdate, Refusal> {
    match key {
        None => Err(Refusal::Detail("link settings fields must be strings"@)),
        Some(k) => {
            let name = k@;
            if name == "tag"@ {
                match spec_text(value) {
                    None => Err(Refusal::Detail("tag must be str"@)),
                    Some(v) => Ok(LinkUpdate { patch: LinkPatch { tag: Some(v), ..u.patch }, ..u }),
                }
            } else if name == "inlet_node"@ {
                match spec_related(value) {
                    Err(e) => Err(Refusal::Raised(e)),
                Ok(None) => Err(Refusal::Detail("inlet_node must be Node"@)),
                    Ok(Some(v)) => Ok(LinkUpdate { inlet_node: Some(v), ..u }),
                }
            } else if name == "outlet_node"@ {
                match spec_related(value) {
                    Err(e) => Err(Refusal::Raised(e)),
                Ok(None) => Err(Refusal::Detail("outlet_node must be Node"@)),
                    Ok(Some(v)) => Ok(LinkUpdate { outlet_node: Some(v), ..u }),
                }
            } else if name == "inlet_offset"@ {
                match spec_lenient_number(value, "inlet_offset"@) {
                    Err(d) => Err(Refusal::Detail(d)),
                    Ok(v) => Ok(LinkUpdate { patch: LinkPatch { inlet_offset: Some(v), ..u.patch }, ..u }),
                }
            } else if name == "outlet_offset"@ {
                match spec_lenient_number(value, "outlet_offset"@) {
                    Err(d) => Err(Refusal::Detail(d)),
                    Ok(v) => Ok(LinkUpdate { patch: LinkPatch { outlet_offset: Some(v), ..u.patch }, ..u }),
                }
            } else if name == "included_in_report"@ {
                match spec_strict_bool(value, "included_in_report"@) {
                    Err(d) => Err(Refusal::Detail(d)),
                    Ok(v) => Ok(LinkUpdate { patch: LinkPatch { included_in_report: Some(v), ..u.patch }, ..u }),
                }
            } else if name == "initial_flow"@ {
                match spec_lenient_number(value, "initial_flow"@) {
                    Err(d) => Err(Refusal::Detail(d)),
                    Ok(v) => Ok(LinkUpdate { patch: LinkPatch { initial_flow: Some(v), ..u.patch }, ..u }),
                }
            } else if name == "inlet_loss_coefficient"@ {
                match spec_lenient_number(value, "inlet_loss_coefficient"@) {
                    Err(d) => Err(Refusal::Detail(d)),
                    Ok(v) => Ok(LinkUpdate { patch: LinkPatch { inlet_loss_coefficient: Some(v), ..u.patch }, ..u }),
                }
            } else if name == "outlet_loss_coefficient"@ {
                match spec_lenient_number(value, "outlet_loss_coefficient"@) {
                    Err(d) => Err(Refusal::Detail(d)),
                    Ok(v) => Ok(LinkUpdate { patch: LinkPatch { outlet_loss_coefficient: Some(v), ..u.patch }, ..u }),
                }
            } else if name == "average_loss_coefficient"@ {
                match spec_lenient_number(value, "average_loss_coefficient"@) {
                    Err(d) => Err(Refusal::Detail(d)),
                    Ok(v) => Ok(LinkUpdate { patch: LinkPatch { average_loss_coefficient: Some(v), ..u.patch }, ..u }),
                }
            } else if name == "seepage_rate"@ {
                match spec_lenient_number(value, "seepage_rate"@) {
                    Err(d) => Err(Refusal::Detail(d)),
                    Ok(v) => Ok(LinkUpdate { patch: LinkPatch { seepage_rate: Some(v), ..u.patch }, ..u }),
                }
            } else if name == "has_flap_gate"@ {
                match spec_strict_bool(value, "has_flap_gate"@) {
                    Err(d) => Err(Refusal::Detail(d)),
                    Ok(v) => Ok(LinkUpdate { patch: LinkPatch { has_flap_gate: Some(v), ..u.patch }, ..u }),
                }
            } else if name == "length"@ && subtype == "conduit"@ {
                match spec_lenient_number(value, "length"@) {
                    Err(d) => Err(Refusal::Detail(d)),
                    Ok(v) => Ok(LinkUpdate { conduit: Some(ConduitPatch { length: Some(v), ..spec_conduit_or_default(u.conduit) }), ..u }),
                }
            } else if name == "roughness"@ && subtype == "conduit"@ {
                match spec_lenient_number(value, "roughness"@) {
                    Err(d) => Err(Refusal::Detail(d)),
                    Ok(v) => Ok(LinkUpdate { conduit: Some(ConduitPatch { roughness: Some(v), ..spec_conduit_or_default(u.conduit) }), ..u }),
                }
            } else if name == "barrels"@ && subtype == "conduit"@ {
                match spec_barrels(value) {
                    Err(d) => Err(Refusal::Detail(d)),
                    Ok(v) => Ok(LinkUpdate { conduit: Some(ConduitPatch { barrels: Some(v), ..spec_conduit_or_default(u.conduit) }), ..u }),
                }
            } else if name == "cross_section"@ && subtype == "conduit"@ {
                match spec_extract_cross_section(value) {
                    Err(r) => Err(r),
                    Ok(v) => Ok(LinkUpdate { cross_section: Some(v), ..u }),
                }
            } else if name == "initial_setting"@ && subtype == "pump"@ {
                match spec_lenient_number(value, "initial_setting"@) {
                    Err(d) => Err(Refusal::Detail(d)),
                    Ok(v) => Ok(LinkUpdate { pump: Some(PumpUpdate { initial_setting: Some(v), ..spec_pump_or_default(u.pump) }), ..u }),
                }
            } else if name == "startup_depth"@ && subtype == "pump"@ {
                match spec_lenient_number(value, "startup_depth"@) {
                    Err(d) => Err(Refusal::Detail(d)),
                    Ok(v) => Ok(LinkUpdate { pump: Some(PumpUpdate { startup_depth: Some(v), ..spec_pump_or_default(u.pump) }), ..u }),
                }
            } else if name == "shutoff_depth"@ && subtype == "pump"@ {
                match spec_lenient_number(value, "shutoff_depth"@) {
                    Err(d) => Err(Refusal::Detail(d)),
                    Ok(v) => Ok(LinkUpdate { pump: Some(PumpUpdate { shutoff_depth: Some(v), ..spec_pump_or_default(u.pump) }), ..u }),
                }
            } else if name == "kind"@ && subtype == "orifice"@ {
                match spec_extract_orifice_kind(value) {
                    Err(d) => Err(Refusal::Detail(d)),
                    Ok(v) => Ok(LinkUpdate { orifice: Some(OrificeUpdate { kind: Some(v), ..spec_orifice_or_default(u.orifice) }), ..u }),
                }
            } else if name == "discharge_coefficient"@ && subtype == "orifice"@ {
                match spec_lenient_number(value, "discharge_coefficient"@) {
                    Err(d) => Err(Refusal::Detail(d)),
                    Ok(v) => Ok(LinkUpdate { orifice: Some(OrificeUpdate { discharge_coefficient: Some(v), ..spec_orifice_or_default(u.orifice) }), ..u }),
                }
            } else if name == "opening_time_hours"@ && subtype == "orifice"@ {
                match spec_lenient_number(value, "opening_time_hours"@) {
                    Err(d) => Err(Refusal::Detail(d)),
                    Ok(v) => Ok(LinkUpdate { orifice: Some(OrificeUpdate { opening_time_hours: Some(v), ..spec_orifice_or_default(u.orifice) }), ..u }),
                }
            } else if name == "kind"@ && subtype == "weir"@ {
                match spec_extract_weir_kind(value) {
                    Err(d) => Err(Refusal::Detail(d)),
                    Ok(v) => Ok(LinkUpdate {
                    weir: Some(
                        NativeWeirUpdate {
                            update: WeirUpdate { kind: Some(v), ..spec_weir_or_default(u.weir).update },
                            ..spec_weir_or_default(u.weir)
                        },
                    ),
                    ..u
                }),
                }
            } else if name == "discharge_coefficient"@ && subtype == "weir"@ {
                match spec_lenient_number(value, "discharge_coefficient"@) {
                    Err(d) => Err(Refusal::Detail(d)),
                    Ok(v) => Ok(LinkUpdate {
                    weir: Some(
                        NativeWeirUpdate {
                            update: WeirUpdate { discharge_coefficient: Some(v), ..spec_weir_or_default(u.weir).update },
                            ..spec_weir_or_default(u.weir)
                        },
                    ),
                    ..u
                }),
                }
            } else if name == "end_discharge_coefficient"@ && subtype == "weir"@ {
                match spec_lenient_number(value, "end_discharge_coefficient"@) {
                    Err(d) => Err(Refusal::Detail(d)),
                    Ok(v) => Ok(LinkUpdate {
                    weir: Some(
                        NativeWeirUpdate {
                            update: WeirUpdate { end_discharge_coefficient: Some(v), ..spec_weir_or_default(u.weir).update },
                            ..spec_weir_or_default(u.weir)
                        },
                    ),
                    ..u
                }),
                }
            } else if name == "end_contractions"@ && subtype == "weir"@ {
                match spec_lenient_number(value, "end_contractions"@) {
                    Err(d) => Err(Refusal::Detail(d)),
                    Ok(v) => Ok(LinkUpdate {
                    weir: Some(
                        NativeWeirUpdate {
                            update: WeirUpdate { end_contractions: Some(v), ..spec_weir_or_default(u.weir).update },
                            ..spec_weir_or_default(u.weir)
                        },
                    ),
                    ..u
                }),
                }
            } else if name == "can_surcharge"@ && subtype == "weir"@ {
                match spec_strict_bool(value, "can_surcharge"@) {
                    Err(d) => Err(Refusal::Detail(d)),
                    Ok(v) => Ok(LinkUpdate {
                    weir: Some(
                        NativeWeirUpdate {
                            update: WeirUpdate { can_surcharge: Some(v), ..spec_weir_or_default(u.weir).update },
                            ..spec_weir_or_default(u.weir)
                        },
                    ),
                    ..u
                }),
                }
            } else if name == "roadway_width"@ && subtype == "weir"@ {
                match spec_lenient_number(value, "roadway_width"@) {
                    Err(d) => Err(Refusal::Detail(d)),
                    Ok(v) => Ok(LinkUpdate {
                    weir: Some(
                        NativeWeirUpdate {
                            update: WeirUpdate { roadway_width: Some(v), ..spec_weir_or_default(u.weir).update },
                            ..spec_weir_or_default(u.weir)
                        },
                    ),
                    ..u
                }),
                }
            } else if name == "roadway_surface"@ && subtype == "weir"@ {
                match spec_extract_road_surface(value) {
                    Err(d) => Err(Refusal::Detail(d)),
                    Ok(v) => Ok(LinkUpdate {
                    weir: Some(
                        NativeWeirUpdate {
                            update: WeirUpdate { roadway_surface: Some(v), ..spec_weir_or_default(u.weir).update },
                            ..spec_weir_or_default(u.weir)
                        },
                    ),
                    ..u
                }),
                }
            } else if name == "coefficient_curve"@ && subtype == "weir"@ {
                match spec_related(value) {
                    Err(e) => Err(Refusal::Raised(e)),
                    Ok(v) => Ok(LinkUpdate {
                    weir: Some(NativeWeirUpdate { coefficient_curve: Some(v), ..spec_weir_or_default(u.weir) }),
                    ..u
                }),
                }
            } else if name == "rating"@ && subtype == "outlet"@ {
                match spec_extract_outlet_rating(value) {
                    Err(r) => Err(r),
                    Ok(v) => Ok(LinkUpdate { outlet: Some(v), ..u }),
                }
            } else {
                Err(Refusal::Detail("unknown or read-only "@ + subtype + " link setting: "@ + name))
            }
        },
    }
}

/// Each supported link setting lands in its own field of the update, taking the value read from what was supplied for it, and nothing else changes.
pub proof fn lemma_link_settings_land_in_their_fields(subtype: Seq<char>, u: LinkUpdate)
    ensures
        forall|k: String, value: PyValue| k@ == "inlet_offset"@ && spec_lenient_number(value, "inlet_offset"@) is Ok ==> #[trigger] spec_apply_link_change(subtype, u, Some(k), value) == Ok::<LinkUpdate, Refusal>(LinkUpdate { patch: LinkPatch { inlet_offset: Some((spec_lenient_number(value, "inlet_offset"@)->Ok_0)), ..u.patch }, ..u }),
        forall|k: String, value: PyValue| k@ == "outlet_offset"@ && spec_lenient_number(value, "outlet_offset"@) is Ok ==> #[trigger] spec_apply_link_change(subtype, u, Some(k), value) == Ok::<LinkUpdate, Refusal>(LinkUpdate { patch: LinkPatch { outlet_offset: Some((spec_lenient_number(value, "outlet_offset"@)->Ok_0)), ..u.patch }, ..u }),
        forall|k: String, value: PyValue| k@ == "included_in_report"@ && spec_strict_bool(value, "included_in_report"@) is Ok ==> #[trigger] spec_apply_link_change(subtype, u, Some(k), value) == Ok::<LinkUpdate, Refusal>(LinkUpdate { patch: LinkPatch { included_in_report: Some((spec_strict_bool(value, "included_in_report"@)->Ok_0)), ..u.patch }, ..u }),
        forall|k: String, value: PyValue| k@ == "initial_flow"@ && spec_lenient_number(value, "initial_flow"@) is Ok ==> #[trigger] spec_apply_link_change(subtype, u, Some(k), value) == Ok::<LinkUpdate, Refusal>(LinkUpdate { patch: LinkPatch { initial_flow: Some((spec_lenient_number(value, "initial_flow"@)->Ok_0)), ..u.patch }, ..u }),
        forall|k: String, value: PyValue| k@ == "inlet_loss_coefficient"@ && spec_lenient_number(value, "inlet_loss_coefficient"@) is Ok ==> #[trigger] spec_apply_link_change(subtype, u, Some(k), value) == Ok::<LinkUpdate, Refusal>(LinkUpdate { patch: LinkPatch { inlet_loss_coefficient: Some((spec_lenient_number(value, "inlet_loss_coefficient"@)->Ok_0)), ..u.patch }, ..u }),
        forall|k: String, value: PyValue| k@ == "outlet_loss_coefficient"@ && spec_lenient_number(value, "outlet_loss_coefficient"@) is Ok ==> #[trigger] spec_apply_link_change(subtype, u, Some(k), value) == Ok::<LinkUpdate, Refusal>(LinkUpdate { patch: LinkPatch { outlet_loss_coefficient: Some((spec_lenient_number(value, "outlet_loss_coefficient"@)->Ok_0)), ..u.patch }, ..u }),
        forall|k: String, value: PyValue| k@ == "average_loss_coefficient"@ && spec_lenient_number(value, "average_loss_coefficient"@) is Ok ==> #[trigger] spec_apply_link_change(subtype, u, Some(k), value) == Ok::<LinkUpdate, Refusal>(LinkUpdate { patch: LinkPatch { average_loss_coefficient: Some((spec_lenient_number(value, "average_loss_coefficient"@)->Ok_0)), ..u.patch }, ..u }),
        forall|k: String, value: PyValue| k@ == "seepage_rate"@ && spec_lenient_number(value, "seepage_rate"@) is Ok ==> #[trigger] spec_apply_link_change(subtype, u, Some(k), value) == Ok::<LinkUpdate, Refusal>(LinkUpdate { patch: LinkPatch { seepage_rate: Some((spec_lenient_number(value, "seepage_rate"@)->Ok_0)), ..u.patch }, ..u }),
        forall|k: String, value: PyValue| k@ == "has_flap_gate"@ && spec_strict_bool(value, "has_flap_gate"@) is Ok ==> #[trigger] spec_apply_link_change(subtype, u, Some(k), value) == Ok::<LinkUpdate, Refusal>(LinkUpdate { patch: LinkPatch { has_flap_gate: Some((spec_strict_bool(value, "has_flap_gate"@)->Ok_0)), ..u.patch }, ..u }),
{
    assert forall|k: String, value: PyValue| k@ == "inlet_offset"@ && spec_lenient_number(value, "inlet_offset"@) is Ok implies #[trigger] spec_apply_link_change(subtype, u, Some(k), value) == Ok::<LinkUpdate, Refusal>(LinkUpdate { patch: LinkPatch { inlet_offset: Some((spec_lenient_number(value, "inlet_offset"@)->Ok_0)), ..u.patch }, ..u }) by {
        reveal_strlit("inlet_offset");
        reveal_strlit("tag");
        assert("inlet_offset"@.len() != "tag"@.len());
        reveal_strlit("inlet_node");
        assert("inlet_offset"@.len() != "inlet_node"@.len());
        reveal_strlit("outlet_node");
        assert("inlet_offset"@.len() != "outlet_node"@.len());
    }
    assert forall|k: String, value: PyValue| k@ == "outlet_offset"@ && spec_lenient_number(value, "outlet_offset"@) is Ok implies #[trigger] spec_apply_link_change(subtype, u, Some(k), value) == Ok::<LinkUpdate, Refusal>(LinkUpdate { patch: LinkPatch { outlet_offset: Some((spec_lenient_number(value, "outlet_offset"@)->Ok_0)), ..u.patch }, ..u }) by {
        reveal_strlit("outlet_offset");
        reveal_strlit("tag");
        assert("outlet_offset"@.len() != "tag"@.len());
        reveal_strlit("inlet_node");
        assert("outlet_offset"@.len() != "inlet_node"@.len());
        reveal_strlit("outlet_node");
        assert("outlet_offset"@.len() != "outlet_node"@.len());
        reveal_strlit("inlet_offset");
        assert("outlet_offset"@.len() != "inlet_offset"@.len());
    }
    assert forall|k: String, value: PyValue| k@ == "included_in_report"@ && spec_strict_bool(value, "included_in_report"@) is Ok implies #[trigger] spec_apply_link_change(subtype, u, Some(k), value) == Ok::<LinkUpdate, Refusal>(LinkUpdate { patch: LinkPatch { included_in_report: Some((spec_strict_bool(value, "included_in_report"@)->Ok_0)), ..u.patch }, ..u }) by {
        reveal_strlit("included_in_report");
        reveal_strlit("tag");
        assert("included_in_report"@.len() != "tag"@.len());
        reveal_strlit("inlet_node");
        assert("included_in_report"@.len() != "inlet_node"@.len());
        reveal_strlit("outlet_node");
        assert("included_in_report"@.len() != "outlet_node"@.len());
        reveal_strlit("inlet_offset");
        assert("included_in_report"@.len() != "inlet_offset"@.len());
        reveal_strlit("outlet_offset");
        assert("included_in_report"@.len() != "outlet_offset"@.len());
    }
    assert forall|k: String, value: PyValue| k@ == "initial_flow"@ && spec_lenient_number(value, "initial_flow"@) is Ok implies #[trigger] spec_apply_link_change(subtype, u, Some(k), value) == Ok::<LinkUpdate, Refusal>(LinkUpdate { patch: LinkPatch { initial_flow: Some((spec_lenient_number(value, "initial_flow"@)->Ok_0)), ..u.patch }, ..u }) by {
        reveal_strlit("initial_flow");
        reveal_strlit("tag");
        assert("initial_flow"@.len() != "tag"@.len());
        reveal_strlit("inlet_node");
        assert("initial_flow"@.len() != "inlet_node"@.len());
        reveal_strlit("outlet_node");
        assert("initial_flow"@.len() != "outlet_node"@.len());
        reveal_strlit("inlet_offset");
        assert("initial_flow"@ != "inlet_offset"@) by { assert("initial_flow"@[2] != "inlet_offset"@[2]); }
        reveal_strlit("outlet_offset");
        assert("initial_flow"@.len() != "outlet_offset"@.len());
        reveal_strlit("included_in_report");
        assert("initial_flow"@.len() != "included_in_report"@.len());
    }
    assert forall|k: String, value: PyValue| k@ == "inlet_loss_coefficient"@ && spec_lenient_number(value, "inlet_loss_coefficient"@) is Ok implies #[trigger] spec_apply_link_change(subtype, u, Some(k), value) == Ok::<LinkUpdate, Refusal>(LinkUpdate { patch: LinkPatch { inlet_loss_coefficient: Some((spec_lenient_number(value, "inlet_loss_coefficient"@)->Ok_0)), ..u.patch }, ..u }) by {
        reveal_strlit("inlet_loss_coefficient");
        reveal_strlit("tag");
        assert("inlet_loss_coefficient"@.len() != "tag"@.len());
        reveal_strlit("inlet_node");
        assert("inlet_loss_coefficient"@.len() != "inlet_node"@.len());
        reveal_strlit("outlet_node");
        assert("inlet_loss_coefficient"@.len() != "outlet_node"@.len());
        reveal_strlit("inlet_offset");
        assert("inlet_loss_coefficient"@.len() != "inlet_offset"@.len());
        reveal_strlit("outlet_offset");
        assert("inlet_loss_coefficient"@.len() != "outlet_offset"@.len());
        reveal_strlit("included_in_report");
        assert("inlet_loss_coefficient"@.len() != "included_in_report"@.len());
        reveal_strlit("initial_flow");
        assert("inlet_loss_coefficient"@.len() != "initial_flow"@.len());
    }
    assert forall|k: String, value: PyValue| k@ == "outlet_loss_coefficient"@ && spec_lenient_number(value, "outlet_loss_coefficient"@) is Ok implies #[trigger] spec_apply_link_change(subtype, u, Some(k), value) == Ok::<LinkUpdate, Refusal>(LinkUpdate { patch: LinkPatch { outlet_loss_coefficient: Some((spec_lenient_number(value, "outlet_loss_coefficient"@)->Ok_0)), ..u.patch }, ..u }) by {
        reveal_strlit("outlet_loss_coefficient");
        reveal_strlit("tag");
        assert("outlet_loss_coefficient"@.len() != "tag"@.len());
        reveal_strlit("inlet_node");
        assert("outlet_loss_coefficient"@.len() != "inlet_node"@.len());
        reveal_strlit("outlet_node");
        assert("outlet_loss_coefficient"@.len() != "outlet_node"@.len());
        reveal_strlit("inlet_offset");
        assert("outlet_loss_coefficient"@.len() != "inlet_offset"@.len());
        reveal_strlit("outlet_offset");
        assert("outlet_loss_coefficient"@.len() != "outlet_offset"@.len());
        reveal_strlit("included_in_report");
        assert("outlet_loss_coefficient"@.len() != "included_in_report"@.len());
        reveal_strlit("initial_flow");
        assert("outlet_loss_coefficient"@.len() != "initial_flow"@.len());
        reveal_strlit("inlet_loss_coefficient");
        assert("outlet_loss_coefficient"@.len() != "inlet_loss_coefficient"@.len());
    }
    assert forall|k: String, value: PyValue| k@ == "average_loss_coefficient"@ && spec_lenient_number(value, "average_loss_coefficient"@) is Ok implies #[trigger] spec_apply_link_change(subtype, u, Some(k), value) == Ok::<LinkUpdate, Refusal>(LinkUpdate { patch: LinkPatch { average_loss_coefficient: Some((spec_lenient_number(value, "average_loss_coefficient"@)->Ok_0)), ..u.patch }, ..u }) by {
        reveal_strlit("average_loss_coefficient");
        reveal_strlit("tag");
        assert("average_loss_coefficient"@.len() != "tag"@.len());
        reveal_strlit("inlet_node");
        assert("average_loss_coefficient"@.len() != "inlet_node"@.len());
        reveal_strlit("outlet_node");
        assert("average_loss_coefficient"@.len() != "outlet_node"@.len());
        reveal_strlit("inlet_offset");
        assert("average_loss_coefficient"@.len() != "inlet_offset"@.len());
        reveal_strlit("outlet_offset");
        assert("average_loss_coefficient"@.len() != "outlet_offset"@.len());
        reveal_strlit("included_in_report");
        assert("average_loss_coefficient"@.len() != "included_in_report"@.len());
        reveal_strlit("initial_flow");
        assert("average_loss_coefficient"@.len() != "initial_flow"@.len());
        reveal_strlit("inlet_loss_coefficient");
        assert("average_loss_coefficient"@.len() != "inlet_loss_coefficient"@.len());
        reveal_strlit("outlet_loss_coefficient");
        assert("average_loss_coefficient"@.len() != "outlet_loss_coefficient"@.len());
    }
    assert forall|k: String, value: PyValue| k@ == "seepage_rate"@ && spec_lenient_number(value, "seepage_rate"@) is Ok implies #[trigger] spec_apply_link_change(subtype, u, Some(k), value) == Ok::<LinkUpdate, Refusal>(LinkUpdate { patch: LinkPatch { seepage_rate: Some((spec_lenient_number(value, "seepage_rate"@)->Ok_0)), ..u.patch }, ..u }) by {
        reveal_strlit("seepage_rate");
        reveal_strlit("tag");
        assert("seepage_rate"@.len() != "tag"@.len());
        reveal_strlit("inlet_node");
        assert("seepage_rate"@.len() != "inlet_node"@.len());
        reveal_strlit("outlet_node");
        assert("seepage_rate"@.len() != "outlet_node"@.len());
        reveal_strlit("inlet_offset");
        assert("seepage_rate"@ != "inlet_offset"@) by { assert("seepage_rate"@[0] != "inlet_offset"@[0]); }
        reveal_strlit("outlet_offset");
        assert("seepage_rate"@.len() != "outlet_offset"@.len());
        reveal_strlit("included_in_report");
        assert("seepage_rate"@.len() != "included_in_report"@.len());
        reveal_strlit("initial_flow");
        assert("seepage_rate"@ != "initial_flow"@) by { assert("seepage_rate"@[0] != "initial_flow"@[0]); }
        reveal_strlit("inlet_loss_coefficient");
        assert("seepage_rate"@.len() != "inlet_loss_coefficient"@.len());
        reveal_strlit("outlet_loss_coefficient");
        assert("seepage_rate"@.len() != "outlet_loss_coefficient"@.len());
        reveal_strlit("average_loss_coefficient");
        assert("seepage_rate"@.len() != "average_loss_coefficient"@.len());
    }
    assert forall|k: String, value: PyValue| k@ == "has_flap_gate"@ && spec_strict_bool(value, "has_flap_gate"@) is Ok implies #[trigger] spec_apply_link_change(subtype, u, Some(k), value) == Ok::<LinkUpdate, Refusal>(LinkUpdate { patch: LinkPatch { has_flap_gate: Some((spec_strict_bool(value, "has_flap_gate"@)->Ok_0)), ..u.patch }, ..u }) by {
        reveal_strlit("has_flap_gate");
        reveal_strlit("tag");
        assert("has_flap_gate"@.len() != "tag"@.len());
        reveal_strlit("inlet_node");
        assert("has_flap_gate"@.len() != "inlet_node"@.len());
        reveal_strlit("outlet_node");
        assert("has_flap_gate"@.len() != "outlet_node"@.len());
        reveal_strlit("inlet_offset");
        assert("has_flap_gate"@.len() != "inlet_offset"@.len());
        reveal_strlit("outlet_offset");
        assert("has_flap_gate"@ != "outlet_offset"@) by { assert("has_flap_gate"@[0] != "outlet_offset"@[0]); }
        reveal_strlit("included_in_report");
        assert("has_flap_gate"@.len() != "included_in_report"@.len());
        reveal_strlit("initial_flow");
        assert("has_flap_gate"@.len() != "initial_flow"@.len());
        reveal_strlit("inlet_loss_coefficient");
        assert("has_flap_gate"@.len() != "inlet_loss_coefficient"@.len());
        reveal_strlit("outlet_loss_coefficient");
        assert("has_flap_gate"@.len() != "outlet_loss_coefficient"@.len());
        reveal_strlit("average_loss_coefficient");
        assert("has_flap_gate"@.len() != "average_loss_coefficient"@.len());
        reveal_strlit("seepage_rate");
        assert("has_flap_gate"@.len() != "seepage_rate"@.len());
    }
}

/// The update built from the first `n` supplied settings of a link of `subtype`.
pub open spec fn spec_link_update(
    subtype: Seq<char>,
    changes: Seq<(Option<String>, PyValue)>,
    n: int,
) -> Result<LinkUpdate, Refusal>
    decreases n,
{
    if n <= 0 {
        Ok(spec_empty_link_update())
    } else {
        match spec_link_update(subtype, changes, n - 1) {
            Err(r) => Err(r),
            Ok(u) => spec_apply_link_change(subtype, u, changes[n - 1].0, changes[n - 1].1),
        }
    }
}

/// Once a setting is refused, every longer prefix is refused the same way.
pub proof fn lemma_link_update_refusal(
    subtype: Seq<char>,
    changes: Seq<(Option<String>, PyValue)>,
    i: int,
    n: int,
)
    requires
        0 <= i <= n,
        spec_link_update(subtype, changes, i) is Err,
    ensures
        spec_link_update(subtype, changes, n) == spec_link_update(subtype, changes, i),
    decreases n - i,
{
    if n > i {
        lemma_link_update_refusal(subtype, changes, i, n - 1);
    }
}

/// Creates the empty link update.
fn empty_link_update() -> (update: LinkUpdate)
    ensures
        update == spec_empty_link_update(),
{
    LinkUpdate {
        patch: LinkPatch {
            tag: None,
            inlet_node_index: None,
            outlet_node_index: None,
            inlet_offset: None,
            outlet_offset: None,
            included_in_report: None,
            initial_flow: None,
            inlet_loss_coefficient: None,
            outlet_loss_coefficient: None,
            average_loss_coefficient: None,
            seepage_rate: None,
            has_flap_gate: None,
            cross_section: None,
            subtype: None,
        },
        inlet_node: None,
        outlet_node: None,
        conduit: None,
        cross_section: None,
        pump: None,
        orifice: None,
        weir: None,
        outlet: None,
    }
}

/// Returns the conduit update so far, or an empty one.
fn conduit_or_default(conduit: Option<ConduitPatch>) -> (c: ConduitPatch)
    ensures
        c == spec_conduit_or_default(conduit),
{
    match conduit {
        Some(c) => c,
        None => ConduitPatch { length: None, roughness: None, barrels: None },
    }
}

/// Returns the pump update so far, or an empty one.
fn pump_or_default(pump: Option<PumpUpdate>) -> (p: PumpUpdate)
    ensures
        p == spec_pump_or_default(pump),
{
    match pump {
        Some(p) => p,
        None => PumpUpdate { initial_setting: None, startup_depth: None, shutoff_depth: None },
    }
}

/// Returns the orifice update so far, or an empty one.
fn orifice_or_default(orifice: Option<OrificeUpdate>) -> (o: OrificeUpdate)
    ensures
        o == spec_orifice_or_default(orifice),
{
    match orifice {
        Some(o) => o,
        None => OrificeUpdate { kind: None, discharge_coefficient: None, opening_time_hours: None },
    }
}

/// Returns the weir update so far, or an empty one.
fn weir_or_default(weir: Option<NativeWeirUpdate>) -> (w: NativeWeirUpdate)
    ensures
        w == spec_weir_or_default(weir),
{
    match weir {
        Some(w) => w,
        None => NativeWeirUpdate {
            update: WeirUpdate {
                kind: None,
                discharge_coefficient: None,
                end_discharge_coefficient: None,
                end_contractions: None,
                can_surcharge: None,
                roadway_width: None,
                roadway_surface: None,
                coefficient_curve_index: None,
            },
            coefficient_curve: None,
        },
    }
}

/// Applies one supplied `(key, value)` setting of a link of `subtype` to `update`.
fn apply_link_change(subtype: &str, update: LinkUpdate, key: Option<String>, value: PyValue) -> (result:
    Result<LinkUpdate, NativeError>)
    ensures
        spec_refusal_outcome(
            result,
            spec_apply_link_change(subtype@, update, key, value),
            "update_link_settings",
        ),
{
    let operation = "update_link_settings";
    let name = match key {
        Some(k) => k,
        None => {
            return Err(link_py_error(operation, String::from_str("link settings fields must be strings")));
        },
    };
    let n = name.as_str();
    let mut u = update;
    if str_eq(n, "tag") {
        let v = match text(value) {
            Some(t) => t,
            None => {
                return Err(link_py_error(operation, String::from_str("tag must be str")));
            },
        };
        u.patch.tag = Some(v);
        return Ok(u);
    }
    if str_eq(n, "inlet_node") {
        let v = match related_live_view(value) {
            Err(e) => {
                return Err(e);
            },
            Ok(None) => {
                return Err(link_py_error(operation, String::from_str("inlet_node must be Node")));
            },
            Ok(Some(r)) => r,
        };
        u.inlet_node = Some(v);
        return Ok(u);
    }
    if str_eq(n, "outlet_node") {
        let v = match related_live_view(value) {
            Err(e) => {
                return Err(e);
            },
            Ok(None) => {
                return Err(link_py_error(operation, String::from_str("outlet_node must be Node")));
            },
            Ok(Some(r)) => r,
        };
        u.outlet_node = Some(v);
        return Ok(u);
    }
    if str_eq(n, "inlet_offset") {
        let v = match link_float(&value, n, operation) {
            Err(e) => {
                return Err(e);
            },
            Ok(v) => v,
        };
        u.patch.inlet_offset = Some(v);
        return Ok(u);
    }
    if str_eq(n, "outlet_offset") {
        let v = match link_float(&value, n, operation) {
            Err(e) => {
                return Err(e);
            },
            Ok(v) => v,
        };
        u.patch.outlet_offset = Some(v);
        return Ok(u);
    }
    if str_eq(n, "included_in_report") {
        let v = match link_bool(&value, n, operation) {
            Err(e) => {
                return Err(e);
            },
            Ok(v) => v,
        };
        u.patch.included_in_report = Some(v);
        return Ok(u);
    }
    if str_eq(n, "initial_flow") {
        let v = match link_float(&value, n, operation) {
            Err(e) => {
                return Err(e);
            },
            Ok(v) => v,
        };
        u.patch.initial_flow = Some(v);
        return Ok(u);
    }
    if str_eq(n, "inlet_loss_coefficient") {
        let v = match link_float(&value, n, operation) {
            Err(e) => {
                return Err(e);
            },
            Ok(v) => v,
        };
        u.patch.inlet_loss_coefficient = Some(v);
        return Ok(u);
    }
    if str_eq(n, "outlet_loss_coefficient") {
        let v = match link_float(&value, n, operation) {
            Err(e) => {
                return Err(e);
            },
            Ok(v) => v,
        };
        u.patch.outlet_loss_coefficient = Some(v);
        return Ok(u);
    }
    if str_eq(n, "average_loss_coefficient") {
        let v = match link_float(&value, n, operation) {
            Err(e) => {
                return Err(e);
            },
            Ok(v) => v,
        };
        u.patch.average_loss_coefficient = Some(v);
        return Ok(u);
    }
    if str_eq(n, "seepage_rate") {
        let v = match link_float(&value, n, operation) {
            Err(e) => {
                return Err(e);
            },
            Ok(v) => v,
        };
        u.patch.seepage_rate = Some(v);
        return Ok(u);
    }
    if str_eq(n, "has_flap_gate") {
        let v = match link_bool(&value, n, operation) {
            Err(e) => {
                return Err(e);
            },
            Ok(v) => v,
        };
        u.patch.has_flap_gate = Some(v);
        return Ok(u);
    }
    if str_eq(n, "length") && str_eq(subtype, "conduit") {
        let v = match link_float(&value, n, operation) {
            Err(e) => {
                return Err(e);
            },
            Ok(v) => v,
        };
        let mut c = conduit_or_default(u.conduit);
        c.length = Some(v);
        u.conduit = Some(c);
        return Ok(u);
    }
    if str_eq(n, "roughness") && str_eq(subtype, "conduit") {
        let v = match link_float(&value, n, operation) {
            Err(e) => {
                return Err(e);
            },
            Ok(v) => v,
        };
        let mut c = conduit_or_default(u.conduit);
        c.roughness = Some(v);
        u.conduit = Some(c);
        return Ok(u);
    }
    if str_eq(n, "barrels") && str_eq(subtype, "conduit") {
        let v = match link_barrels(&value, operation) {
            Err(e) => {
                return Err(e);
            },
            Ok(v) => v,
        };
        let mut c = conduit_or_default(u.conduit);
        c.barrels = Some(v);
        u.conduit = Some(c);
        return Ok(u);
    }
    if str_eq(n, "cross_section") && str_eq(subtype, "conduit") {
        let v = match extract_cross_section(value) {
            Err(e) => {
                return Err(e);
            },
            Ok(v) => v,
        };
        u.cross_section = Some(v);
        return Ok(u);
    }
    if str_eq(n, "initial_setting") && str_eq(subtype, "pump") {
        let v = match link_float(&value, n, operation) {
            Err(e) => {
                return Err(e);
            },
            Ok(v) => v,
        };
        let mut c = pump_or_default(u.pump);
        c.initial_setting = Some(v);
        u.pump = Some(c);
        return Ok(u);
    }
    if str_eq(n, "startup_depth") && str_eq(subtype, "pump") {
        let v = match link_float(&value, n, operation) {
            Err(e) => {
                return Err(e);
            },
            Ok(v) => v,
        };
        let mut c = pump_or_default(u.pump);
        c.startup_depth = Some(v);
        u.pump = Some(c);
        return Ok(u);
    }
    if str_eq(n, "shutoff_depth") && str_eq(subtype, "pump") {
        let v = match link_float(&value, n, operation) {
            Err(e) => {
                return Err(e);
            },
            Ok(v) => v,
        };
        let mut c = pump_or_default(u.pump);
        c.shutoff_depth = Some(v);
        u.pump = Some(c);
        return Ok(u);
    }
    if str_eq(n, "kind") && str_eq(subtype, "orifice") {
        let v = match extract_orifice_kind(&value) {
            Err(e) => {
                return Err(e);
            },
            Ok(v) => v,
        };
        let mut c = orifice_or_default(u.orifice);
        c.kind = Some(v);
        u.orifice = Some(c);
        return Ok(u);
    }
    if str_eq(n, "discharge_coefficient") && str_eq(subtype, "orifice") {
        let v = match link_float(&value, n, operation) {
            Err(e) => {
                return Err(e);
            },
            Ok(v) => v,
        };
        let mut c = orifice_or_default(u.orifice);
        c.discharge_coefficient = Some(v);
        u.orifice = Some(c);
        return Ok(u);
    }
    if str_eq(n, "opening_time_hours") && str_eq(subtype, "orifice") {
        let v = match link_float(&value, n, operation) {
            Err(e) => {
                return Err(e);
            },
            Ok(v) => v,
        };
        let mut c = orifice_or_default(u.orifice);
        c.opening_time_hours = Some(v);
        u.orifice = Some(c);
        return Ok(u);
    }
    if str_eq(n, "kind") && str_eq(subtype, "weir") {
        let v = match extract_weir_kind(&value) {
            Err(e) => {
                return Err(e);
            },
            Ok(v) => v,
        };
        let mut c = weir_or_default(u.weir);
        c.update.kind = Some(v);
        u.weir = Some(c);
        return Ok(u);
    }
    if str_eq(n, "discharge_coefficient") && str_eq(subtype, "weir") {
        let v = match link_float(&value, n, operation) {
            Err(e) => {
                return Err(e);
            },
            Ok(v) => v,
        };
        let mut c = weir_or_default(u.weir);
        c.update.discharge_coefficient = Some(v);
        u.weir = Some(c);
        return Ok(u);
    }
    if str_eq(n, "end_discharge_coefficient") && str_eq(subtype, "weir") {
        let v = match link_float(&value, n, operation) {
            Err(e) => {
                return Err(e);
            },
            Ok(v) => v,
        };
        let mut c = weir_or_default(u.weir);
        c.update.end_discharge_coefficient = Some(v);
        u.weir = Some(c);
        return Ok(u);
    }
    if str_eq(n, "end_contractions") && str_eq(subtype, "weir") {
        let v = match link_float(&value, n, operation) {
            Err(e) => {
                return Err(e);
            },
            Ok(v) => v,
        };
        let mut c = weir_or_default(u.weir);
        c.update.end_contractions = Some(v);
        u.weir = Some(c);
        return Ok(u);
    }
    if str_eq(n, "can_surcharge") && str_eq(subtype, "weir") {
        let v = match link_bool(&value, n, operation) {
            Err(e) => {
                return Err(e);
            },
            Ok(v) => v,
        };
        let mut c = weir_or_default(u.weir);
        c.update.can_surcharge = Some(v);
        u.weir = Some(c);
        return Ok(u);
    }
    if str_eq(n, "roadway_width") && str_eq(subtype, "weir") {
        let v = match link_float(&value, n, operation) {
            Err(e) => {
                return Err(e);
            },
            Ok(v) => v,
        };
        let mut c = weir_or_default(u.weir);
        c.update.roadway_width = Some(v);
        u.weir = Some(c);
        return Ok(u);
    }
    if str_eq(n, "roadway_surface") && str_eq(subtype, "weir") {
        let v = match extract_road_surface(&value) {
            Err(e) => {
                return Err(e);
            },
            Ok(v) => v,
        };
        let mut c = weir_or_default(u.weir);
        c.update.roadway_surface = Some(v);
        u.weir = Some(c);
        return Ok(u);
    }
    if str_eq(n, "coefficient_curve") && str_eq(subtype, "weir") {
        let v = match related_live_view(value) {
            Err(e) => {
                return Err(e);
            },
            Ok(r) => r,
        };
        let mut c = weir_or_default(u.weir);
        c.coefficient_curve = Some(v);
        u.weir = Some(c);
        return Ok(u);
    }
    if str_eq(n, "rating") && str_eq(subtype, "outlet") {
        let v = match extract_outlet_rating(value) {
            Err(e) => {
                return Err(e);
            },
            Ok(v) => v,
        };
        u.outlet = Some(v);
        return Ok(u);
    }
    let message = String::from_str("unknown or read-only ").concat(subtype).concat(" link setting: ").concat(n);
    Err(link_py_error(operation, message))
}

/// Extracts every supplied link settings field without touching solver state.
///
/// `subtype` is the captured concrete link subtype; `changes` are the supplied `(key, value)`
/// pairs in mapping order, a key that is not a `str` given as `None`.
pub fn extract_link_update(subtype: &str, changes: Vec<(Option<String>, PyValue)>) -> (result: Result<
    LinkUpdate,
    NativeError,
>)
    ensures
        spec_refusal_outcome(
            result,
            spec_link_update(subtype@, changes@, changes@.len() as int),
            "update_link_settings",
        ),
{
    let count: usize = changes.len();
    let ghost all = changes@;
    let mut remaining = changes;
    let mut update = empty_link_update();
    let mut taken: usize = 0;
    proof {
        assert(remaining@ =~= all.skip(0));
    }
    while taken < count
        invariant
            count == all.len(),
            all == changes@,
            taken <= count,
            remaining@ == all.skip(taken as int),
            spec_link_update(subtype@, all, taken as int) == Ok::<LinkUpdate, Refusal>(update),
        decreases count - taken,
    {
        let (key, value) = remaining.remove(0);
        proof {
            assert(remaining@ =~= all.skip(taken + 1));
            assert(all[taken as int] == (key, value));
        }
        let ghost before = update;
        match apply_link_change(subtype, update, key, value) {
            Ok(next) => {
                update = next;
            },
            Err(e) => {
                proof {
                    assert(spec_link_update(subtype@, all, taken + 1) == spec_apply_link_change(
                        subtype@,
                        before,
                        all[taken as int].0,
                        all[taken as int].1,
                    ));
                    lemma_link_update_refusal(subtype@, all, taken + 1, count as int);
                }
                return Err(e);
            },
        }
        taken = taken + 1;
    }
    Ok(update)
}

/// `out` is what resolving a cross-section declaration gives: a custom shape is validated and
/// then mapped to its shape curve; transects and streets are validated.
pub open spec fn spec_resolved_cross_section<
    F: Fn(&RelatedObject, ObjectType, &'static str) -> Result<usize, SwmmError>,
    S: Fn(usize) -> Result<usize, SwmmError>,
>(
    validate: F,
    shape_curve: S,
    section: NativeCrossSection,
    out: Result<CrossSectionConfiguration, SwmmError>,
) -> bool {
    match section {
        NativeCrossSection::Circular(diameter) => out == Ok::<CrossSectionConfiguration, SwmmError>(
            CrossSectionConfiguration::Circular { diameter },
        ),
        NativeCrossSection::Standard(shape, geometry, culvert_code) => out == Ok::<
            CrossSectionConfiguration,
            SwmmError,
        >(CrossSectionConfiguration::Standard { shape, geometry, culvert_code }),
        NativeCrossSection::Custom(r, full_depth, culvert_code) => exists|o: Result<usize, SwmmError>|
            {
                &&& call_ensures(validate, (&r, ObjectType::Shape, "cross_section.shape"), o)
                &&& o matches Err(e) ==> out == Err::<CrossSectionConfiguration, SwmmError>(e)
                &&& o matches Ok(shape) ==> exists|c: Result<usize, SwmmError>|
                    {
                        &&& call_ensures(shape_curve, (shape,), c)
                        &&& match c {
                            Ok(i) => out == Ok::<CrossSectionConfiguration, SwmmError>(
                                CrossSectionConfiguration::Custom {
                                    shape_curve_index: i,
                                    full_depth,
                                    culvert_code,
                                },
                            ),
                            Err(e) => out == Err::<CrossSectionConfiguration, SwmmError>(e),
                        }
                    }
            },
        NativeCrossSection::Irregular(r, culvert_code) => exists|o: Result<usize, SwmmError>|
            {
                &&& call_ensures(validate, (&r, ObjectType::Transect, "cross_section.transect"), o)
                &&& match o {
                    Ok(i) => out == Ok::<CrossSectionConfiguration, SwmmError>(
                        CrossSectionConfiguration::Irregular { transect_index: i, culvert_code },
                    ),
                    Err(e) => out == Err::<CrossSectionConfiguration, SwmmError>(e),
                }
            },
        NativeCrossSection::Street(r, culvert_code) => exists|o: Result<usize, SwmmError>|
            {
                &&& call_ensures(validate, (&r, ObjectType::Street, "cross_section.street"), o)
                &&& match o {
                    Ok(i) => out == Ok::<CrossSectionConfiguration, SwmmError>(
                        CrossSectionConfiguration::Street { street_index: i, culvert_code },
                    ),
                    Err(e) => out == Err::<CrossSectionConfiguration, SwmmError>(e),
                }
            },
    }
}

/// Resolves one cross-section declaration.
fn resolve_cross_section<
    F: Fn(&RelatedObject, ObjectType, &'static str) -> Result<usize, SwmmError>,
    S: Fn(usize) -> Result<usize, SwmmError>,
>(validate: &F, shape_curve: &S, section: NativeCrossSection) -> (out: Result<
    CrossSectionConfiguration,
    SwmmError,
>)
    requires
        forall|r: &RelatedObject, t: ObjectType, n: &'static str| call_requires(*validate, (r, t, n)),
        forall|i: usize| call_requires(*shape_curve, (i,)),
    ensures
        spec_resolved_cross_section(*validate, *shape_curve, section, out),
{
    match section {
        NativeCrossSection::Circular(diameter) => Ok(CrossSectionConfiguration::Circular { diameter }),
        NativeCrossSection::Standard(shape, geometry, culvert_code) => Ok(
            CrossSectionConfiguration::Standard { shape, geometry, culvert_code },
        ),
        NativeCrossSection::Custom(r, full_depth, culvert_code) => {
            match resolve_required(validate, &r, ObjectType::Shape, "cross_section.shape") {
                Err(e) => Err(e),
                Ok(shape) => {
                    let c = shape_curve(shape);
                    let ghost gc = c;
                    assert(call_ensures(*shape_curve, (shape,), gc));
                    match c {
                        Ok(i) => Ok(
                            CrossSectionConfiguration::Custom {
                                shape_curve_index: i,
                                full_depth,
                                culvert_code,
                            },
                        ),
                        Err(e) => Err(e),
                    }
                },
            }
        },
        NativeCrossSection::Irregular(r, culvert_code) => {
            match resolve_required(validate, &r, ObjectType::Transect, "cross_section.transect") {
                Err(e) => Err(e),
                Ok(i) => Ok(CrossSectionConfiguration::Irregular { transect_index: i, culvert_code }),
            }
        },
        NativeCrossSection::Street(r, culvert_code) => {
            match resolve_required(validate, &r, ObjectType::Street, "cross_section.street") {
                Err(e) => Err(e),
                Ok(i) => Ok(CrossSectionConfiguration::Street { street_index: i, culvert_code }),
            }
        },
    }
}

/// `out` is the resolved subtype settings of an update: the first subtype with settings, in
/// the order conduit, pump, orifice, weir, outlet; a weir's coefficient curve and a tabular
/// outlet rating's curve are validated as curves.
pub open spec fn spec_resolved_subtype<
    F: Fn(&RelatedObject, ObjectType, &'static str) -> Result<usize, SwmmError>,
>(validate: F, u: LinkUpdate, out: Result<Option<LinkSubtypePatch>, SwmmError>) -> bool {
    if u.conduit is Some {
        out == Ok::<Option<LinkSubtypePatch>, SwmmError>(
            Some(LinkSubtypePatch::Conduit(u.conduit->0)),
        )
    } else if u.pump is Some {
        out == Ok::<Option<LinkSubtypePatch>, SwmmError>(Some(LinkSubtypePatch::Pump(u.pump->0)))
    } else if u.orifice is Some {
        out == Ok::<Option<LinkSubtypePatch>, SwmmError>(
            Some(LinkSubtypePatch::Orifice(u.orifice->0)),
        )
    } else if u.weir is Some {
        let w = u.weir->0;
        match w.coefficient_curve {
            None => out == Ok::<Option<LinkSubtypePatch>, SwmmError>(
                Some(LinkSubtypePatch::Weir(WeirUpdate { coefficient_curve_index: None, ..w.update })),
            ),
            Some(None) => out == Ok::<Option<LinkSubtypePatch>, SwmmError>(
                Some(
                    LinkSubtypePatch::Weir(
                        WeirUpdate { coefficient_curve_index: Some(None), ..w.update },
                    ),
                ),
            ),
            Some(Some(r)) => exists|o: Result<usize, SwmmError>|
                {
                    &&& call_ensures(validate, (&r, ObjectType::Curve, "coefficient_curve"), o)
                    &&& match o {
                        Ok(i) => out == Ok::<Option<LinkSubtypePatch>, SwmmError>(
                            Some(
                                LinkSubtypePatch::Weir(
                                    WeirUpdate { coefficient_curve_index: Some(Some(i)), ..w.update },
                                ),
                            ),
                        ),
                        Err(e) => out == Err::<Option<LinkSubtypePatch>, SwmmError>(e),
                    }
                },
        }
    } else if u.outlet is Some {
        match u.outlet->0 {
            NativeOutletRating::Functional(coefficient, exponent, head_basis) => out == Ok::<
                Option<LinkSubtypePatch>,
                SwmmError,
            >(
                Some(
                    LinkSubtypePatch::Outlet(
                        OutletUpdate {
                            rating: Some(OutletRating::Functional { coefficient, exponent, head_basis }),
                        },
                    ),
                ),
            ),
            NativeOutletRating::Tabular(r, head_basis) => exists|o: Result<usize, SwmmError>|
                {
                    &&& call_ensures(validate, (&r, ObjectType::Curve, "rating.curve"), o)
                    &&& match o {
                        Ok(i) => out == Ok::<Option<LinkSubtypePatch>, SwmmError>(
                            Some(
                                LinkSubtypePatch::Outlet(
                                    OutletUpdate {
                                        rating: Some(OutletRating::Tabular { curve_index: i, head_basis }),
                                    },
                                ),
                            ),
                        ),
                        Err(e) => out == Err::<Option<LinkSubtypePatch>, SwmmError>(e),
                    }
                },
        }
    } else {
        out == Ok::<Option<LinkSubtypePatch>, SwmmError>(None)
    }
}

/// `out` is what resolving an optional cross-section declaration gives.
pub open spec fn spec_resolved_section<
    F: Fn(&RelatedObject, ObjectType, &'static str) -> Result<usize, SwmmError>,
    S: Fn(usize) -> Result<usize, SwmmError>,
>(
    validate: F,
    shape_curve: S,
    section: Option<NativeCrossSection>,
    out: Result<Option<CrossSectionConfiguration>, SwmmError>,
) -> bool {
    match section {
        None => out == Ok::<Option<CrossSectionConfiguration>, SwmmError>(None),
        Some(s) => exists|o: Result<CrossSectionConfiguration, SwmmError>|
            {
                &&& spec_resolved_cross_section(validate, shape_curve, s, o)
                &&& match o {
                    Ok(c) => out == Ok::<Option<CrossSectionConfiguration>, SwmmError>(Some(c)),
                    Err(e) => out == Err::<Option<CrossSectionConfiguration>, SwmmError>(e),
                }
            },
    }
}

/// `result` is what checking `update` against the configured objects gives: its related views validated in order and a custom shape mapped to its curve.
pub open spec fn spec_link_patch<F: Fn(&RelatedObject, ObjectType, &'static str) -> Result<usize, SwmmError>, C: Fn(usize) -> Result<usize, SwmmError>>(
    validate: F,
    shape_curve: C,
    update: LinkUpdate,
    result: Result<LinkPatch, SwmmError>,
) -> bool {
    exists|inlet: Result<Option<usize>, SwmmError>|
        {
            &&& spec_resolved(validate, update.inlet_node, ObjectType::Node, "inlet_node", inlet)
            &&& inlet matches Err(e) ==> result == Err::<LinkPatch, SwmmError>(e)
            &&& inlet is Ok ==> exists|outlet: Result<Option<usize>, SwmmError>|
                {
                    &&& spec_resolved(
                        validate,
                        update.outlet_node,
                        ObjectType::Node,
                        "outlet_node",
                        outlet,
                    )
                    &&& outlet matches Err(e) ==> result == Err::<LinkPatch, SwmmError>(e)
                    &&& outlet is Ok ==> exists|
                        section: Result<Option<CrossSectionConfiguration>, SwmmError>,
                    |
                        {
                            &&& spec_resolved_section(
                                validate,
                                shape_curve,
                                update.cross_section,
                                section,
                            )
                            &&& section matches Err(e) ==> result == Err::<LinkPatch, SwmmError>(e)
                            &&& section is Ok ==> exists|
                                subtype: Result<Option<LinkSubtypePatch>, SwmmError>,
                            |
                                {
                                    &&& spec_resolved_subtype(validate, update, subtype)
                                    &&& subtype matches Err(e) ==> result == Err::<
                                        LinkPatch,
                                        SwmmError,
                                    >(e)
                                    &&& subtype is Ok ==> result == Ok::<LinkPatch, SwmmError>(
                                        LinkPatch {
                                            inlet_node_index: inlet->Ok_0,
                                            outlet_node_index: outlet->Ok_0,
                                            cross_section: section->Ok_0,
                                            subtype: subtype->Ok_0,
                                            ..update.patch
                                        },
                                    )
                                }
                        }
                }
        }
}

/// The outcomes that checking a `LinkUpdate` against the configured objects can give.
pub open spec fn spec_link_check<F: Fn(&RelatedObject, ObjectType, &'static str) -> Result<usize, SwmmError>, C: Fn(usize) -> Result<usize, SwmmError>>(
    validate: F,
    shape_curve: C,
) -> spec_fn(LinkUpdate, Result<LinkPatch, SwmmError>) -> bool {
    |update: LinkUpdate, result: Result<LinkPatch, SwmmError>| spec_link_patch(validate, shape_curve, update, result)
}

impl LinkUpdate {
    /// Resolves relationships and builds one typed solver patch under the owner lock.
    ///
    /// `validate` checks one related Live View against the configured objects of a family and
    /// returns its index; `shape_curve` maps a custom shape to its shape curve. The inlet node,
    /// the outlet node, the cross section, and the subtype settings are resolved in that order;
    /// the first failure is returned.
    pub fn into_patch<
        F: Fn(&RelatedObject, ObjectType, &'static str) -> Result<usize, SwmmError>,
        S: Fn(usize) -> Result<usize, SwmmError>,
    >(self, validate: &F, shape_curve: &S) -> (result: Result<LinkPatch, SwmmError>)
        requires
            forall|r: &RelatedObject, t: ObjectType, n: &'static str| call_requires(*validate, (r, t, n)),
            forall|i: usize| call_requires(*shape_curve, (i,)),
        ensures
            spec_link_patch(*validate, *shape_curve, self, result),
    {
        let ghost whole = self;
        let LinkUpdate {
            mut patch,
            inlet_node,
            outlet_node,
            conduit,
            cross_section,
            pump,
            orifice,
            weir,
            outlet,
        } = self;
        let ghost (gi, go) = (inlet_node, outlet_node);
        let inlet = resolve(validate, inlet_node, ObjectType::Node, "inlet_node");
        let ghost ri = inlet;
        let inlet_index = match inlet {
            Err(e) => {
                assert(spec_resolved(*validate, gi, ObjectType::Node, "inlet_node", ri));
                return Err(e);
            },
            Ok(i) => i,
        };
        let outlet_resolved = resolve(validate, outlet_node, ObjectType::Node, "outlet_node");
        let ghost ro = outlet_resolved;
        let outlet_index = match outlet_resolved {
            Err(e) => {
                assert(spec_resolved(*validate, go, ObjectType::Node, "outlet_node", ro));
                return Err(e);
            },
            Ok(i) => i,
        };
        let ghost gs = cross_section;
        let section: Result<Option<CrossSectionConfiguration>, SwmmError> = match cross_section {
            None => Ok(None),
            Some(s) => match resolve_cross_section(validate, shape_curve, s) {
                Ok(c) => Ok(Some(c)),
                Err(e) => Err(e),
            },
        };
        let ghost rs = section;
        assert(spec_resolved_section(*validate, *shape_curve, gs, rs));
        let resolved_section = match section {
            Err(e) => {
                assert(spec_resolved(*validate, gi, ObjectType::Node, "inlet_node", ri));
                assert(spec_resolved(*validate, go, ObjectType::Node, "outlet_node", ro));
                return Err(e);
            },
            Ok(c) => c,
        };
        let subtype: Result<Option<LinkSubtypePatch>, SwmmError> = if let Some(c) = conduit {
            Ok(Some(LinkSubtypePatch::Conduit(c)))
        } else if let Some(p) = pump {
            Ok(Some(LinkSubtypePatch::Pump(p)))
        } else if let Some(o) = orifice {
            Ok(Some(LinkSubtypePatch::Orifice(o)))
        } else if let Some(w) = weir {
            let NativeWeirUpdate { update, coefficient_curve } = w;
            match coefficient_curve {
                None => Ok(Some(LinkSubtypePatch::Weir(WeirUpdate { coefficient_curve_index: None, ..update }))),
                Some(None) => Ok(
                    Some(LinkSubtypePatch::Weir(WeirUpdate { coefficient_curve_index: Some(None), ..update })),
                ),
                Some(Some(r)) => match resolve_required(validate, &r, ObjectType::Curve, "coefficient_curve") {
                    Ok(i) => Ok(
                        Some(
                            LinkSubtypePatch::Weir(
                                WeirUpdate { coefficient_curve_index: Some(Some(i)), ..update },
                            ),
                        ),
                    ),
                    Err(e) => Err(e),
                },
            }
        } else if let Some(rating) = outlet {
            match rating {
                NativeOutletRating::Functional(coefficient, exponent, head_basis) => Ok(
                    Some(
                        LinkSubtypePatch::Outlet(
                            OutletUpdate {
                                rating: Some(OutletRating::Functional { coefficient, exponent, head_basis }),
                            },
                        ),
                    ),
                ),
                NativeOutletRating::Tabular(r, head_basis) => match resolve_required(
                    validate,
                    &r,
                    ObjectType::Curve,
                    "rating.curve",
                ) {
                    Ok(i) => Ok(
                        Some(
                            LinkSubtypePatch::Outlet(
                                OutletUpdate {
                                    rating: Some(OutletRating::Tabular { curve_index: i, head_basis }),
                                },
                            ),
                        ),
                    ),
                    Err(e) => Err(e),
                },
            }
        } else {
            Ok(None)
        };
        let ghost rt = subtype;
        assert(spec_resolved_subtype(*validate, whole, rt));
        assert(spec_resolved(*validate, gi, ObjectType::Node, "inlet_node", ri));
        assert(spec_resolved(*validate, go, ObjectType::Node, "outlet_node", ro));
        match subtype {
            Err(e) => Err(e),
            Ok(t) => {
                patch.inlet_node_index = inlet_index;
                patch.outlet_node_index = outlet_index;
                patch.cross_section = resolved_section;
                patch.subtype = t;
                Ok(patch)
            },
        }
    }
}

/// A conduit cross section as configured, its related objects given by identity.
#[derive(Debug)]
pub enum LinkCrossSectionValue<I> {
    Circular { diameter: Number },
    Standard { shape: XsectType, geometry: Geometry, culvert_code: usize },
    Custom { shape: I, full_depth: Number, culvert_code: usize },
    Irregular { transect: I, culvert_code: usize },
    Street { street: I, culvert_code: usize },
}

/// The discriminated parts of a cross section: its kind, standard shape, geometry, related
/// object (with its family), full depth, and culvert code.
#[derive(Debug)]
pub struct CrossSectionParts<I> {
    pub kind: &'static str,
    pub shape: Option<XsectType>,
    pub geometry: Geometry,
    pub related: Option<(ObjectType, I)>,
    pub full_depth: Option<Number>,
    pub culvert_code: usize,
}

/// A float zero.
pub open spec fn spec_zero() -> Number {
    Number::Float(0)
}

/// Four float zeros.
pub open spec fn spec_zero_geometry() -> Geometry {
    (spec_zero(), spec_zero(), spec_zero(), spec_zero())
}

/// The discriminated parts of a configured cross section.
pub open spec fn spec_cross_section_parts<I>(value: LinkCrossSectionValue<I>) -> CrossSectionParts<I> {
    match value {
        LinkCrossSectionValue::Circular { diameter } => CrossSectionParts {
            kind: "circular",
            shape: None,
            geometry: (diameter, spec_zero(), spec_zero(), spec_zero()),
            related: None,
            full_depth: None,
            culvert_code: 0,
        },
        LinkCrossSectionValue::Standard { shape, geometry, culvert_code } => CrossSectionParts {
            kind: "standard",
            shape: Some(shape),
            geometry,
            related: None,
            full_depth: None,
            culvert_code,
        },
        LinkCrossSectionValue::Custom { shape, full_depth, culvert_code } => CrossSectionParts {
            kind: "custom",
            shape: None,
            geometry: spec_zero_geometry(),
            related: Some((ObjectType::Shape, shape)),
            full_depth: Some(full_depth),
            culvert_code,
        },
        LinkCrossSectionValue::Irregular { transect, culvert_code } => CrossSectionParts {
            kind: "irregular",
            shape: None,
            geometry: spec_zero_geometry(),
            related: Some((ObjectType::Transect, transect)),
            full_depth: None,
            culvert_code,
        },
        LinkCrossSectionValue::Street { street, culvert_code } => CrossSectionParts {
            kind: "street",
            shape: None,
            geometry: spec_zero_geometry(),
            related: Some((ObjectType::Street, street)),
            full_depth: None,
            culvert_code,
        },
    }
}

/// Converts an optional configured cross section to its discriminated parts.
pub fn cross_section_parts<I>(value: Option<LinkCrossSectionValue<I>>) -> (parts: Option<
    CrossSectionParts<I>,
>)
    ensures
        match value {
            None => parts is None,
            Some(v) => parts == Some(spec_cross_section_parts(v)),
        },
{
    match value {
        None => None,
        Some(v) => {
            let zero = Number::Float(0);
            Some(
                match v {
                    LinkCrossSectionValue::Circular { diameter } => CrossSectionParts {
                        kind: "circular",
                        shape: None,
                        geometry: (diameter, zero, zero, zero),
                        related: None,
                        full_depth: None,
                        culvert_code: 0,
                    },
                    LinkCrossSectionValue::Standard { shape, geometry, culvert_code } => CrossSectionParts {
                        kind: "standard",
                        shape: Some(shape),
                        geometry,
                        related: None,
                        full_depth: None,
                        culvert_code,
                    },
                    LinkCrossSectionValue::Custom { shape, full_depth, culvert_code } => CrossSectionParts {
                        kind: "custom",
                        shape: None,
                        geometry: (zero, zero, zero, zero),
                        related: Some((ObjectType::Shape, shape)),
                        full_depth: Some(full_depth),
                        culvert_code,
                    },
                    LinkCrossSectionValue::Irregular { transect, culvert_code } => CrossSectionParts {
                        kind: "irregular",
                        shape: None,
                        geometry: (zero, zero, zero, zero),
                        related: Some((ObjectType::Transect, transect)),
                        full_depth: None,
                        culvert_code,
                    },
                    LinkCrossSectionValue::Street { street, culvert_code } => CrossSectionParts {
                        kind: "street",
                        shape: None,
                        geometry: (zero, zero, zero, zero),
                        related: Some((ObjectType::Street, street)),
                        full_depth: None,
                        culvert_code,
                    },
                },
            )
        },
    }
}

/// An outlet rating as configured, its curve given by identity.
#[derive(Debug)]
pub enum LinkOutletRatingValue<I> {
    Functional { coefficient: Number, exponent: Number, head_basis: OutletHeadBasis },
    Tabular { curve: I, head_basis: OutletHeadBasis },
}

/// The discriminated parts of an outlet rating: its kind, coefficient, exponent, curve, and
/// head-basis spelling.
#[derive(Debug)]
pub struct OutletRatingParts<I> {
    pub kind: &'static str,
    pub coefficient: Option<Number>,
    pub exponent: Option<Number>,
    pub curve: Option<I>,
    pub head_basis: &'static str,
}

/// The discriminated parts of a configured outlet rating.
pub open spec fn spec_outlet_rating_parts<I>(value: LinkOutletRatingValue<I>) -> OutletRatingParts<I> {
    match value {
        LinkOutletRatingValue::Functional { coefficient, exponent, head_basis } => OutletRatingParts {
            kind: "functional",
            coefficient: Some(coefficient),
            exponent: Some(exponent),
            curve: None,
            head_basis: spec_outlet_head_basis_name(head_basis),
        },
        LinkOutletRatingValue::Tabular { curve, head_basis } => OutletRatingParts {
            kind: "tabular",
            coefficient: None,
            exponent: None,
            curve: Some(curve),
            head_basis: spec_outlet_head_basis_name(head_basis),
        },
    }
}

/// Converts one configured outlet rating to its discriminated parts.
pub fn outlet_rating_parts<I>(value: LinkOutletRatingValue<I>) -> (parts: OutletRatingParts<I>)
    ensures
        parts == spec_outlet_rating_parts(value),
{
    match value {
        LinkOutletRatingValue::Functional { coefficient, exponent, head_basis } => OutletRatingParts {
            kind: "functional",
            coefficient: Some(coefficient),
            exponent: Some(exponent),
            curve: None,
            head_basis: outlet_head_basis_name(head_basis),
        },
        LinkOutletRatingValue::Tabular { curve, head_basis } => OutletRatingParts {
            kind: "tabular",
            coefficient: None,
            exponent: None,
            curve: Some(curve),
            head_basis: outlet_head_basis_name(head_basis),
        },
    }
}

/// A sparse update of an inlet's persistent settings.
#[derive(Clone, Copy, Debug)]
pub struct InletPersistentPatch {
    pub percent_clogged: Option<Number>,
    pub flow_limit: Option<Number>,
}

/// `patch` with one supplied `(key, value)` inlet setting applied.
pub open spec fn spec_apply_inlet_change(patch: InletPersistentPatch, key: Option<String>, value: PyValue) -> Result<
    InletPersistentPatch,
    Refusal,
> {
    match key {
        None => Err(Refusal::Detail("inlet fields must be strings"@)),
        Some(k) => {
            let name = k@;
            if name == "percent_clogged"@ {
                match spec_lenient_number(value, name) {
                    Err(d) => Err(Refusal::Detail(d)),
                    Ok(v) => Ok(InletPersistentPatch { percent_clogged: Some(v), ..patch }),
                }
            } else if name == "flow_limit"@ {
                match spec_lenient_number(value, name) {
                    Err(d) => Err(Refusal::Detail(d)),
                    Ok(v) => Ok(InletPersistentPatch { flow_limit: Some(v), ..patch }),
                }
            } else {
                Err(Refusal::Detail("unknown or read-only inlet field: "@ + name))
            }
        },
    }
}

/// Each supported inlet setting lands in its own field of the patch, taking the value read from what was supplied for it, and nothing else changes.
pub proof fn lemma_inlet_settings_land_in_their_fields(patch: InletPersistentPatch)
    ensures
        forall|k: String, value: PyValue| k@ == "percent_clogged"@ && spec_lenient_number(value, k@) is Ok ==> #[trigger] spec_apply_inlet_change(patch, Some(k), value) == Ok::<InletPersistentPatch, Refusal>(InletPersistentPatch { percent_clogged: Some((spec_lenient_number(value, k@)->Ok_0)), ..patch }),
        forall|k: String, value: PyValue| k@ == "flow_limit"@ && spec_lenient_number(value, k@) is Ok ==> #[trigger] spec_apply_inlet_change(patch, Some(k), value) == Ok::<InletPersistentPatch, Refusal>(InletPersistentPatch { flow_limit: Some((spec_lenient_number(value, k@)->Ok_0)), ..patch }),
{
    assert forall|k: String, value: PyValue| k@ == "percent_clogged"@ && spec_lenient_number(value, k@) is Ok implies #[trigger] spec_apply_inlet_change(patch, Some(k), value) == Ok::<InletPersistentPatch, Refusal>(InletPersistentPatch { percent_clogged: Some((spec_lenient_number(value, k@)->Ok_0)), ..patch }) by {
        reveal_strlit("percent_clogged");
    }
    assert forall|k: String, value: PyValue| k@ == "flow_limit"@ && spec_lenient_number(value, k@) is Ok implies #[trigger] spec_apply_inlet_change(patch, Some(k), value) == Ok::<InletPersistentPatch, Refusal>(InletPersistentPatch { flow_limit: Some((spec_lenient_number(value, k@)->Ok_0)), ..patch }) by {
        reveal_strlit("flow_limit");
        reveal_strlit("percent_clogged");
        assert("flow_limit"@.len() != "percent_clogged"@.len());
    }
}

/// The patch built from the first `n` supplied inlet settings.
pub open spec fn spec_inlet_patch(changes: Seq<(Option<String>, PyValue)>, n: int) -> Result<
    InletPersistentPatch,
    Refusal,
>
    decreases n,
{
    if n <= 0 {
        Ok(InletPersistentPatch { percent_clogged: None, flow_limit: None })
    } else {
        match spec_inlet_patch(changes, n - 1) {
            Err(r) => Err(r),
            Ok(p) => spec_apply_inlet_change(p, changes[n - 1].0, changes[n - 1].1),
        }
    }
}

/// Once an inlet setting is refused, every longer prefix is refused the same way.
pub proof fn lemma_inlet_patch_refusal(changes: Seq<(Option<String>, PyValue)>, i: int, n: int)
    requires
        0 <= i <= n,
        spec_inlet_patch(changes, i) is Err,
    ensures
        spec_inlet_patch(changes, n) == spec_inlet_patch(changes, i),
    decreases n - i,
{
    if n > i {
        lemma_inlet_patch_refusal(changes, i, n - 1);
    }
}

/// Extracts a sparse update of an inlet's persistent settings.
pub fn extract_inlet_patch(changes: &Vec<(Option<String>, PyValue)>) -> (result: Result<
    InletPersistentPatch,
    NativeError,
>)
    ensures
        spec_refusal_outcome(result, spec_inlet_patch(changes@, changes@.len() as int), "update_inlet"),
{
    let mut patch = InletPersistentPatch { percent_clogged: None, flow_limit: None };
    let mut i: usize = 0;
    while i < changes.len()
        invariant
            i <= changes@.len(),
            spec_inlet_patch(changes@, i as int) == Ok::<InletPersistentPatch, Refusal>(patch),
        decreases changes@.len() - i,
    {
        let (key, value) = &changes[i];
        let name = match key {
            Some(k) => k.as_str(),
            None => {
                proof {
                    lemma_inlet_patch_refusal(changes@, i + 1, changes@.len() as int);
                }
                return Err(link_py_error("update_inlet", String::from_str("inlet fields must be strings")));
            },
        };
        if str_eq(name, "percent_clogged") {
            match link_float(value, name, "update_inlet") {
                Ok(v) => {
                    patch.percent_clogged = Some(v);
                },
                Err(e) => {
                    proof {
                        lemma_inlet_patch_refusal(changes@, i + 1, changes@.len() as int);
                    }
                    return Err(e);
                },
            }
        } else if str_eq(name, "flow_limit") {
            match link_float(value, name, "update_inlet") {
                Ok(v) => {
                    patch.flow_limit = Some(v);
                },
                Err(e) => {
                    proof {
                        lemma_inlet_patch_refusal(changes@, i + 1, changes@.len() as int);
                    }
                    return Err(e);
                },
            }
        } else {
            proof {
                lemma_inlet_patch_refusal(changes@, i + 1, changes@.len() as int);
            }
            return Err(link_py_error("update_inlet", detail("unknown or read-only inlet field: ", name)));
        }
        i = i + 1;
    }
    Ok(patch)
}

/// The curve of `use_pump_curve`: a related Live View is required.
pub open spec fn spec_pump_curve(curve: PyValue) -> Result<RelatedObject, Refusal> {
    match spec_related(curve) {
        Err(e) => Err(Refusal::Raised(e)),
        Ok(None) => Err(Refusal::Detail("curve must be Curve"@)),
        Ok(Some(r)) => Ok(r),
    }
}

/// Takes the curve of `use_pump_curve`.
fn pump_curve(curve: PyValue) -> (result: Result<RelatedObject, NativeError>)
    ensures
        spec_refusal_outcome(result, spec_pump_curve(curve), "use_pump_curve"),
{
    match related_live_view(curve) {
        Err(e) => Err(e),
        Ok(None) => Err(link_py_error("use_pump_curve", String::from_str("curve must be Curve"))),
        Ok(Some(r)) => Ok(r),
    }
}

impl NativeSimulation {

    /// Reads one configured link setting of a Live View.
    pub fn link_configuration_value<S, T, M: FnOnce() -> Result<bool, SwmmError>, R: FnOnce(LinkConfigurationField) -> Result<T, SwmmError>>(
        &self,
        generation: u64,
        subtype: Option<S>,
        field: &str,
        matches: M,
        read: R,
    ) -> (result: Result<T, NativeError>)
        requires
            call_requires(matches, ()),
            forall|f: LinkConfigurationField| call_requires(read, (f,)),
        ensures
            exists|f: Result<LinkConfigurationField, NativeError>|
                {
                    &&& match spec_link_configuration_field(field@) {
                        Some(x) => f == Ok::<LinkConfigurationField, NativeError>(x),
                        None => f is Err && is_internal_error(
                            f->Err_0,
                            "link_configuration_value",
                            "invalid private link configuration field"@,
                        ),
                    }
                    &&& spec_field_view(*self, "link_configuration_value", generation, subtype, f, matches, read, result)
                },
    {
        let selected = link_configuration_field(field);
        self.field_view("link_configuration_value", generation, subtype, selected, matches, read)
    }

    /// Reads one current link result of a Live View.
    pub fn link_result<S, T, M: FnOnce() -> Result<bool, SwmmError>, R: FnOnce(LinkResultField) -> Result<T, SwmmError>>(
        &self,
        generation: u64,
        subtype: Option<S>,
        field: &str,
        matches: M,
        read: R,
    ) -> (result: Result<T, NativeError>)
        requires
            call_requires(matches, ()),
            forall|f: LinkResultField| call_requires(read, (f,)),
        ensures
            exists|f: Result<LinkResultField, NativeError>|
                {
                    &&& match spec_link_result_field(field@) {
                        Some(x) => f == Ok::<LinkResultField, NativeError>(x),
                        None => f is Err && is_internal_error(
                            f->Err_0,
                            "link_result",
                            "invalid private link result field"@,
                        ),
                    }
                    &&& spec_field_view(*self, "link_result", generation, subtype, f, matches, read, result)
                },
    {
        let selected = link_result_field(field);
        self.field_view("link_result", generation, subtype, selected, matches, read)
    }

    /// Reads one configured setting of a link's inlet.
    pub fn inlet_configuration_value<S, T, M: FnOnce() -> Result<bool, SwmmError>, R: FnOnce(InletConfigurationField) -> Result<T, SwmmError>>(
        &self,
        generation: u64,
        subtype: Option<S>,
        field: &str,
        matches: M,
        read: R,
    ) -> (result: Result<T, NativeError>)
        requires
            call_requires(matches, ()),
            forall|f: InletConfigurationField| call_requires(read, (f,)),
        ensures
            exists|f: Result<InletConfigurationField, NativeError>|
                {
                    &&& match spec_inlet_configuration_field(field@) {
                        Some(x) => f == Ok::<InletConfigurationField, NativeError>(x),
                        None => f is Err && is_internal_error(
                            f->Err_0,
                            "inlet_configuration_value",
                            "invalid private inlet configuration field"@,
                        ),
                    }
                    &&& spec_field_view(*self, "inlet_configuration_value", generation, subtype, f, matches, read, result)
                },
    {
        let selected = inlet_configuration_field(field);
        self.field_view("inlet_configuration_value", generation, subtype, selected, matches, read)
    }

    /// Reads one persistent setting of a link's inlet.
    pub fn inlet_persistent_configuration_value<S, T, M: FnOnce() -> Result<bool, SwmmError>, R: FnOnce(InletConfigurationField) -> Result<T, SwmmError>>(
        &self,
        generation: u64,
        subtype: Option<S>,
        field: &str,
        matches: M,
        read: R,
    ) -> (result: Result<T, NativeError>)
        requires
            call_requires(matches, ()),
            forall|f: InletConfigurationField| call_requires(read, (f,)),
        ensures
            exists|f: Result<InletConfigurationField, NativeError>|
                {
                    &&& match spec_inlet_configuration_field(field@) {
                        Some(x) => f == Ok::<InletConfigurationField, NativeError>(x),
                        None => f is Err && is_internal_error(
                            f->Err_0,
                            "inlet_configuration_value",
                            "invalid private inlet configuration field"@,
                        ),
                    }
                    &&& spec_field_view(*self, "inlet_persistent_configuration_value", generation, subtype, f, matches, read, result)
                },
    {
        let selected = inlet_configuration_field(field);
        self.field_view("inlet_persistent_configuration_value", generation, subtype, selected, matches, read)
    }

    /// Reads one current result of a link's inlet.
    pub fn inlet_result<S, T, M: FnOnce() -> Result<bool, SwmmError>, R: FnOnce(InletResultField) -> Result<T, SwmmError>>(
        &self,
        generation: u64,
        subtype: Option<S>,
        field: &str,
        matches: M,
        read: R,
    ) -> (result: Result<T, NativeError>)
        requires
            call_requires(matches, ()),
            forall|f: InletResultField| call_requires(read, (f,)),
        ensures
            exists|f: Result<InletResultField, NativeError>|
                {
                    &&& match spec_inlet_result_field(field@) {
                        Some(x) => f == Ok::<InletResultField, NativeError>(x),
                        None => f is Err && is_internal_error(
                            f->Err_0,
                            "inlet_result",
                            "invalid private inlet result field"@,
                        ),
                    }
                    &&& spec_field_view(*self, "inlet_result", generation, subtype, f, matches, read, result)
                },
    {
        let selected = inlet_result_field(field);
        self.field_view("inlet_result", generation, subtype, selected, matches, read)
    }

    /// Reads the inlet design assigned to a link, if any.
    pub fn link_inlet<S, T, M: FnOnce() -> Result<bool, SwmmError>, R: FnOnce(()) -> Result<T, SwmmError>>(
        &self,
        generation: u64,
        subtype: Option<S>,
        matches: M,
        read: R,
    ) -> (result: Result<T, NativeError>)
        requires
            call_requires(matches, ()),
            call_requires(read, ((),)),
        ensures
            spec_field_view(*self, "link_inlet", generation, subtype, Ok::<(), NativeError>(()), matches, read, result),
    {
        self.field_view("link_inlet", generation, subtype, Ok(()), matches, read)
    }

    /// Reads the current water quality of a link.
    pub fn link_quality_mapping<S, T, M: FnOnce() -> Result<bool, SwmmError>, R: FnOnce(()) -> Result<T, SwmmError>>(
        &self,
        generation: u64,
        subtype: Option<S>,
        matches: M,
        read: R,
    ) -> (result: Result<T, NativeError>)
        requires
            call_requires(matches, ()),
            call_requires(read, ((),)),
        ensures
            spec_field_view(*self, "link_quality_mapping", generation, subtype, Ok::<(), NativeError>(()), matches, read, result),
    {
        self.field_view("link_quality_mapping", generation, subtype, Ok(()), matches, read)
    }

    /// Reads the external pollutant mass flux of a link.
    pub fn link_external_pollutant_mass_flux<S, T, M: FnOnce() -> Result<bool, SwmmError>, R: FnOnce(()) -> Result<T, SwmmError>>(
        &self,
        generation: u64,
        subtype: Option<S>,
        matches: M,
        read: R,
    ) -> (result: Result<T, NativeError>)
        requires
            call_requires(matches, ()),
            call_requires(read, ((),)),
        ensures
            spec_field_view(*self, "link_external_pollutant_mass_flux", generation, subtype, Ok::<(), NativeError>(()), matches, read, result),
    {
        self.field_view("link_external_pollutant_mass_flux", generation, subtype, Ok(()), matches, read)
    }

    /// Switches a pump to ideal operation.
    pub fn use_ideal_pump<S, M: FnOnce() -> Result<bool, SwmmError>, A: FnOnce(()) -> Reported<()>>(
        &mut self,
        generation: u64,
        subtype: Option<S>,
        matches: M,
        apply: A,
    ) -> (result: Result<(), NativeError>)
        requires
            call_requires(matches, ()),
            call_requires(apply, ((),)),
        ensures
            spec_field_update(
                *old(self),
                *final(self),
                "use_ideal_pump",
                generation,
                subtype,
                Ok::<(), NativeError>(()),
                matches,
                apply,
                result,
            ),
            old(self).wf() ==> final(self).wf(),
    {
        self.field_update("use_ideal_pump", generation, subtype, Ok(()), matches, apply)
    }

    /// Atomically updates the settings of one link from raw Python values.
    ///
    /// Once the view's identity is confirmed, the update's relationships are validated
    /// (`validate` and `shape_curve`, through `LinkUpdate::into_patch`); only a checked patch
    /// reaches `apply`.
    pub fn update_link_settings<S, M: FnOnce() -> Result<bool, SwmmError>, A: FnOnce(LinkPatch) -> Reported<()>, F: Fn(&RelatedObject, ObjectType, &'static str) -> Result<usize, SwmmError>, C: Fn(usize) -> Result<usize, SwmmError>>(
        &mut self,
        generation: u64,
        subtype: Option<S>,
        subtype_name: &str,
        changes: Vec<(Option<String>, PyValue)>,
        matches: M,
        validate: &F,
        shape_curve: &C,
        apply: A,
    ) -> (result: Result<(), NativeError>)
        requires
            call_requires(matches, ()),
            forall|r: &RelatedObject, t: ObjectType, n: &'static str| call_requires(*validate, (r, t, n)),
            forall|i: usize| call_requires(*shape_curve, (i,)),
            forall|x: LinkPatch| call_requires(apply, (x,)),
        ensures
            exists|p: Result<LinkUpdate, NativeError>|
                {
                    &&& spec_refusal_outcome(p, spec_link_update(subtype_name@, changes@, changes@.len() as int), "update_link_settings")
                    &&& spec_field_update_checked(*old(self), *final(self), "update_link_settings", generation, subtype, p, matches, spec_link_check(*validate, *shape_curve), apply, result)
                },
            old(self).wf() ==> final(self).wf(),
    {
        let payload = extract_link_update(subtype_name, changes);
        let check = |u: LinkUpdate| -> (c: Result<LinkPatch, SwmmError>)
            requires
                forall|r: &RelatedObject, t: ObjectType, n: &'static str| call_requires(*validate, (r, t, n)),
                forall|i: usize| call_requires(*shape_curve, (i,)),
            ensures
                spec_link_patch(*validate, *shape_curve, u, c),
            { u.into_patch(validate, shape_curve) };
        self.field_update_checked("update_link_settings", generation, subtype, payload, matches, check, Ghost(spec_link_check(*validate, *shape_curve)), apply)
    }

    /// Switches a pump to a pump curve given as a related Live View.
    pub fn use_pump_curve<S, M: FnOnce() -> Result<bool, SwmmError>, A: FnOnce(RelatedObject) -> Reported<()>>(
        &mut self,
        generation: u64,
        subtype: Option<S>,
        curve: PyValue,
        matches: M,
        apply: A,
    ) -> (result: Result<(), NativeError>)
        requires
            call_requires(matches, ()),
            forall|x: RelatedObject| call_requires(apply, (x,)),
        ensures
            exists|p: Result<RelatedObject, NativeError>|
                {
                    &&& spec_refusal_outcome(p, spec_pump_curve(curve), "use_pump_curve")
                    &&& spec_field_update(*old(self), *final(self), "use_pump_curve", generation, subtype, p, matches, apply, result)
                },
            old(self).wf() ==> final(self).wf(),
    {
        let payload = pump_curve(curve);
        self.field_update("use_pump_curve", generation, subtype, payload, matches, apply)
    }

    /// Atomically updates the persistent settings of a link's inlet.
    pub fn update_inlet<S, M: FnOnce() -> Result<bool, SwmmError>, A: FnOnce(InletPersistentPatch) -> Reported<()>>(
        &mut self,
        generation: u64,
        subtype: Option<S>,
        changes: &Vec<(Option<String>, PyValue)>,
        matches: M,
        apply: A,
    ) -> (result: Result<(), NativeError>)
        requires
            call_requires(matches, ()),
            forall|x: InletPersistentPatch| call_requires(apply, (x,)),
        ensures
            exists|p: Result<InletPersistentPatch, NativeError>|
                {
                    &&& spec_refusal_outcome(p, spec_inlet_patch(changes@, changes@.len() as int), "update_inlet")
                    &&& spec_field_update(*old(self), *final(self), "update_inlet", generation, subtype, p, matches, apply, result)
                },
            old(self).wf() ==> final(self).wf(),
    {
        let payload = extract_inlet_patch(changes);
        self.field_update("update_inlet", generation, subtype, payload, matches, apply)
    }

    /// Sets the flow limit of one link.
    pub fn set_link_flow_limit<S, M: FnOnce() -> Result<bool, SwmmError>, A: FnOnce(Number) -> Reported<()>>(
        &mut self,
        generation: u64,
        subtype: Option<S>,
        value: &PyValue,
        matches: M,
        apply: A,
    ) -> (result: Result<(), NativeError>)
        requires
            call_requires(matches, ()),
            forall|x: Number| call_requires(apply, (x,)),
        ensures
            exists|p: Result<Number, NativeError>|
                {
                    &&& crate::policy::spec_policy_outcome(p, spec_strict_number(*value, "flow_limit"@), "set_link_flow_limit")
                    &&& spec_field_update(*old(self), *final(self), "set_link_flow_limit", generation, subtype, p, matches, apply, result)
                },
            old(self).wf() ==> final(self).wf(),
    {
        let payload = strict_number(value, "flow_limit", "set_link_flow_limit");
        self.field_update("set_link_flow_limit", generation, subtype, payload, matches, apply)
    }

    /// Sets the target setting of one link.
    pub fn set_link_target_setting<S, M: FnOnce() -> Result<bool, SwmmError>, A: FnOnce(Number) -> Reported<()>>(
        &mut self,
        generation: u64,
        subtype: Option<S>,
        value: &PyValue,
        matches: M,
        apply: A,
    ) -> (result: Result<(), NativeError>)
        requires
            call_requires(matches, ()),
            forall|x: Number| call_requires(apply, (x,)),
        ensures
            exists|p: Result<Number, NativeError>|
                {
                    &&& crate::policy::spec_policy_outcome(p, spec_strict_number(*value, "target_setting"@), "set_link_target_setting")
                    &&& spec_field_update(*old(self), *final(self), "set_link_target_setting", generation, subtype, p, matches, apply, result)
                },
            old(self).wf() ==> final(self).wf(),
    {
        let payload = strict_number(value, "target_setting", "set_link_target_setting");
        self.field_update("set_link_target_setting", generation, subtype, payload, matches, apply)
    }
}

} // verus!
