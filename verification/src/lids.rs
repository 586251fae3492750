use vstd::prelude::*;
use vstd::string::*;

use crate::convert::{
    detail, duration, integer, invalid_property, lenient_number, related_live_view, resolve_required,
    spec_detailed, spec_duration, spec_integer, spec_invalid_property, spec_lenient_number,
    spec_refusal_outcome, spec_refusal_raised, spec_related, spec_strict_bool, strict_bool, Refusal,
};
use crate::error::{policy_py_error, ErrorCode, NativeError, SwmmError};
use crate::fields::{
    is_internal_error, lid_control_field, lid_layer_presence_field, lid_unit_field,
    spec_lid_control_field, spec_lid_layer_presence_field, spec_lid_unit_field, LidControlField,
    LidUnitField,
};
use crate::owner::{spec_attached, HandleState, NativeSimulation, Reported};
use crate::text::str_eq;
use crate::views::{spec_field_update_checked, spec_field_view};
use crate::value::{Number, ObjectType, PyValue, RelatedObject, Timedelta};

verus! {

/// Creates one validation error for LID extraction.
pub fn lid_py_error(operation: &'static str, detail: String) -> (raised: NativeError)
    ensures
        raised == (NativeError::Native {
            operation,
            error: SwmmError { code: ErrorCode::ApiPropertyValue, detail: Some(detail) },
        }),
{
    policy_py_error(operation, detail)
}

/// Extracts one non-boolean numeric LID value.
pub fn lid_float(value: &PyValue, name: &str, operation: &'static str) -> (result: Result<Number, NativeError>)
    ensures
        spec_refusal_outcome(result, spec_detailed(spec_lenient_number(*value, name@)), operation),
{
    lenient_number(value, name, operation)
}

/// Extracts one strict boolean LID value.
pub fn lid_bool(value: &PyValue, name: &str, operation: &'static str) -> (result: Result<bool, NativeError>)
    ensures
        spec_refusal_outcome(result, spec_detailed(spec_strict_bool(*value, name@)), operation),
{
    strict_bool(value, name, operation)
}

/// Extracts one non-boolean 32-bit LID integer.
pub fn lid_i32(value: &PyValue, name: &str, operation: &'static str) -> (result: Result<i32, NativeError>)
    ensures
        spec_refusal_outcome(result, spec_detailed(spec_integer(*value, name@)), operation),
{
    integer(value, name, operation)
}

/// Extracts one LID duration.
pub fn lid_duration_seconds(value: &PyValue, name: &str, operation: &'static str) -> (result: Result<
    Timedelta,
    NativeError,
>)
    ensures
        spec_refusal_outcome(result, spec_detailed(spec_duration(*value, name@)), operation),
{
    duration(value, name, operation)
}

/// A sparse surface layer update.
#[derive(Clone, Copy, Debug)]
pub struct LidSurfacePatch {
    pub thickness: Option<Number>,
    pub vegetation_volume_fraction: Option<Number>,
    pub roughness: Option<Number>,
    pub slope: Option<Number>,
    pub side_slope: Option<Number>,
}

/// A sparse soil layer update.
#[derive(Clone, Copy, Debug)]
pub struct LidSoilPatch {
    pub thickness: Option<Number>,
    pub porosity: Option<Number>,
    pub field_capacity: Option<Number>,
    pub wilting_point: Option<Number>,
    pub saturated_conductivity: Option<Number>,
    pub conductivity_slope: Option<Number>,
    pub suction_head: Option<Number>,
}

/// A sparse storage layer update.
#[derive(Clone, Copy, Debug)]
pub struct LidStoragePatch {
    pub thickness: Option<Number>,
    pub void_ratio: Option<Number>,
    pub saturated_conductivity: Option<Number>,
    pub clogging_factor: Option<Number>,
}

/// A sparse pavement layer update.
#[derive(Clone, Copy, Debug)]
pub struct LidPavementPatch {
    pub thickness: Option<Number>,
    pub void_ratio: Option<Number>,
    pub impervious_fraction: Option<Number>,
    pub saturated_conductivity: Option<Number>,
    pub clogging_factor: Option<Number>,
    pub regeneration_interval_seconds: Option<Timedelta>,
    pub regeneration_fraction: Option<Number>,
}

/// A sparse drain layer update.
#[derive(Clone, Copy, Debug)]
pub struct LidDrainPatch {
    pub coefficient: Option<Number>,
    pub exponent: Option<Number>,
    pub offset: Option<Number>,
    pub delay_seconds: Option<Timedelta>,
    pub open_head: Option<Number>,
    pub close_head: Option<Number>,
}

/// A sparse drainage mat layer update.
#[derive(Clone, Copy, Debug)]
pub struct LidDrainageMatPatch {
    pub thickness: Option<Number>,
    pub void_fraction: Option<Number>,
    pub roughness: Option<Number>,
}

/// A sparse update of one LID-control layer.
#[derive(Clone, Copy, Debug)]
pub enum LidLayerPatch {
    Surface(LidSurfacePatch),
    Soil(LidSoilPatch),
    Storage(LidStoragePatch),
    Pavement(LidPavementPatch),
    Drain(LidDrainPatch),
    DrainageMat(LidDrainageMatPatch),
}

/// The empty update of the layer named `layer`, if the layer is known.
pub open spec fn spec_empty_layer_patch(layer: Seq<char>) -> Option<LidLayerPatch> {
    if layer == "surface"@ {
        Some(LidLayerPatch::Surface(LidSurfacePatch { thickness: None, vegetation_volume_fraction: None, roughness: None, slope: None, side_slope: None }))
    } else if layer == "soil"@ {
        Some(LidLayerPatch::Soil(LidSoilPatch { thickness: None, porosity: None, field_capacity: None, wilting_point: None, saturated_conductivity: None, conductivity_slope: None, suction_head: None }))
    } else if layer == "storage"@ {
        Some(LidLayerPatch::Storage(LidStoragePatch { thickness: None, void_ratio: None, saturated_conductivity: None, clogging_factor: None }))
    } else if layer == "pavement"@ {
        Some(LidLayerPatch::Pavement(LidPavementPatch { thickness: None, void_ratio: None, impervious_fraction: None, saturated_conductivity: None, clogging_factor: None, regeneration_interval_seconds: None, regeneration_fraction: None }))
    } else if layer == "drain"@ {
        Some(LidLayerPatch::Drain(LidDrainPatch { coefficient: None, exponent: None, offset: None, delay_seconds: None, open_head: None, close_head: None }))
    } else if layer == "drainage_mat"@ {
        Some(LidLayerPatch::DrainageMat(LidDrainageMatPatch { thickness: None, void_fraction: None, roughness: None }))
    } else {
        None
    }
}

/// `patch` with one supplied `(key, value)` field of the layer named `layer` applied.
pub open spec fn spec_apply_layer_change(
    layer: Seq<char>,
    patch: LidLayerPatch,
    key: Option<String>,
    value: PyValue,
) -> Result<LidLayerPatch, Refusal> {
    match key {
        None => Err(Refusal::Detail("LID-layer update keys must be strings"@)),
        Some(k) => {
            let name = k@;
            match patch {
                LidLayerPatch::Surface(p) => if name == "thickness"@ {
                    match spec_lenient_number(value, name) {
                        Err(d) => Err(Refusal::Detail(d)),
                        Ok(v) => Ok(LidLayerPatch::Surface(LidSurfacePatch { thickness: Some(v), ..p })),
                    }
                } else if name == "vegetation_volume_fraction"@ {
                    match spec_lenient_number(value, name) {
                        Err(d) => Err(Refusal::Detail(d)),
                        Ok(v) => Ok(LidLayerPatch::Surface(LidSurfacePatch { vegetation_volume_fraction: Some(v), ..p })),
                    }
                } else if name == "roughness"@ {
                    match spec_lenient_number(value, name) {
                        Err(d) => Err(Refusal::Detail(d)),
                        Ok(v) => Ok(LidLayerPatch::Surface(LidSurfacePatch { roughness: Some(v), ..p })),
                    }
                } else if name == "slope"@ {
                    match spec_lenient_number(value, name) {
                        Err(d) => Err(Refusal::Detail(d)),
                        Ok(v) => Ok(LidLayerPatch::Surface(LidSurfacePatch { slope: Some(v), ..p })),
                    }
                } else if name == "side_slope"@ {
                    match spec_lenient_number(value, name) {
                        Err(d) => Err(Refusal::Detail(d)),
                        Ok(v) => Ok(LidLayerPatch::Surface(LidSurfacePatch { side_slope: Some(v), ..p })),
                    }
                } else {
                    Err(Refusal::Detail(spec_invalid_property(layer + "."@ + name)))
                },
                LidLayerPatch::Soil(p) => if name == "thickness"@ {
                    match spec_lenient_number(value, name) {
                        Err(d) => Err(Refusal::Detail(d)),
                        Ok(v) => Ok(LidLayerPatch::Soil(LidSoilPatch { thickness: Some(v), ..p })),
                    }
                } else if name == "porosity"@ {
                    match spec_lenient_number(value, name) {
                        Err(d) => Err(Refusal::Detail(d)),
                        Ok(v) => Ok(LidLayerPatch::Soil(LidSoilPatch { porosity: Some(v), ..p })),
                    }
                } else if name == "field_capacity"@ {
                    match spec_lenient_number(value, name) {
                        Err(d) => Err(Refusal::Detail(d)),
                        Ok(v) => Ok(LidLayerPatch::Soil(LidSoilPatch { field_capacity: Some(v), ..p })),
                    }
                } else if name == "wilting_point"@ {
                    match spec_lenient_number(value, name) {
                        Err(d) => Err(Refusal::Detail(d)),
                        Ok(v) => Ok(LidLayerPatch::Soil(LidSoilPatch { wilting_point: Some(v), ..p })),
                    }
                } else if name == "saturated_conductivity"@ {
                    match spec_lenient_number(value, name) {
                        Err(d) => Err(Refusal::Detail(d)),
                        Ok(v) => Ok(LidLayerPatch::Soil(LidSoilPatch { saturated_conductivity: Some(v), ..p })),
                    }
                } else if name == "conductivity_slope"@ {
                    match spec_lenient_number(value, name) {
                        Err(d) => Err(Refusal::Detail(d)),
                        Ok(v) => Ok(LidLayerPatch::Soil(LidSoilPatch { conductivity_slope: Some(v), ..p })),
                    }
                } else if name == "suction_head"@ {
                    match spec_lenient_number(value, name) {
                        Err(d) => Err(Refusal::Detail(d)),
                        Ok(v) => Ok(LidLayerPatch::Soil(LidSoilPatch { suction_head: Some(v), ..p })),
                    }
                } else {
                    Err(Refusal::Detail(spec_invalid_property(layer + "."@ + name)))
                },
                LidLayerPatch::Storage(p) => if name == "thickness"@ {
                    match spec_lenient_number(value, name) {
                        Err(d) => Err(Refusal::Detail(d)),
                        Ok(v) => Ok(LidLayerPatch::Storage(LidStoragePatch { thickness: Some(v), ..p })),
                    }
                } else if name == "void_ratio"@ {
                    match spec_lenient_number(value, name) {
                        Err(d) => Err(Refusal::Detail(d)),
                        Ok(v) => Ok(LidLayerPatch::Storage(LidStoragePatch { void_ratio: Some(v), ..p })),
                    }
                } else if name == "saturated_conductivity"@ {
                    match spec_lenient_number(value, name) {
                        Err(d) => Err(Refusal::Detail(d)),
                        Ok(v) => Ok(LidLayerPatch::Storage(LidStoragePatch { saturated_conductivity: Some(v), ..p })),
                    }
                } else if name == "clogging_factor"@ {
                    match spec_lenient_number(value, name) {
                        Err(d) => Err(Refusal::Detail(d)),
                        Ok(v) => Ok(LidLayerPatch::Storage(LidStoragePatch { clogging_factor: Some(v), ..p })),
                    }
                } else {
                    Err(Refusal::Detail(spec_invalid_property(layer + "."@ + name)))
                },
                LidLayerPatch::Pavement(p) => if name == "thickness"@ {
                    match spec_lenient_number(value, name) {
                        Err(d) => Err(Refusal::Detail(d)),
                        Ok(v) => Ok(LidLayerPatch::Pavement(LidPavementPatch { thickness: Some(v), ..p })),
                    }
                } else if name == "void_ratio"@ {
                    match spec_lenient_number(value, name) {
                        Err(d) => Err(Refusal::Detail(d)),
                        Ok(v) => Ok(LidLayerPatch::Pavement(LidPavementPatch { void_ratio: Some(v), ..p })),
                    }
                } else if name == "impervious_fraction"@ {
                    match spec_lenient_number(value, name) {
                        Err(d) => Err(Refusal::Detail(d)),
                        Ok(v) => Ok(LidLayerPatch::Pavement(LidPavementPatch { impervious_fraction: Some(v), ..p })),
                    }
                } else if name == "saturated_conductivity"@ {
                    match spec_lenient_number(value, name) {
                        Err(d) => Err(Refusal::Detail(d)),
                        Ok(v) => Ok(LidLayerPatch::Pavement(LidPavementPatch { saturated_conductivity: Some(v), ..p })),
                    }
                } else if name == "clogging_factor"@ {
                    match spec_lenient_number(value, name) {
                        Err(d) => Err(Refusal::Detail(d)),
                        Ok(v) => Ok(LidLayerPatch::Pavement(LidPavementPatch { clogging_factor: Some(v), ..p })),
                    }
                } else if name == "regeneration_interval"@ {
                    match spec_duration(value, name) {
                        Err(d) => Err(Refusal::Detail(d)),
                        Ok(v) => Ok(LidLayerPatch::Pavement(LidPavementPatch { regeneration_interval_seconds: Some(v), ..p })),
                    }
                } else if name == "regeneration_fraction"@ {
                    match spec_lenient_number(value, name) {
                        Err(d) => Err(Refusal::Detail(d)),
                        Ok(v) => Ok(LidLayerPatch::Pavement(LidPavementPatch { regeneration_fraction: Some(v), ..p })),
                    }
                } else {
                    Err(Refusal::Detail(spec_invalid_property(layer + "."@ + name)))
                },
                LidLayerPatch::Drain(p) => if name == "coefficient"@ {
                    match spec_lenient_number(value, name) {
                        Err(d) => Err(Refusal::Detail(d)),
                        Ok(v) => Ok(LidLayerPatch::Drain(LidDrainPatch { coefficient: Some(v), ..p })),
                    }
                } else if name == "exponent"@ {
                    match spec_lenient_number(value, name) {
                        Err(d) => Err(Refusal::Detail(d)),
                        Ok(v) => Ok(LidLayerPatch::Drain(LidDrainPatch { exponent: Some(v), ..p })),
                    }
                } else if name == "offset"@ {
                    match spec_lenient_number(value, name) {
                        Err(d) => Err(Refusal::Detail(d)),
                        Ok(v) => Ok(LidLayerPatch::Drain(LidDrainPatch { offset: Some(v), ..p })),
                    }
                } else if name == "delay"@ {
                    match spec_duration(value, name) {
                        Err(d) => Err(Refusal::Detail(d)),
                        Ok(v) => Ok(LidLayerPatch::Drain(LidDrainPatch { delay_seconds: Some(v), ..p })),
                    }
                } else if name == "open_head"@ {
                    match spec_lenient_number(value, name) {
                        Err(d) => Err(Refusal::Detail(d)),
                        Ok(v) => Ok(LidLayerPatch::Drain(LidDrainPatch { open_head: Some(v), ..p })),
                    }
                } else if name == "close_head"@ {
                    match spec_lenient_number(value, name) {
                        Err(d) => Err(Refusal::Detail(d)),
                        Ok(v) => Ok(LidLayerPatch::Drain(LidDrainPatch { close_head: Some(v), ..p })),
                    }
                } else {
                    Err(Refusal::Detail(spec_invalid_property(layer + "."@ + name)))
                },
                LidLayerPatch::DrainageMat(p) => if name == "thickness"@ {
                    match spec_lenient_number(value, name) {
                        Err(d) => Err(Refusal::Detail(d)),
                        Ok(v) => Ok(LidLayerPatch::DrainageMat(LidDrainageMatPatch { thickness: Some(v), ..p })),
                    }
                } else if name == "void_fraction"@ {
                    match spec_lenient_number(value, name) {
                        Err(d) => Err(Refusal::Detail(d)),
                        Ok(v) => Ok(LidLayerPatch::DrainageMat(LidDrainageMatPatch { void_fraction: Some(v), ..p })),
                    }
                } else if name == "roughness"@ {
                    match spec_lenient_number(value, name) {
                        Err(d) => Err(Refusal::Detail(d)),
                        Ok(v) => Ok(LidLayerPatch::DrainageMat(LidDrainageMatPatch { roughness: Some(v), ..p })),
                    }
                } else {
                    Err(Refusal::Detail(spec_invalid_property(layer + "."@ + name)))
                },
            }
        },
    }
}

/// The patch built from the first `n` supplied fields of the layer named `layer`.
pub open spec fn spec_layer_patch(
    layer: Seq<char>,
    changes: Seq<(Option<String>, PyValue)>,
    n: int,
) -> Result<LidLayerPatch, Refusal>
    decreases n,
{
    if n <= 0 {
        match spec_empty_layer_patch(layer) {
            Some(p) => Ok(p),
            None => Err(Refusal::Detail(spec_invalid_property(layer))),
        }
    } else {
        match spec_layer_patch(layer, changes, n - 1) {
            Err(r) => Err(r),
            Ok(p) => spec_apply_layer_change(layer, p, changes[n - 1].0, changes[n - 1].1),
        }
    }
}

/// Once a layer field is refused, every longer prefix is refused the same way.
pub proof fn lemma_layer_patch_refusal(
    layer: Seq<char>,
    changes: Seq<(Option<String>, PyValue)>,
    i: int,
    n: int,
)
    requires
        0 <= i <= n,
        spec_layer_patch(layer, changes, i) is Err,
    ensures
        spec_layer_patch(layer, changes, n) == spec_layer_patch(layer, changes, i),
    decreases n - i,
{
    if n > i {
        lemma_layer_patch_refusal(layer, changes, i, n - 1);
    }
}

/// Creates the empty update of the layer named `layer`, if the layer is known.
fn empty_layer_patch(layer: &str) -> (patch: Option<LidLayerPatch>)
    ensures
        patch == spec_empty_layer_patch(layer@),
{
    if str_eq(layer, "surface") {
        Some(LidLayerPatch::Surface(LidSurfacePatch { thickness: None, vegetation_volume_fraction: None, roughness: None, slope: None, side_slope: None }))
    } else if str_eq(layer, "soil") {
        Some(LidLayerPatch::Soil(LidSoilPatch { thickness: None, porosity: None, field_capacity: None, wilting_point: None, saturated_conductivity: None, conductivity_slope: None, suction_head: None }))
    } else if str_eq(layer, "storage") {
        Some(LidLayerPatch::Storage(LidStoragePatch { thickness: None, void_ratio: None, saturated_conductivity: None, clogging_factor: None }))
    } else if str_eq(layer, "pavement") {
        Some(LidLayerPatch::Pavement(LidPavementPatch { thickness: None, void_ratio: None, impervious_fraction: None, saturated_conductivity: None, clogging_factor: None, regeneration_interval_seconds: None, regeneration_fraction: None }))
    } else if str_eq(layer, "drain") {
        Some(LidLayerPatch::Drain(LidDrainPatch { coefficient: None, exponent: None, offset: None, delay_seconds: None, open_head: None, close_head: None }))
    } else if str_eq(layer, "drainage_mat") {
        Some(LidLayerPatch::DrainageMat(LidDrainageMatPatch { thickness: None, void_fraction: None, roughness: None }))
    } else {
        None
    }
}

/// Applies one supplied `(key, value)` field of the layer named `layer` to `patch`.
fn apply_layer_change(layer: &str, patch: LidLayerPatch, key: Option<String>, value: PyValue) -> (result:
    Result<LidLayerPatch, NativeError>)
    ensures
        spec_refusal_outcome(
            result,
            spec_apply_layer_change(layer@, patch, key, value),
            "update_lid_control_layer",
        ),
{
    let operation = "update_lid_control_layer";
    let name = match key {
        Some(k) => k,
        None => {
            return Err(lid_py_error(operation, String::from_str("LID-layer update keys must be strings")));
        },
    };
    let n = name.as_str();
    match patch {
        LidLayerPatch::Surface(p) => {
            let mut p = p;
            if str_eq(n, "thickness") {
                match lid_float(&value, n, operation) {
                    Err(e) => {
                        return Err(e);
                    },
                    Ok(v) => {
                        p.thickness = Some(v);
                        return Ok(LidLayerPatch::Surface(p));
                    },
                }
            }
            if str_eq(n, "vegetation_volume_fraction") {
                match lid_float(&value, n, operation) {
                    Err(e) => {
                        return Err(e);
                    },
                    Ok(v) => {
                        p.vegetation_volume_fraction = Some(v);
                        return Ok(LidLayerPatch::Surface(p));
                    },
                }
            }
            if str_eq(n, "roughness") {
                match lid_float(&value, n, operation) {
                    Err(e) => {
                        return Err(e);
                    },
                    Ok(v) => {
                        p.roughness = Some(v);
                        return Ok(LidLayerPatch::Surface(p));
                    },
                }
            }
            if str_eq(n, "slope") {
                match lid_float(&value, n, operation) {
                    Err(e) => {
                        return Err(e);
                    },
                    Ok(v) => {
                        p.slope = Some(v);
                        return Ok(LidLayerPatch::Surface(p));
                    },
                }
            }
            if str_eq(n, "side_slope") {
                match lid_float(&value, n, operation) {
                    Err(e) => {
                        return Err(e);
                    },
                    Ok(v) => {
                        p.side_slope = Some(v);
                        return Ok(LidLayerPatch::Surface(p));
                    },
                }
            }
        },
        LidLayerPatch::Soil(p) => {
            let mut p = p;
            if str_eq(n, "thickness") {
                match lid_float(&value, n, operation) {
                    Err(e) => {
                        return Err(e);
                    },
                    Ok(v) => {
                        p.thickness = Some(v);
                        return Ok(LidLayerPatch::Soil(p));
                    },
                }
            }
            if str_eq(n, "porosity") {
                match lid_float(&value, n, operation) {
                    Err(e) => {
                        return Err(e);
                    },
                    Ok(v) => {
                        p.porosity = Some(v);
                        return Ok(LidLayerPatch::Soil(p));
                    },
                }
            }
            if str_eq(n, "field_capacity") {
                match lid_float(&value, n, operation) {
                    Err(e) => {
                        return Err(e);
                    },
                    Ok(v) => {
                        p.field_capacity = Some(v);
                        return Ok(LidLayerPatch::Soil(p));
                    },
                }
            }
            if str_eq(n, "wilting_point") {
                match lid_float(&value, n, operation) {
                    Err(e) => {
                        return Err(e);
                    },
                    Ok(v) => {
                        p.wilting_point = Some(v);
                        return Ok(LidLayerPatch::Soil(p));
                    },
                }
            }
            if str_eq(n, "saturated_conductivity") {
                match lid_float(&value, n, operation) {
                    Err(e) => {
                        return Err(e);
                    },
                    Ok(v) => {
                        p.saturated_conductivity = Some(v);
                        return Ok(LidLayerPatch::Soil(p));
                    },
                }
            }
            if str_eq(n, "conductivity_slope") {
                match lid_float(&value, n, operation) {
                    Err(e) => {
                        return Err(e);
                    },
                    Ok(v) => {
                        p.conductivity_slope = Some(v);
                        return Ok(LidLayerPatch::Soil(p));
                    },
                }
            }
            if str_eq(n, "suction_head") {
                match lid_float(&value, n, operation) {
                    Err(e) => {
                        return Err(e);
                    },
                    Ok(v) => {
                        p.suction_head = Some(v);
                        return Ok(LidLayerPatch::Soil(p));
                    },
                }
            }
        },
        LidLayerPatch::Storage(p) => {
            let mut p = p;
            if str_eq(n, "thickness") {
                match lid_float(&value, n, operation) {
                    Err(e) => {
                        return Err(e);
                    },
                    Ok(v) => {
                        p.thickness = Some(v);
                        return Ok(LidLayerPatch::Storage(p));
                    },
                }
            }
            if str_eq(n, "void_ratio") {
                match lid_float(&value, n, operation) {
                    Err(e) => {
                        return Err(e);
                    },
                    Ok(v) => {
                        p.void_ratio = Some(v);
                        return Ok(LidLayerPatch::Storage(p));
                    },
                }
            }
            if str_eq(n, "saturated_conductivity") {
                match lid_float(&value, n, operation) {
                    Err(e) => {
                        return Err(e);
                    },
                    Ok(v) => {
                        p.saturated_conductivity = Some(v);
                        return Ok(LidLayerPatch::Storage(p));
                    },
                }
            }
            if str_eq(n, "clogging_factor") {
                match lid_float(&value, n, operation) {
                    Err(e) => {
                        return Err(e);
                    },
                    Ok(v) => {
                        p.clogging_factor = Some(v);
                        return Ok(LidLayerPatch::Storage(p));
                    },
                }
            }
        },
        LidLayerPatch::Pavement(p) => {
            let mut p = p;
            if str_eq(n, "thickness") {
                match lid_float(&value, n, operation) {
                    Err(e) => {
                        return Err(e);
                    },
                    Ok(v) => {
                        p.thickness = Some(v);
                        return Ok(LidLayerPatch::Pavement(p));
                    },
                }
            }
            if str_eq(n, "void_ratio") {
                match lid_float(&value, n, operation) {
                    Err(e) => {
                        return Err(e);
                    },
                    Ok(v) => {
                        p.void_ratio = Some(v);
                        return Ok(LidLayerPatch::Pavement(p));
                    },
                }
            }
            if str_eq(n, "impervious_fraction") {
                match lid_float(&value, n, operation) {
                    Err(e) => {
                        return Err(e);
                    },
                    Ok(v) => {
                        p.impervious_fraction = Some(v);
                        return Ok(LidLayerPatch::Pavement(p));
                    },
                }
            }
            if str_eq(n, "saturated_conductivity") {
                match lid_float(&value, n, operation) {
                    Err(e) => {
                        return Err(e);
                    },
                    Ok(v) => {
                        p.saturated_conductivity = Some(v);
                        return Ok(LidLayerPatch::Pavement(p));
                    },
                }
            }
            if str_eq(n, "clogging_factor") {
                match lid_float(&value, n, operation) {
                    Err(e) => {
                        return Err(e);
                    },
                    Ok(v) => {
                        p.clogging_factor = Some(v);
                        return Ok(LidLayerPatch::Pavement(p));
                    },
                }
            }
            if str_eq(n, "regeneration_interval") {
                match lid_duration_seconds(&value, n, operation) {
                    Err(e) => {
                        return Err(e);
                    },
                    Ok(v) => {
                        p.regeneration_interval_seconds = Some(v);
                        return Ok(LidLayerPatch::Pavement(p));
                    },
                }
            }
            if str_eq(n, "regeneration_fraction") {
                match lid_float(&value, n, operation) {
                    Err(e) => {
                        return Err(e);
                    },
                    Ok(v) => {
                        p.regeneration_fraction = Some(v);
                        return Ok(LidLayerPatch::Pavement(p));
                    },
                }
            }
        },
        LidLayerPatch::Drain(p) => {
            let mut p = p;
            if str_eq(n, "coefficient") {
                match lid_float(&value, n, operation) {
                    Err(e) => {
                        return Err(e);
                    },
                    Ok(v) => {
                        p.coefficient = Some(v);
                        return Ok(LidLayerPatch::Drain(p));
                    },
                }
            }
            if str_eq(n, "exponent") {
                match lid_float(&value, n, operation) {
                    Err(e) => {
                        return Err(e);
                    },
                    Ok(v) => {
                        p.exponent = Some(v);
                        return Ok(LidLayerPatch::Drain(p));
                    },
                }
            }
            if str_eq(n, "offset") {
                match lid_float(&value, n, operation) {
                    Err(e) => {
                        return Err(e);
                    },
                    Ok(v) => {
                        p.offset = Some(v);
                        return Ok(LidLayerPatch::Drain(p));
                    },
                }
            }
            if str_eq(n, "delay") {
                match lid_duration_seconds(&value, n, operation) {
                    Err(e) => {
                        return Err(e);
                    },
                    Ok(v) => {
                        p.delay_seconds = Some(v);
                        return Ok(LidLayerPatch::Drain(p));
                    },
                }
            }
            if str_eq(n, "open_head") {
                match lid_float(&value, n, operation) {
                    Err(e) => {
                        return Err(e);
                    },
                    Ok(v) => {
                        p.open_head = Some(v);
                        return Ok(LidLayerPatch::Drain(p));
                    },
                }
            }
            if str_eq(n, "close_head") {
                match lid_float(&value, n, operation) {
                    Err(e) => {
                        return Err(e);
                    },
                    Ok(v) => {
                        p.close_head = Some(v);
                        return Ok(LidLayerPatch::Drain(p));
                    },
                }
            }
        },
        LidLayerPatch::DrainageMat(p) => {
            let mut p = p;
            if str_eq(n, "thickness") {
                match lid_float(&value, n, operation) {
                    Err(e) => {
                        return Err(e);
                    },
                    Ok(v) => {
                        p.thickness = Some(v);
                        return Ok(LidLayerPatch::DrainageMat(p));
                    },
                }
            }
            if str_eq(n, "void_fraction") {
                match lid_float(&value, n, operation) {
                    Err(e) => {
                        return Err(e);
                    },
                    Ok(v) => {
                        p.void_fraction = Some(v);
                        return Ok(LidLayerPatch::DrainageMat(p));
                    },
                }
            }
            if str_eq(n, "roughness") {
                match lid_float(&value, n, operation) {
                    Err(e) => {
                        return Err(e);
                    },
                    Ok(v) => {
                        p.roughness = Some(v);
                        return Ok(LidLayerPatch::DrainageMat(p));
                    },
                }
            }
        },
    }
    let path = String::from_str(layer).concat(".").concat(n);
    Err(invalid_property(operation, path.as_str()))
}

/// Extracts one sparse update of the LID-control layer named `layer`.
///
/// `changes` are the supplied `(key, value)` pairs in mapping order, a key that is not a `str`
/// given as `None`.
pub fn extract_lid_layer_patch(layer: &str, changes: Vec<(Option<String>, PyValue)>) -> (result: Result<
    LidLayerPatch,
    NativeError,
>)
    ensures
        spec_refusal_outcome(
            result,
            spec_layer_patch(layer@, changes@, changes@.len() as int),
            "update_lid_control_layer",
        ),
{
    let count: usize = changes.len();
    let ghost all = changes@;
    let mut patch = match empty_layer_patch(layer) {
        Some(p) => p,
        None => {
            proof {
                if count > 0 {
                    lemma_layer_patch_refusal(layer@, all, 0, count as int);
                }
            }
            return Err(invalid_property("update_lid_control_layer", layer));
        },
    };
    let mut remaining = changes;
    let mut taken: usize = 0;
    proof {
        assert(remaining@ =~= all.skip(0));
    }
    while taken < count
        invariant
            count == all.len(),
            all == changes@,
            taken <= count,
            remaining@ == all.skip(taken as int),
            spec_layer_patch(layer@, all, taken as int) == Ok::<LidLayerPatch, Refusal>(patch),
        decreases count - taken,
    {
        let (key, value) = remaining.remove(0);
        proof {
            assert(remaining@ =~= all.skip(taken + 1));
            assert(all[taken as int] == (key, value));
        }
        let ghost before = patch;
        match apply_layer_change(layer, patch, key, value) {
            Ok(next) => {
                patch = next;
            },
            Err(e) => {
                proof {
                    assert(spec_layer_patch(layer@, all, taken + 1) == spec_apply_layer_change(
                        layer@,
                        before,
                        all[taken as int].0,
                        all[taken as int].1,
                    ));
                    lemma_layer_patch_refusal(layer@, all, taken + 1, count as int);
                }
                return Err(e);
            },
        }
        taken = taken + 1;
    }
    Ok(patch)
}

/// Which optional layers an LID control has configured.
#[derive(Clone, Copy, Debug, PartialEq, Eq, Structural)]
pub struct LidLayersConfigured {
    pub surface: bool,
    pub soil: bool,
    pub storage: bool,
    pub pavement: bool,
    pub drain: bool,
    pub drainage_mat: bool,
}

/// True when the layer a patch updates is configured.
pub open spec fn spec_lid_patch_layer_present(patch: LidLayerPatch, configured: LidLayersConfigured) -> bool {
    match patch {
        LidLayerPatch::Surface(_) => configured.surface,
        LidLayerPatch::Soil(_) => configured.soil,
        LidLayerPatch::Storage(_) => configured.storage,
        LidLayerPatch::Pavement(_) => configured.pavement,
        LidLayerPatch::Drain(_) => configured.drain,
        LidLayerPatch::DrainageMat(_) => configured.drainage_mat,
    }
}

/// Returns whether the layer a patch updates is configured.
pub fn lid_patch_layer_present(patch: LidLayerPatch, configured: LidLayersConfigured) -> (present: bool)
    ensures
        present == spec_lid_patch_layer_present(patch, configured),
{
    match patch {
        LidLayerPatch::Surface(_) => configured.surface,
        LidLayerPatch::Soil(_) => configured.soil,
        LidLayerPatch::Storage(_) => configured.storage,
        LidLayerPatch::Pavement(_) => configured.pavement,
        LidLayerPatch::Drain(_) => configured.drain,
        LidLayerPatch::DrainageMat(_) => configured.drainage_mat,
    }
}

/// Where an LID unit's underdrain discharges.
#[derive(Clone, Copy, Debug)]
pub enum LidDrainDestination {
    /// No underdrain destination.
    Disconnected,
    Node(usize),
    Subcatchment(usize),
}

/// A sparse, resolved LID-unit patch.
#[derive(Clone, Copy, Debug)]
pub struct LidUnitPatch {
    pub area: Option<Number>,
    pub full_width: Option<Number>,
    pub initial_saturation: Option<Number>,
    pub impervious_runoff_treated: Option<Number>,
    pub pervious_runoff_treated: Option<Number>,
    pub count: Option<i32>,
    pub routes_to_pervious: Option<bool>,
    pub control_index: Option<usize>,
    pub drain_destination: Option<LidDrainDestination>,
}

/// Every supplied LID-unit setting, with its related objects not resolved yet.
#[derive(Debug)]
pub struct NativeLidUnitUpdate {
    pub patch: LidUnitPatch,
    pub control: Option<RelatedObject>,
    pub drain_destination: Option<Option<RelatedObject>>,
}

/// The empty LID-unit update.
pub open spec fn spec_empty_lid_unit_update() -> NativeLidUnitUpdate {
    NativeLidUnitUpdate {
        patch: LidUnitPatch {
            area: None,
            full_width: None,
            initial_saturation: None,
            impervious_runoff_treated: None,
            pervious_runoff_treated: None,
            count: None,
            routes_to_pervious: None,
            control_index: None,
            drain_destination: None,
        },
        control: None,
        drain_destination: None,
    }
}

/// `update` with one supplied `(key, value)` LID-unit setting applied.
pub open spec fn spec_apply_lid_unit_change(
    u: NativeLidUnitUpdate,
    key: Option<String>,
    value: PyValue,
) -> Result<NativeLidUnitUpdate, Refusal> {
    match key {
        None => Err(Refusal::Detail("LID-unit update keys must be strings"@)),
        Some(k) => {
            let name = k@;
            if name == "area"@ {
                match spec_lenient_number(value, name) {
                    Err(d) => Err(Refusal::Detail(d)),
                    Ok(v) => Ok(NativeLidUnitUpdate { patch: LidUnitPatch { area: Some(v), ..u.patch }, ..u }),
                }
            } else if name == "full_width"@ {
                match spec_lenient_number(value, name) {
                    Err(d) => Err(Refusal::Detail(d)),
                    Ok(v) => Ok(NativeLidUnitUpdate { patch: LidUnitPatch { full_width: Some(v), ..u.patch }, ..u }),
                }
            } else if name == "initial_saturation"@ {
                match spec_lenient_number(value, name) {
                    Err(d) => Err(Refusal::Detail(d)),
                    Ok(v) => Ok(NativeLidUnitUpdate { patch: LidUnitPatch { initial_saturation: Some(v), ..u.patch }, ..u }),
                }
            } else if name == "impervious_runoff_treated"@ {
                match spec_lenient_number(value, name) {
                    Err(d) => Err(Refusal::Detail(d)),
                    Ok(v) => Ok(NativeLidUnitUpdate { patch: LidUnitPatch { impervious_runoff_treated: Some(v), ..u.patch }, ..u }),
                }
            } else if name == "pervious_runoff_treated"@ {
                match spec_lenient_number(value, name) {
                    Err(d) => Err(Refusal::Detail(d)),
                    Ok(v) => Ok(NativeLidUnitUpdate { patch: LidUnitPatch { pervious_runoff_treated: Some(v), ..u.patch }, ..u }),
                }
            } else if name == "control"@ {
                match spec_related(value) {
                    Err(e) => Err(Refusal::Raised(e)),
                    Ok(r) => Ok(NativeLidUnitUpdate { control: r, ..u }),
                }
            } else if name == "count"@ {
                match spec_integer(value, name) {
                    Err(d) => Err(Refusal::Detail(d)),
                    Ok(v) => Ok(NativeLidUnitUpdate { patch: LidUnitPatch { count: Some(v), ..u.patch }, ..u }),
                }
            } else if name == "routes_to_pervious"@ {
                match spec_strict_bool(value, name) {
                    Err(d) => Err(Refusal::Detail(d)),
                    Ok(v) => Ok(NativeLidUnitUpdate { patch: LidUnitPatch { routes_to_pervious: Some(v), ..u.patch }, ..u }),
                }
            } else if name == "drain_destination"@ {
                match spec_related(value) {
                    Err(e) => Err(Refusal::Raised(e)),
                    Ok(r) => Ok(NativeLidUnitUpdate { drain_destination: Some(r), ..u }),
                }
            } else {
                Err(Refusal::Detail(spec_invalid_property(name)))
            }
        },
    }
}

/// Each supported LID-unit setting lands in its own field of the update, taking the value read from what was supplied for it, and nothing else changes.
pub proof fn lemma_lid_unit_settings_land_in_their_fields(u: NativeLidUnitUpdate)
    ensures
        forall|k: String, value: PyValue| k@ == "area"@ && spec_lenient_number(value, k@) is Ok ==> #[trigger] spec_apply_lid_unit_change(u, Some(k), value) == Ok::<NativeLidUnitUpdate, Refusal>(NativeLidUnitUpdate { patch: LidUnitPatch { area: Some((spec_lenient_number(value, k@)->Ok_0)), ..u.patch }, ..u }),
        forall|k: String, value: PyValue| k@ == "full_width"@ && spec_lenient_number(value, k@) is Ok ==> #[trigger] spec_apply_lid_unit_change(u, Some(k), value) == Ok::<NativeLidUnitUpdate, Refusal>(NativeLidUnitUpdate { patch: LidUnitPatch { full_width: Some((spec_lenient_number(value, k@)->Ok_0)), ..u.patch }, ..u }),
        forall|k: String, value: PyValue| k@ == "initial_saturation"@ && spec_lenient_number(value, k@) is Ok ==> #[trigger] spec_apply_lid_unit_change(u, Some(k), value) == Ok::<NativeLidUnitUpdate, Refusal>(NativeLidUnitUpdate { patch: LidUnitPatch { initial_saturation: Some((spec_lenient_number(value, k@)->Ok_0)), ..u.patch }, ..u }),
        forall|k: String, value: PyValue| k@ == "impervious_runoff_treated"@ && spec_lenient_number(value, k@) is Ok ==> #[trigger] spec_apply_lid_unit_change(u, Some(k), value) == Ok::<NativeLidUnitUpdate, Refusal>(NativeLidUnitUpdate { patch: LidUnitPatch { impervious_runoff_treated: Some((spec_lenient_number(value, k@)->Ok_0)), ..u.patch }, ..u }),
        forall|k: String, value: PyValue| k@ == "pervious_runoff_treated"@ && spec_lenient_number(value, k@) is Ok ==> #[trigger] spec_apply_lid_unit_change(u, Some(k), value) == Ok::<NativeLidUnitUpdate, Refusal>(NativeLidUnitUpdate { patch: LidUnitPatch { pervious_runoff_treated: Some((spec_lenient_number(value, k@)->Ok_0)), ..u.patch }, ..u }),
        forall|k: String, value: PyValue| k@ == "control"@ && spec_related(value) is Ok ==> #[trigger] spec_apply_lid_unit_change(u, Some(k), value) == Ok::<NativeLidUnitUpdate, Refusal>(NativeLidUnitUpdate { control: (spec_related(value)->Ok_0), ..u }),
        forall|k: String, value: PyValue| k@ == "count"@ && spec_integer(value, k@) is Ok ==> #[trigger] spec_apply_lid_unit_change(u, Some(k), value) == Ok::<NativeLidUnitUpdate, Refusal>(NativeLidUnitUpdate { patch: LidUnitPatch { count: Some((spec_integer(value, k@)->Ok_0)), ..u.patch }, ..u }),
        forall|k: String, value: PyValue| k@ == "routes_to_pervious"@ && spec_strict_bool(value, k@) is Ok ==> #[trigger] spec_apply_lid_unit_change(u, Some(k), value) == Ok::<NativeLidUnitUpdate, Refusal>(NativeLidUnitUpdate { patch: LidUnitPatch { routes_to_pervious: Some((spec_strict_bool(value, k@)->Ok_0)), ..u.patch }, ..u }),
        forall|k: String, value: PyValue| k@ == "drain_destination"@ && spec_related(value) is Ok ==> #[trigger] spec_apply_lid_unit_change(u, Some(k), value) == Ok::<NativeLidUnitUpdate, Refusal>(NativeLidUnitUpdate { drain_destination: Some((spec_related(value)->Ok_0)), ..u }),
{
    assert forall|k: String, value: PyValue| k@ == "area"@ && spec_lenient_number(value, k@) is Ok implies #[trigger] spec_apply_lid_unit_change(u, Some(k), value) == Ok::<NativeLidUnitUpdate, Refusal>(NativeLidUnitUpdate { patch: LidUnitPatch { area: Some((spec_lenient_number(value, k@)->Ok_0)), ..u.patch }, ..u }) by {
        reveal_strlit("area");
    }
    assert forall|k: String, value: PyValue| k@ == "full_width"@ && spec_lenient_number(value, k@) is Ok implies #[trigger] spec_apply_lid_unit_change(u, Some(k), value) == Ok::<NativeLidUnitUpdate, Refusal>(NativeLidUnitUpdate { patch: LidUnitPatch { full_width: Some((spec_lenient_number(value, k@)->Ok_0)), ..u.patch }, ..u }) by {
        reveal_strlit("full_width");
        reveal_strlit("area");
        assert("full_width"@.len() != "area"@.len());
    }
    assert forall|k: String, value: PyValue| k@ == "initial_saturation"@ && spec_lenient_number(value, k@) is Ok implies #[trigger] spec_apply_lid_unit_change(u, Some(k), value) == Ok::<NativeLidUnitUpdate, Refusal>(NativeLidUnitUpdate { patch: LidUnitPatch { initial_saturation: Some((spec_lenient_number(value, k@)->Ok_0)), ..u.patch }, ..u }) by {
        reveal_strlit("initial_saturation");
        reveal_strlit("area");
        assert("initial_saturation"@.len() != "area"@.len());
        reveal_strlit("full_width");
        assert("initial_saturation"@.len() != "full_width"@.len());
    }
    assert forall|k: String, value: PyValue| k@ == "impervious_runoff_treated"@ && spec_lenient_number(value, k@) is Ok implies #[trigger] spec_apply_lid_unit_change(u, Some(k), value) == Ok::<NativeLidUnitUpdate, Refusal>(NativeLidUnitUpdate { patch: LidUnitPatch { impervious_runoff_treated: Some((spec_lenient_number(value, k@)->Ok_0)), ..u.patch }, ..u }) by {
        reveal_strlit("impervious_runoff_treated");
        reveal_strlit("area");
        assert("impervious_runoff_treated"@.len() != "area"@.len());
        reveal_strlit("full_width");
        assert("impervious_runoff_treated"@.len() != "full_width"@.len());
        reveal_strlit("initial_saturation");
        assert("impervious_runoff_treated"@.len() != "initial_saturation"@.len());
    }
    assert forall|k: String, value: PyValue| k@ == "pervious_runoff_treated"@ && spec_lenient_number(value, k@) is Ok implies #[trigger] spec_apply_lid_unit_change(u, Some(k), value) == Ok::<NativeLidUnitUpdate, Refusal>(NativeLidUnitUpdate { patch: LidUnitPatch { pervious_runoff_treated: Some((spec_lenient_number(value, k@)->Ok_0)), ..u.patch }, ..u }) by {
        reveal_strlit("pervious_runoff_treated");
        reveal_strlit("area");
        assert("pervious_runoff_treated"@.len() != "area"@.len());
        reveal_strlit("full_width");
        assert("pervious_runoff_treated"@.len() != "full_width"@.len());
        reveal_strlit("initial_saturation");
        assert("pervious_runoff_treated"@.len() != "initial_saturation"@.len());
        reveal_strlit("impervious_runoff_treated");
        assert("pervious_runoff_treated"@.len() != "impervious_runoff_treated"@.len());
    }
    assert forall|k: String, value: PyValue| k@ == "control"@ && spec_related(value) is Ok implies #[trigger] spec_apply_lid_unit_change(u, Some(k), value) == Ok::<NativeLidUnitUpdate, Refusal>(NativeLidUnitUpdate { control: (spec_related(value)->Ok_0), ..u }) by {
        reveal_strlit("control");
        reveal_strlit("area");
        assert("control"@.len() != "area"@.len());
        reveal_strlit("full_width");
        assert("control"@.len() != "full_width"@.len());
        reveal_strlit("initial_saturation");
        assert("control"@.len() != "initial_saturation"@.len());
        reveal_strlit("impervious_runoff_treated");
        assert("control"@.len() != "impervious_runoff_treated"@.len());
        reveal_strlit("pervious_runoff_treated");
        assert("control"@.len() != "pervious_runoff_treated"@.len());
    }
    assert forall|k: String, value: PyValue| k@ == "count"@ && spec_integer(value, k@) is Ok implies #[trigger] spec_apply_lid_unit_change(u, Some(k), value) == Ok::<NativeLidUnitUpdate, Refusal>(NativeLidUnitUpdate { patch: LidUnitPatch { count: Some((spec_integer(value, k@)->Ok_0)), ..u.patch }, ..u }) by {
        reveal_strlit("count");
        reveal_strlit("area");
        assert("count"@.len() != "area"@.len());
        reveal_strlit("full_width");
        assert("count"@.len() != "full_width"@.len());
        reveal_strlit("initial_saturation");
        assert("count"@.len() != "initial_saturation"@.len());
        reveal_strlit("impervious_runoff_treated");
        assert("count"@.len() != "impervious_runoff_treated"@.len());
        reveal_strlit("pervious_runoff_treated");
        assert("count"@.len() != "pervious_runoff_treated"@.len());
        reveal_strlit("control");
        assert("count"@.len() != "control"@.len());
    }
    assert forall|k: String, value: PyValue| k@ == "routes_to_pervious"@ && spec_strict_bool(value, k@) is Ok implies #[trigger] spec_apply_lid_unit_change(u, Some(k), value) == Ok::<NativeLidUnitUpdate, Refusal>(NativeLidUnitUpdate { patch: LidUnitPatch { routes_to_pervious: Some((spec_strict_bool(value, k@)->Ok_0)), ..u.patch }, ..u }) by {
        reveal_strlit("routes_to_pervious");
        reveal_strlit("area");
        assert("routes_to_pervious"@.len() != "area"@.len());
        reveal_strlit("full_width");
        assert("routes_to_pervious"@.len() != "full_width"@.len());
        reveal_strlit("initial_saturation");
        assert("routes_to_pervious"@ != "initial_saturation"@) by { assert("routes_to_pervious"@[0] != "initial_saturation"@[0]); }
        reveal_strlit("impervious_runoff_treated");
        assert("routes_to_pervious"@.len() != "impervious_runoff_treated"@.len());
        reveal_strlit("pervious_runoff_treated");
        assert("routes_to_pervious"@.len() != "pervious_runoff_treated"@.len());
        reveal_strlit("control");
        assert("routes_to_pervious"@.len() != "control"@.len());
        reveal_strlit("count");
        assert("routes_to_pervious"@.len() != "count"@.len());
    }
    assert forall|k: String, value: PyValue| k@ == "drain_destination"@ && spec_related(value) is Ok implies #[trigger] spec_apply_lid_unit_change(u, Some(k), value) == Ok::<NativeLidUnitUpdate, Refusal>(NativeLidUnitUpdate { drain_destination: Some((spec_related(value)->Ok_0)), ..u }) by {
        reveal_strlit("drain_destination");
        reveal_strlit("area");
        assert("drain_destination"@.len() != "area"@.len());
        reveal_strlit("full_width");
        assert("drain_destination"@.len() != "full_width"@.len());
        reveal_strlit("initial_saturation");
        assert("drain_destination"@.len() != "initial_saturation"@.len());
        reveal_strlit("impervious_runoff_treated");
        assert("drain_destination"@.len() != "impervious_runoff_treated"@.len());
        reveal_strlit("pervious_runoff_treated");
        assert("drain_destination"@.len() != "pervious_runoff_treated"@.len());
        reveal_strlit("control");
        assert("drain_destination"@.len() != "control"@.len());
        reveal_strlit("count");
        assert("drain_destination"@.len() != "count"@.len());
        reveal_strlit("routes_to_pervious");
        assert("drain_destination"@.len() != "routes_to_pervious"@.len());
    }
}

/// The update built from the first `n` supplied LID-unit settings.
pub open spec fn spec_lid_unit_update(changes: Seq<(Option<String>, PyValue)>, n: int) -> Result<
    NativeLidUnitUpdate,
    Refusal,
>
    decreases n,
{
    if n <= 0 {
        Ok(spec_empty_lid_unit_update())
    } else {
        match spec_lid_unit_update(changes, n - 1) {
            Err(r) => Err(r),
            Ok(u) => spec_apply_lid_unit_change(u, changes[n - 1].0, changes[n - 1].1),
        }
    }
}

/// Once an LID-unit setting is refused, every longer prefix is refused the same way.
pub proof fn lemma_lid_unit_update_refusal(changes: Seq<(Option<String>, PyValue)>, i: int, n: int)
    requires
        0 <= i <= n,
        spec_lid_unit_update(changes, i) is Err,
    ensures
        spec_lid_unit_update(changes, n) == spec_lid_unit_update(changes, i),
    decreases n - i,
{
    if n > i {
        lemma_lid_unit_update_refusal(changes, i, n - 1);
    }
}

/// Applies one supplied `(key, value)` LID-unit setting to `update`.
fn apply_lid_unit_change(update: NativeLidUnitUpdate, key: Option<String>, value: PyValue) -> (result:
    Result<NativeLidUnitUpdate, NativeError>)
    ensures
        spec_refusal_outcome(result, spec_apply_lid_unit_change(update, key, value), "update_lid_unit"),
{
    let operation = "update_lid_unit";
    let name = match key {
        Some(k) => k,
        None => {
            return Err(lid_py_error(operation, String::from_str("LID-unit update keys must be strings")));
        },
    };
    let n = name.as_str();
    let mut u = update;
    if str_eq(n, "area") {
        match lid_float(&value, n, operation) {
            Err(e) => {
                return Err(e);
            },
            Ok(v) => {
                u.patch.area = Some(v);
                return Ok(u);
            },
        }
    }
    if str_eq(n, "full_width") {
        match lid_float(&value, n, operation) {
            Err(e) => {
                return Err(e);
            },
            Ok(v) => {
                u.patch.full_width = Some(v);
                return Ok(u);
            },
        }
    }
    if str_eq(n, "initial_saturation") {
        match lid_float(&value, n, operation) {
            Err(e) => {
                return Err(e);
            },
            Ok(v) => {
                u.patch.initial_saturation = Some(v);
                return Ok(u);
            },
        }
    }
    if str_eq(n, "impervious_runoff_treated") {
        match lid_float(&value, n, operation) {
            Err(e) => {
                return Err(e);
            },
            Ok(v) => {
                u.patch.impervious_runoff_treated = Some(v);
                return Ok(u);
            },
        }
    }
    if str_eq(n, "pervious_runoff_treated") {
        match lid_float(&value, n, operation) {
            Err(e) => {
                return Err(e);
            },
            Ok(v) => {
                u.patch.pervious_runoff_treated = Some(v);
                return Ok(u);
            },
        }
    }
    if str_eq(n, "control") {
        match related_live_view(value) {
            Err(e) => {
                return Err(e);
            },
            Ok(r) => {
                u.control = r;
                return Ok(u);
            },
        }
    }
    if str_eq(n, "count") {
        match lid_i32(&value, n, operation) {
            Err(e) => {
                return Err(e);
            },
            Ok(v) => {
                u.patch.count = Some(v);
                return Ok(u);
            },
        }
    }
    if str_eq(n, "routes_to_pervious") {
        match lid_bool(&value, n, operation) {
            Err(e) => {
                return Err(e);
            },
            Ok(v) => {
                u.patch.routes_to_pervious = Some(v);
                return Ok(u);
            },
        }
    }
    if str_eq(n, "drain_destination") {
        match related_live_view(value) {
            Err(e) => {
                return Err(e);
            },
            Ok(r) => {
                u.drain_destination = Some(r);
                return Ok(u);
            },
        }
    }
    Err(invalid_property(operation, n))
}

/// Extracts every supplied LID-unit setting without touching solver state.
///
/// `changes` are the supplied `(key, value)` pairs in mapping order, a key that is not a `str`
/// given as `None`.
pub fn extract_lid_unit_update(changes: Vec<(Option<String>, PyValue)>) -> (result: Result<
    NativeLidUnitUpdate,
    NativeError,
>)
    ensures
        spec_refusal_outcome(result, spec_lid_unit_update(changes@, changes@.len() as int), "update_lid_unit"),
{
    let count: usize = changes.len();
    let ghost all = changes@;
    let mut remaining = changes;
    let mut update = NativeLidUnitUpdate {
        patch: LidUnitPatch {
            area: None,
            full_width: None,
            initial_saturation: None,
            impervious_runoff_treated: None,
            pervious_runoff_treated: None,
            count: None,
            routes_to_pervious: None,
            control_index: None,
            drain_destination: None,
        },
        control: None,
        drain_destination: None,
    };
    let mut taken: usize = 0;
    proof {
        assert(remaining@ =~= all.skip(0));
    }
    while taken < count
        invariant
            count == all.len(),
            all == changes@,
            taken <= count,
            remaining@ == all.skip(taken as int),
            spec_lid_unit_update(all, taken as int) == Ok::<NativeLidUnitUpdate, Refusal>(update),
        decreases count - taken,
    {
        let (key, value) = remaining.remove(0);
        proof {
            assert(remaining@ =~= all.skip(taken + 1));
            assert(all[taken as int] == (key, value));
        }
        let ghost before = update;
        match apply_lid_unit_change(update, key, value) {
            Ok(next) => {
                update = next;
            },
            Err(e) => {
                proof {
                    assert(spec_lid_unit_update(all, taken + 1) == spec_apply_lid_unit_change(
                        before,
                        all[taken as int].0,
                        all[taken as int].1,
                    ));
                    lemma_lid_unit_update_refusal(all, taken + 1, count as int);
                }
                return Err(e);
            },
        }
        taken = taken + 1;
    }
    Ok(update)
}

/// `out` is what resolving a drain destination gives: none, or the outcome of validating a node
/// or a subcatchment; a related object of any other family is refused.
pub open spec fn spec_resolved_drain<
    F: Fn(&RelatedObject, ObjectType, &'static str) -> Result<usize, SwmmError>,
>(validate: F, destination: Option<Option<RelatedObject>>, out: Result<Option<LidDrainDestination>, SwmmError>) -> bool {
    match destination {
        None => out == Ok::<Option<LidDrainDestination>, SwmmError>(None),
        Some(None) => out == Ok::<Option<LidDrainDestination>, SwmmError>(Some(LidDrainDestination::Disconnected)),
        Some(Some(r)) => if r.object_type == ObjectType::Node {
            exists|o: Result<usize, SwmmError>|
                {
                    &&& call_ensures(validate, (&r, ObjectType::Node, "drain_destination"), o)
                    &&& match o {
                        Ok(i) => out == Ok::<Option<LidDrainDestination>, SwmmError>(
                            Some(LidDrainDestination::Node(i)),
                        ),
                        Err(e) => out == Err::<Option<LidDrainDestination>, SwmmError>(e),
                    }
                }
        } else if r.object_type == ObjectType::Subcatch {
            exists|o: Result<usize, SwmmError>|
                {
                    &&& call_ensures(validate, (&r, ObjectType::Subcatch, "drain_destination"), o)
                    &&& match o {
                        Ok(i) => out == Ok::<Option<LidDrainDestination>, SwmmError>(
                            Some(LidDrainDestination::Subcatchment(i)),
                        ),
                        Err(e) => out == Err::<Option<LidDrainDestination>, SwmmError>(e),
                    }
                }
        } else {
            out is Err && crate::error::swmm_error_is(
                out->Err_0,
                ErrorCode::ApiPropertyValue,
                "drain_destination has the wrong object family"@,
            )
        },
    }
}

/// `result` is what checking `update` against the configured objects gives: the control and the drain destination validated.
pub open spec fn spec_lid_unit_patch<F: Fn(&RelatedObject, ObjectType, &'static str) -> Result<usize, SwmmError>>(
    validate: F,
    update: NativeLidUnitUpdate,
    result: Result<LidUnitPatch, SwmmError>,
) -> bool {
    exists|control: Result<Option<usize>, SwmmError>|
        {
            &&& crate::convert::spec_resolved(validate, update.control, ObjectType::Lid, "control", control)
            &&& control matches Err(e) ==> result == Err::<LidUnitPatch, SwmmError>(e)
            &&& control is Ok ==> exists|drain: Result<Option<LidDrainDestination>, SwmmError>|
                {
                    &&& spec_resolved_drain(validate, update.drain_destination, drain)
                    &&& match drain {
                        Err(e) => result == Err::<LidUnitPatch, SwmmError>(e),
                        Ok(d) => result == Ok::<LidUnitPatch, SwmmError>(
                            LidUnitPatch {
                                control_index: match control->Ok_0 {
                                    Some(i) => Some(i),
                                    None => update.patch.control_index,
                                },
                                drain_destination: match d {
                                    Some(x) => Some(x),
                                    None => update.patch.drain_destination,
                                },
                                ..update.patch
                            },
                        ),
                    }
                }
        }
}

/// The outcomes that checking a `NativeLidUnitUpdate` against the configured objects can give.
pub open spec fn spec_lid_unit_check<F: Fn(&RelatedObject, ObjectType, &'static str) -> Result<usize, SwmmError>>(
    validate: F,
) -> spec_fn(NativeLidUnitUpdate, Result<LidUnitPatch, SwmmError>) -> bool {
    |update: NativeLidUnitUpdate, result: Result<LidUnitPatch, SwmmError>| spec_lid_unit_patch(validate, update, result)
}

impl NativeLidUnitUpdate {
    /// Resolves the control and the drain destination and builds one typed solver patch.
    pub fn into_patch<F: Fn(&RelatedObject, ObjectType, &'static str) -> Result<usize, SwmmError>>(
        self,
        validate: &F,
    ) -> (result: Result<LidUnitPatch, SwmmError>)
        requires
            forall|r: &RelatedObject, t: ObjectType, n: &'static str| call_requires(*validate, (r, t, n)),
        ensures
            spec_lid_unit_patch(*validate, self, result),
    {
        let NativeLidUnitUpdate { mut patch, control, drain_destination } = self;
        let ghost gc = control;
        let resolved = crate::convert::resolve(validate, control, ObjectType::Lid, "control");
        match resolved {
            Err(e) => {
                return Err(e);
            },
            Ok(Some(i)) => {
                patch.control_index = Some(i);
            },
            Ok(None) => {},
        }
        let ghost gd = drain_destination;
        let drain: Result<Option<LidDrainDestination>, SwmmError> = match drain_destination {
            None => Ok(None),
            Some(None) => Ok(Some(LidDrainDestination::Disconnected)),
            Some(Some(r)) => {
                if r.object_type == ObjectType::Node {
                    match resolve_required(validate, &r, ObjectType::Node, "drain_destination") {
                        Ok(i) => Ok(Some(LidDrainDestination::Node(i))),
                        Err(e) => Err(e),
                    }
                } else if r.object_type == ObjectType::Subcatch {
                    match resolve_required(validate, &r, ObjectType::Subcatch, "drain_destination") {
                        Ok(i) => Ok(Some(LidDrainDestination::Subcatchment(i))),
                        Err(e) => Err(e),
                    }
                } else {
                    Err(
                        SwmmError::with_str(
                            ErrorCode::ApiPropertyValue,
                            "drain_destination has the wrong object family",
                        ),
                    )
                }
            },
        };
        let ghost rd = drain;
        assert(spec_resolved_drain(*validate, gd, rd));
        match drain {
            Err(e) => Err(e),
            Ok(Some(d)) => {
                patch.drain_destination = Some(d);
                Ok(patch)
            },
            Ok(None) => Ok(patch),
        }
    }
}

impl NativeSimulation {

    /// Counts the LID units of a subcatchment.
    pub fn lid_unit_count<S, T, M: FnOnce() -> Result<bool, SwmmError>, R: FnOnce(()) -> Result<T, SwmmError>>(
        &self,
        generation: u64,
        subtype: Option<S>,
        matches: M,
        read: R,
    ) -> (result: Result<T, NativeError>)
        requires
            call_requires(matches, ()),
            call_requires(read, ((),)),
        ensures
            spec_field_view(*self, "lid_unit_count", generation, subtype, Ok::<(), NativeError>(()), matches, read, result),
    {
        self.field_view("lid_unit_count", generation, subtype, Ok(()), matches, read)
    }

    /// Reads one configured setting of a subcatchment's LID unit.
    pub fn lid_unit_value<S, T, M: FnOnce() -> Result<bool, SwmmError>, R: FnOnce(LidUnitField) -> Result<T, SwmmError>>(
        &self,
        generation: u64,
        subtype: Option<S>,
        field: &str,
        matches: M,
        read: R,
    ) -> (result: Result<T, NativeError>)
        requires
            call_requires(matches, ()),
            forall|f: LidUnitField| call_requires(read, (f,)),
        ensures
            exists|f: Result<LidUnitField, NativeError>|
                {
                    &&& match spec_lid_unit_field(field@) {
                        Some(x) => f == Ok::<LidUnitField, NativeError>(x),
                        None => f is Err && is_internal_error(
                            f->Err_0,
                            "lid_unit_value",
                            "invalid private LID-unit field"@,
                        ),
                    }
                    &&& spec_field_view(*self, "lid_unit_value", generation, subtype, f, matches, read, result)
                },
    {
        let selected = lid_unit_field(field);
        self.field_view("lid_unit_value", generation, subtype, selected, matches, read)
    }

    /// Atomically updates one LID unit of a subcatchment from raw Python values.
    ///
    /// Once the view's identity is confirmed, the update's relationships are validated
    /// (`validate`, through `NativeLidUnitUpdate::into_patch`); only a checked patch reaches
    /// `apply`.
    pub fn update_lid_unit<S, M: FnOnce() -> Result<bool, SwmmError>, A: FnOnce(LidUnitPatch) -> Reported<()>, F: Fn(&RelatedObject, ObjectType, &'static str) -> Result<usize, SwmmError>>(
        &mut self,
        generation: u64,
        subtype: Option<S>,
        changes: Vec<(Option<String>, PyValue)>,
        matches: M,
        validate: &F,
        apply: A,
    ) -> (result: Result<(), NativeError>)
        requires
            call_requires(matches, ()),
            forall|r: &RelatedObject, t: ObjectType, n: &'static str| call_requires(*validate, (r, t, n)),
            forall|x: LidUnitPatch| call_requires(apply, (x,)),
        ensures
            exists|p: Result<NativeLidUnitUpdate, NativeError>|
                {
                    &&& spec_refusal_outcome(p, spec_lid_unit_update(changes@, changes@.len() as int), "update_lid_unit")
                    &&& spec_field_update_checked(*old(self), *final(self), "update_lid_unit", generation, subtype, p, matches, spec_lid_unit_check(*validate), apply, result)
                },
            old(self).wf() ==> final(self).wf(),
    {
        let payload = extract_lid_unit_update(changes);
        let check = |u: NativeLidUnitUpdate| -> (c: Result<LidUnitPatch, SwmmError>)
            requires
                forall|r: &RelatedObject, t: ObjectType, n: &'static str| call_requires(*validate, (r, t, n)),
            ensures
                spec_lid_unit_patch(*validate, u, c),
            { u.into_patch(validate) };
        self.field_update_checked("update_lid_unit", generation, subtype, payload, matches, check, Ghost(spec_lid_unit_check(*validate)), apply)
    }

    /// Returns whether an LID control has the optional layer named `layer`.
    pub fn lid_control_layer_exists<
        S,
        V,
        M: FnOnce() -> Result<bool, SwmmError>,
        R: FnOnce(LidControlField) -> Result<Option<V>, SwmmError>,
    >(
        &self,
        generation: u64,
        subtype: Option<S>,
        layer: &str,
        matches: M,
        read: R,
    ) -> (result: Result<bool, NativeError>)
        requires
            call_requires(matches, ()),
            forall|f: LidControlField| call_requires(read, (f,)),
        ensures
            exists|f: Result<LidControlField, NativeError>, value: Result<Option<V>, NativeError>|
                {
                    &&& match spec_lid_layer_presence_field(layer@) {
                        Some(x) => f == Ok::<LidControlField, NativeError>(x),
                        None => f is Err && is_internal_error(
                            f->Err_0,
                            "lid_control_layer_exists",
                            "invalid private LID layer"@,
                        ),
                    }
                    &&& spec_field_view(*self, "lid_control_layer_exists", generation, subtype, f, matches, read, value)
                    &&& match value {
                        Ok(v) => result == Ok::<bool, NativeError>(v is Some),
                        Err(e) => result == Err::<bool, NativeError>(e),
                    }
                },
    {
        let field = lid_layer_presence_field(layer);
        let ghost gf = field;
        let value = self.field_view("lid_control_layer_exists", generation, subtype, field, matches, read);
        let ghost gv = value;
        match value {
            Ok(v) => Ok(v.is_some()),
            Err(e) => Err(e),
        }
    }

    /// Reads one configured field of an LID control's layer; a layer that is no longer
    /// configured makes the Live View stale.
    pub fn lid_control_value<
        S,
        V,
        M: FnOnce() -> Result<bool, SwmmError>,
        R: FnOnce(LidControlField) -> Result<Option<V>, SwmmError>,
    >(
        &self,
        generation: u64,
        subtype: Option<S>,
        layer: &str,
        field: &str,
        matches: M,
        read: R,
    ) -> (result: Result<V, NativeError>)
        requires
            call_requires(matches, ()),
            forall|f: LidControlField| call_requires(read, (f,)),
        ensures
            exists|f: Result<LidControlField, NativeError>, value: Result<Option<V>, NativeError>|
                {
                    &&& match spec_lid_control_field(layer@, field@) {
                        Some(x) => f == Ok::<LidControlField, NativeError>(x),
                        None => f is Err && is_internal_error(
                            f->Err_0,
                            "lid_control_value",
                            "invalid private LID-control field"@,
                        ),
                    }
                    &&& spec_field_view(*self, "lid_control_value", generation, subtype, f, matches, read, value)
                    &&& match value {
                        Ok(Some(v)) => result == Ok::<V, NativeError>(v),
                        Ok(None) => result == Err::<V, NativeError>(
                            NativeError::Stale { operation: "lid_control_value" },
                        ),
                        Err(e) => result == Err::<V, NativeError>(e),
                    }
                },
    {
        let selected = lid_control_field(layer, field);
        let value = self.field_view("lid_control_value", generation, subtype, selected, matches, read);
        match value {
            Ok(Some(v)) => Ok(v),
            Ok(None) => Err(NativeError::Stale { operation: "lid_control_value" }),
            Err(e) => Err(e),
        }
    }

    /// Atomically updates one layer of an LID control from raw Python values.
    ///
    /// The layer must still be configured (`configured`); otherwise the Live View is stale and
    /// nothing is patched.
    pub fn update_lid_control_layer<
        S,
        M: FnOnce() -> Result<bool, SwmmError>,
        C: FnOnce() -> Result<LidLayersConfigured, SwmmError>,
        A: FnOnce(LidLayerPatch) -> Reported<()>,
    >(
        &mut self,
        generation: u64,
        subtype: Option<S>,
        layer: &str,
        changes: Vec<(Option<String>, PyValue)>,
        matches: M,
        configured: C,
        apply: A,
    ) -> (result: Result<(), NativeError>)
        requires
            call_requires(matches, ()),
            call_requires(configured, ()),
            forall|p: LidLayerPatch| call_requires(apply, (p,)),
        ensures
            spec_layer_patch(layer@, changes@, changes@.len() as int) is Err ==> {
                &&& spec_refusal_raised(
                    result,
                    spec_layer_patch(layer@, changes@, changes@.len() as int)->Err_0,
                    "update_lid_control_layer",
                )
                &&& *final(self) == *old(self)
            },
            spec_layer_patch(layer@, changes@, changes@.len() as int) is Ok && subtype is None ==> {
                &&& result is Err
                &&& is_internal_error(result->Err_0, "update_lid_control_layer", "invalid private subtype"@)
                &&& *final(self) == *old(self)
            },
            spec_layer_patch(layer@, changes@, changes@.len() as int) is Ok && subtype is Some
                && !old(self).spec_generation_active(generation) ==> {
                &&& result == Err::<(), NativeError>(NativeError::Stale { operation: "update_lid_control_layer" })
                &&& *final(self) == *old(self)
            },
            spec_layer_patch(layer@, changes@, changes@.len() as int) is Ok && subtype is Some
                && old(self).spec_generation_active(generation) ==> exists|m: Result<bool, SwmmError>|
                {
                    &&& #[trigger] call_ensures(matches, (), m)
                    &&& m matches Err(e) ==> result == Err::<(), NativeError>(
                        NativeError::Native { operation: "update_lid_control_layer", error: e },
                    ) && *final(self) == *old(self)
                    &&& m == Ok::<bool, SwmmError>(false) ==> result == Err::<(), NativeError>(
                        NativeError::Stale { operation: "update_lid_control_layer" },
                    ) && *final(self) == *old(self)
                    &&& m == Ok::<bool, SwmmError>(true) ==> exists|c: Result<LidLayersConfigured, SwmmError>|
                        {
                            &&& #[trigger] call_ensures(configured, (), c)
                            &&& c matches Err(e) ==> result == Err::<(), NativeError>(
                                NativeError::Native { operation: "update_lid_control_layer", error: e },
                            ) && *final(self) == *old(self)
                            &&& c is Ok && !spec_lid_patch_layer_present(
                                spec_layer_patch(layer@, changes@, changes@.len() as int)->Ok_0,
                                c->Ok_0,
                            ) ==> result == Err::<(), NativeError>(
                                NativeError::Stale { operation: "update_lid_control_layer" },
                            ) && *final(self) == *old(self)
                            &&& c is Ok && spec_lid_patch_layer_present(
                                spec_layer_patch(layer@, changes@, changes@.len() as int)->Ok_0,
                                c->Ok_0,
                            ) ==> exists|r: Reported<()>|
                                {
                                    &&& call_ensures(
                                        apply,
                                        (spec_layer_patch(layer@, changes@, changes@.len() as int)->Ok_0,),
                                        r,
                                    )
                                    &&& spec_attached("update_lid_control_layer", r.result, result)
                                    &&& final(self).handle == (HandleState {
                                        lifecycle: r.lifecycle,
                                        ..old(self).handle
                                    })
                                    &&& final(self).iterator_state == old(self).iterator_state
                                    &&& final(self).test_concurrency == old(self).test_concurrency
                                    &&& final(self).next_phase == old(self).next_phase
                                }
                        }
                },
            old(self).wf() ==> final(self).wf(),
    {
        let operation = "update_lid_control_layer";
        let ghost requested = changes@;
        let extracted = extract_lid_layer_patch(layer, changes);
        let ghost gp = extracted;
        assert(spec_refusal_outcome(gp, spec_layer_patch(layer@, requested, requested.len() as int), operation));
        let patch = match extracted {
            Ok(p) => p,
            Err(e) => {
                return Err(e);
            },
        };
        assert(spec_layer_patch(layer@, requested, requested.len() as int) == Ok::<LidLayerPatch, Refusal>(patch));
        if subtype.is_none() {
            return Err(crate::error::internal_error(operation, "invalid private subtype"));
        }
        if !self.is_active_generation(generation) {
            return Err(NativeError::Stale { operation });
        }
        let matched = matches();
        let ghost m = matched;
        assert(call_ensures(matches, (), m));
        match matched {
            Err(error) => {
                return Err(crate::error::native_error(operation, error));
            },
            Ok(false) => {
                return Err(NativeError::Stale { operation });
            },
            Ok(true) => {
                let read = configured();
                let ghost c = read;
                assert(call_ensures(configured, (), c));
                match read {
                    Err(error) => {
                        return Err(crate::error::native_error(operation, error));
                    },
                    Ok(layers) => {
                        if !lid_patch_layer_present(patch, layers) {
                            return Err(NativeError::Stale { operation });
                        }
                        let reported = apply(patch);
                        let ghost r = reported;
                        assert(call_ensures(apply, (patch,), r));
                        self.handle.lifecycle = reported.lifecycle;
                        let result = self.attached(operation, reported.result);
                        assert(spec_attached(operation, r.result, result));
                        result
                    },
                }
            },
        }
    }
}

} // verus!
