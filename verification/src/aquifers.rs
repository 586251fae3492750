use vstd::prelude::*;
use vstd::string::*;

use crate::convert::{
    detail, lenient_number, related_live_view, resolve_clearable, spec_lenient_number, spec_refusal_outcome,
    spec_related, spec_resolved_clearable, Refusal,
};
use crate::error::{internal_error, policy_py_error, swmm_error_is, ErrorCode, NativeError, SwmmError};
use crate::fields::{is_internal_error, snowmelt_surface, spec_snowmelt_surface, SnowmeltSurface};
use crate::owner::{NativeSimulation, Reported};
use crate::policy::spec_policy_outcome;
use crate::text::str_eq;
use crate::value::{Number, ObjectType, PyValue, RelatedObject};
use crate::views::{spec_field_update_checked, spec_field_view};

verus! {

/// An aquifer configuration selector.
#[derive(Clone, Copy, Debug, PartialEq, Eq, Structural)]
pub enum AquiferConfigurationField {
    Porosity,
    WiltingPoint,
    FieldCapacity,
    HydraulicConductivity,
    ConductivitySlope,
    TensionSlope,
    UpperEvaporationFraction,
    LowerEvaporationDepth,
    LowerLossCoefficient,
    BottomElevation,
    WaterTableElevation,
    UpperMoisture,
    UpperEvaporationPattern,
}

/// The selector named by a private field name, if any.
pub open spec fn spec_aquifer_configuration_field(name: Seq<char>) -> Option<AquiferConfigurationField> {
    if name == "porosity"@ {
        Some(AquiferConfigurationField::Porosity)
    } else if name == "wilting_point"@ {
        Some(AquiferConfigurationField::WiltingPoint)
    } else if name == "field_capacity"@ {
        Some(AquiferConfigurationField::FieldCapacity)
    } else if name == "hydraulic_conductivity"@ {
        Some(AquiferConfigurationField::HydraulicConductivity)
    } else if name == "conductivity_slope"@ {
        Some(AquiferConfigurationField::ConductivitySlope)
    } else if name == "tension_slope"@ {
        Some(AquiferConfigurationField::TensionSlope)
    } else if name == "upper_evaporation_fraction"@ {
        Some(AquiferConfigurationField::UpperEvaporationFraction)
    } else if name == "lower_evaporation_depth"@ {
        Some(AquiferConfigurationField::LowerEvaporationDepth)
    } else if name == "lower_loss_coefficient"@ {
        Some(AquiferConfigurationField::LowerLossCoefficient)
    } else if name == "bottom_elevation"@ {
        Some(AquiferConfigurationField::BottomElevation)
    } else if name == "water_table_elevation"@ {
        Some(AquiferConfigurationField::WaterTableElevation)
    } else if name == "upper_moisture"@ {
        Some(AquiferConfigurationField::UpperMoisture)
    } else if name == "upper_evaporation_pattern"@ {
        Some(AquiferConfigurationField::UpperEvaporationPattern)
    } else {
        None
    }
}

/// Resolves one private field name to its typed selector.
pub fn aquifer_configuration_field(name: &str) -> (field: Result<AquiferConfigurationField, NativeError>)
    ensures
        match spec_aquifer_configuration_field(name@) {
            Some(f) => field == Ok::<AquiferConfigurationField, NativeError>(f),
            None => field is Err && is_internal_error(field->Err_0, "aquifer_configuration_value", "invalid private aquifer configuration field"@),
        },
{
    if str_eq(name, "porosity") {
        Ok(AquiferConfigurationField::Porosity)
    } else if str_eq(name, "wilting_point") {
        Ok(AquiferConfigurationField::WiltingPoint)
    } else if str_eq(name, "field_capacity") {
        Ok(AquiferConfigurationField::FieldCapacity)
    } else if str_eq(name, "hydraulic_conductivity") {
        Ok(AquiferConfigurationField::HydraulicConductivity)
    } else if str_eq(name, "conductivity_slope") {
        Ok(AquiferConfigurationField::ConductivitySlope)
    } else if str_eq(name, "tension_slope") {
        Ok(AquiferConfigurationField::TensionSlope)
    } else if str_eq(name, "upper_evaporation_fraction") {
        Ok(AquiferConfigurationField::UpperEvaporationFraction)
    } else if str_eq(name, "lower_evaporation_depth") {
        Ok(AquiferConfigurationField::LowerEvaporationDepth)
    } else if str_eq(name, "lower_loss_coefficient") {
        Ok(AquiferConfigurationField::LowerLossCoefficient)
    } else if str_eq(name, "bottom_elevation") {
        Ok(AquiferConfigurationField::BottomElevation)
    } else if str_eq(name, "water_table_elevation") {
        Ok(AquiferConfigurationField::WaterTableElevation)
    } else if str_eq(name, "upper_moisture") {
        Ok(AquiferConfigurationField::UpperMoisture)
    } else if str_eq(name, "upper_evaporation_pattern") {
        Ok(AquiferConfigurationField::UpperEvaporationPattern)
    } else {
        Err(internal_error("aquifer_configuration_value", "invalid private aquifer configuration field"))
    }
}

/// A root snowmelt configuration selector.
#[derive(Clone, Copy, Debug, PartialEq, Eq, Structural)]
pub enum SnowmeltConfigurationField {
    PlowableFraction,
    PlowDepth,
    RemovalFractions,
    RemovalSubcatchment,
}

/// The selector named by a private field name, if any.
pub open spec fn spec_snowmelt_configuration_field(name: Seq<char>) -> Option<SnowmeltConfigurationField> {
    if name == "plowable_fraction"@ {
        Some(SnowmeltConfigurationField::PlowableFraction)
    } else if name == "plow_depth"@ {
        Some(SnowmeltConfigurationField::PlowDepth)
    } else if name == "removal_fractions"@ {
        Some(SnowmeltConfigurationField::RemovalFractions)
    } else if name == "removal_subcatchment"@ {
        Some(SnowmeltConfigurationField::RemovalSubcatchment)
    } else {
        None
    }
}

/// Resolves one private field name to its typed selector.
pub fn snowmelt_configuration_field(name: &str) -> (field: Result<SnowmeltConfigurationField, NativeError>)
    ensures
        match spec_snowmelt_configuration_field(name@) {
            Some(f) => field == Ok::<SnowmeltConfigurationField, NativeError>(f),
            None => field is Err && is_internal_error(field->Err_0, "snowmelt_configuration_value", "invalid private snowmelt configuration field"@),
        },
{
    if str_eq(name, "plowable_fraction") {
        Ok(SnowmeltConfigurationField::PlowableFraction)
    } else if str_eq(name, "plow_depth") {
        Ok(SnowmeltConfigurationField::PlowDepth)
    } else if str_eq(name, "removal_fractions") {
        Ok(SnowmeltConfigurationField::RemovalFractions)
    } else if str_eq(name, "removal_subcatchment") {
        Ok(SnowmeltConfigurationField::RemovalSubcatchment)
    } else {
        Err(internal_error("snowmelt_configuration_value", "invalid private snowmelt configuration field"))
    }
}

/// A fixed-surface snowmelt selector.
#[derive(Clone, Copy, Debug, PartialEq, Eq, Structural)]
pub enum SnowmeltSurfaceField {
    MinimumMeltCoefficient,
    MaximumMeltCoefficient,
    BaseTemperature,
    FreeWaterFraction,
    InitialSnowDepth,
    InitialFreeWater,
    SnowDepthForFullCoverage,
}

/// The selector named by a private field name, if any.
pub open spec fn spec_snowmelt_surface_field(name: Seq<char>) -> Option<SnowmeltSurfaceField> {
    if name == "minimum_melt_coefficient"@ {
        Some(SnowmeltSurfaceField::MinimumMeltCoefficient)
    } else if name == "maximum_melt_coefficient"@ {
        Some(SnowmeltSurfaceField::MaximumMeltCoefficient)
    } else if name == "base_temperature"@ {
        Some(SnowmeltSurfaceField::BaseTemperature)
    } else if name == "free_water_fraction"@ {
        Some(SnowmeltSurfaceField::FreeWaterFraction)
    } else if name == "initial_snow_depth"@ {
        Some(SnowmeltSurfaceField::InitialSnowDepth)
    } else if name == "initial_free_water"@ {
        Some(SnowmeltSurfaceField::InitialFreeWater)
    } else if name == "snow_depth_for_full_coverage"@ {
        Some(SnowmeltSurfaceField::SnowDepthForFullCoverage)
    } else {
        None
    }
}

/// Resolves one private field name to its typed selector.
pub fn snowmelt_surface_field(name: &str) -> (field: Result<SnowmeltSurfaceField, NativeError>)
    ensures
        match spec_snowmelt_surface_field(name@) {
            Some(f) => field == Ok::<SnowmeltSurfaceField, NativeError>(f),
            None => field is Err && is_internal_error(field->Err_0, "snowmelt_surface_configuration_value", "invalid private snowmelt surface field"@),
        },
{
    if str_eq(name, "minimum_melt_coefficient") {
        Ok(SnowmeltSurfaceField::MinimumMeltCoefficient)
    } else if str_eq(name, "maximum_melt_coefficient") {
        Ok(SnowmeltSurfaceField::MaximumMeltCoefficient)
    } else if str_eq(name, "base_temperature") {
        Ok(SnowmeltSurfaceField::BaseTemperature)
    } else if str_eq(name, "free_water_fraction") {
        Ok(SnowmeltSurfaceField::FreeWaterFraction)
    } else if str_eq(name, "initial_snow_depth") {
        Ok(SnowmeltSurfaceField::InitialSnowDepth)
    } else if str_eq(name, "initial_free_water") {
        Ok(SnowmeltSurfaceField::InitialFreeWater)
    } else if str_eq(name, "snow_depth_for_full_coverage") {
        Ok(SnowmeltSurfaceField::SnowDepthForFullCoverage)
    } else {
        Err(internal_error("snowmelt_surface_configuration_value", "invalid private snowmelt surface field"))
    }
}

/// Creates one validation error for aquifer updates.
pub fn aquifer_py_error(detail: String) -> (raised: NativeError)
    ensures
        crate::error::is_property_error(raised, "update_aquifer", ErrorCode::ApiPropertyValue, detail@),
{
    policy_py_error("update_aquifer", detail)
}

/// Extracts one non-boolean numeric aquifer value.
pub fn aquifer_float(value: &PyValue, name: &str) -> (result: Result<Number, NativeError>)
    ensures
        spec_policy_outcome(result, spec_lenient_number(*value, name@), "update_aquifer"),
{
    lenient_number(value, name, "update_aquifer")
}

/// A sparse aquifer patch in project units; the upper-evaporation pattern is given by its
/// configured index, `Some(None)` clearing it.
#[derive(Clone, Copy, Debug, PartialEq, Eq, Structural)]
pub struct AquiferPatch {
    pub porosity: Option<Number>,
    pub wilting_point: Option<Number>,
    pub field_capacity: Option<Number>,
    pub hydraulic_conductivity: Option<Number>,
    pub conductivity_slope: Option<Number>,
    pub tension_slope: Option<Number>,
    pub upper_evaporation_fraction: Option<Number>,
    pub lower_evaporation_depth: Option<Number>,
    pub lower_loss_coefficient: Option<Number>,
    pub bottom_elevation: Option<Number>,
    pub water_table_elevation: Option<Number>,
    pub upper_moisture: Option<Number>,
    pub upper_evaporation_pattern_index: Option<Option<usize>>,
}

/// Every supplied aquifer setting, with its pattern relationship not validated yet:
/// `Some(None)` clears the pattern.
#[derive(Debug)]
pub struct AquiferUpdate {
    pub patch: AquiferPatch,
    pub upper_evaporation_pattern: Option<Option<RelatedObject>>,
}

/// The empty aquifer update.
pub open spec fn spec_empty_aquifer_update() -> AquiferUpdate {
    AquiferUpdate {
        patch: AquiferPatch {
            porosity: None,
            wilting_point: None,
            field_capacity: None,
            hydraulic_conductivity: None,
            conductivity_slope: None,
            tension_slope: None,
            upper_evaporation_fraction: None,
            lower_evaporation_depth: None,
            lower_loss_coefficient: None,
            bottom_elevation: None,
            water_table_elevation: None,
            upper_moisture: None,
            upper_evaporation_pattern_index: None,
        },
        upper_evaporation_pattern: None,
    }
}

/// Creates the empty aquifer update.
fn empty_aquifer_update() -> (update: AquiferUpdate)
    ensures
        update == spec_empty_aquifer_update(),
{
    AquiferUpdate {
        patch: AquiferPatch {
            porosity: None,
            wilting_point: None,
            field_capacity: None,
            hydraulic_conductivity: None,
            conductivity_slope: None,
            tension_slope: None,
            upper_evaporation_fraction: None,
            lower_evaporation_depth: None,
            lower_loss_coefficient: None,
            bottom_elevation: None,
            water_table_elevation: None,
            upper_moisture: None,
            upper_evaporation_pattern_index: None,
        },
        upper_evaporation_pattern: None,
    }
}

/// Extracts an optional upper-evaporation pattern Live View: `None` clears the pattern.
pub fn aquifer_pattern(value: PyValue) -> (result: Result<Option<RelatedObject>, NativeError>)
    ensures
        result == spec_related(value),
{
    related_live_view(value)
}

/// `update` with one supplied `(key, value)` aquifer setting applied.
pub open spec fn spec_apply_aquifer_change(u: AquiferUpdate, key: Option<String>, value: PyValue) -> Result<
    AquiferUpdate,
    Refusal,
> {
    match key {
        None => Err(Refusal::Detail("aquifer update fields must be strings"@)),
        Some(k) => {
            let name = k@;
            if name == "porosity"@ {
                match spec_lenient_number(value, "porosity"@) {
                    Err(d) => Err(Refusal::Detail(d)),
                    Ok(v) => Ok(AquiferUpdate { patch: AquiferPatch { porosity: Some(v), ..u.patch }, ..u }),
                }
            } else if name == "wilting_point"@ {
                match spec_lenient_number(value, "wilting_point"@) {
                    Err(d) => Err(Refusal::Detail(d)),
                    Ok(v) => Ok(AquiferUpdate { patch: AquiferPatch { wilting_point: Some(v), ..u.patch }, ..u }),
                }
            } else if name == "field_capacity"@ {
                match spec_lenient_number(value, "field_capacity"@) {
                    Err(d) => Err(Refusal::Detail(d)),
                    Ok(v) => Ok(AquiferUpdate { patch: AquiferPatch { field_capacity: Some(v), ..u.patch }, ..u }),
                }
            } else if name == "hydraulic_conductivity"@ {
                match spec_lenient_number(value, "hydraulic_conductivity"@) {
                    Err(d) => Err(Refusal::Detail(d)),
                    Ok(v) => Ok(AquiferUpdate { patch: AquiferPatch { hydraulic_conductivity: Some(v), ..u.patch }, ..u }),
                }
            } else if name == "conductivity_slope"@ {
                match spec_lenient_number(value, "conductivity_slope"@) {
                    Err(d) => Err(Refusal::Detail(d)),
                    Ok(v) => Ok(AquiferUpdate { patch: AquiferPatch { conductivity_slope: Some(v), ..u.patch }, ..u }),
                }
            } else if name == "tension_slope"@ {
                match spec_lenient_number(value, "tension_slope"@) {
                    Err(d) => Err(Refusal::Detail(d)),
                    Ok(v) => Ok(AquiferUpdate { patch: AquiferPatch { tension_slope: Some(v), ..u.patch }, ..u }),
                }
            } else if name == "upper_evaporation_fraction"@ {
                match spec_lenient_number(value, "upper_evaporation_fraction"@) {
                    Err(d) => Err(Refusal::Detail(d)),
                    Ok(v) => Ok(AquiferUpdate { patch: AquiferPatch { upper_evaporation_fraction: Some(v), ..u.patch }, ..u }),
                }
            } else if name == "lower_evaporation_depth"@ {
                match spec_lenient_number(value, "lower_evaporation_depth"@) {
                    Err(d) => Err(Refusal::Detail(d)),
                    Ok(v) => Ok(AquiferUpdate { patch: AquiferPatch { lower_evaporation_depth: Some(v), ..u.patch }, ..u }),
                }
            } else if name == "lower_loss_coefficient"@ {
                match spec_lenient_number(value, "lower_loss_coefficient"@) {
                    Err(d) => Err(Refusal::Detail(d)),
                    Ok(v) => Ok(AquiferUpdate { patch: AquiferPatch { lower_loss_coefficient: Some(v), ..u.patch }, ..u }),
                }
            } else if name == "bottom_elevation"@ {
                match spec_lenient_number(value, "bottom_elevation"@) {
                    Err(d) => Err(Refusal::Detail(d)),
                    Ok(v) => Ok(AquiferUpdate { patch: AquiferPatch { bottom_elevation: Some(v), ..u.patch }, ..u }),
                }
            } else if name == "water_table_elevation"@ {
                match spec_lenient_number(value, "water_table_elevation"@) {
                    Err(d) => Err(Refusal::Detail(d)),
                    Ok(v) => Ok(AquiferUpdate { patch: AquiferPatch { water_table_elevation: Some(v), ..u.patch }, ..u }),
                }
            } else if name == "upper_moisture"@ {
                match spec_lenient_number(value, "upper_moisture"@) {
                    Err(d) => Err(Refusal::Detail(d)),
                    Ok(v) => Ok(AquiferUpdate { patch: AquiferPatch { upper_moisture: Some(v), ..u.patch }, ..u }),
                }
            } else if name == "upper_evaporation_pattern"@ {
                match spec_related(value) {
                    Err(e) => Err(Refusal::Raised(e)),
                    Ok(r) => Ok(AquiferUpdate { upper_evaporation_pattern: Some(r), ..u }),
                }
            } else {
                Err(Refusal::Detail("unknown aquifer field: "@ + name))
            }
        },
    }
}

/// Each supported aquifer setting lands in its own field of the update, taking the value read from what was supplied for it, and nothing else changes.
pub proof fn lemma_aquifer_settings_land_in_their_fields(u: AquiferUpdate)
    ensures
        forall|k: String, value: PyValue| k@ == "porosity"@ && spec_lenient_number(value, "porosity"@) is Ok ==> #[trigger] spec_apply_aquifer_change(u, Some(k), value) == Ok::<AquiferUpdate, Refusal>(AquiferUpdate { patch: AquiferPatch { porosity: Some((spec_lenient_number(value, "porosity"@)->Ok_0)), ..u.patch }, ..u }),
        forall|k: String, value: PyValue| k@ == "wilting_point"@ && spec_lenient_number(value, "wilting_point"@) is Ok ==> #[trigger] spec_apply_aquifer_change(u, Some(k), value) == Ok::<AquiferUpdate, Refusal>(AquiferUpdate { patch: AquiferPatch { wilting_point: Some((spec_lenient_number(value, "wilting_point"@)->Ok_0)), ..u.patch }, ..u }),
        forall|k: String, value: PyValue| k@ == "field_capacity"@ && spec_lenient_number(value, "field_capacity"@) is Ok ==> #[trigger] spec_apply_aquifer_change(u, Some(k), value) == Ok::<AquiferUpdate, Refusal>(AquiferUpdate { patch: AquiferPatch { field_capacity: Some((spec_lenient_number(value, "field_capacity"@)->Ok_0)), ..u.patch }, ..u }),
        forall|k: String, value: PyValue| k@ == "hydraulic_conductivity"@ && spec_lenient_number(value, "hydraulic_conductivity"@) is Ok ==> #[trigger] spec_apply_aquifer_change(u, Some(k), value) == Ok::<AquiferUpdate, Refusal>(AquiferUpdate { patch: AquiferPatch { hydraulic_conductivity: Some((spec_lenient_number(value, "hydraulic_conductivity"@)->Ok_0)), ..u.patch }, ..u }),
        forall|k: String, value: PyValue| k@ == "conductivity_slope"@ && spec_lenient_number(value, "conductivity_slope"@) is Ok ==> #[trigger] spec_apply_aquifer_change(u, Some(k), value) == Ok::<AquiferUpdate, Refusal>(AquiferUpdate { patch: AquiferPatch { conductivity_slope: Some((spec_lenient_number(value, "conductivity_slope"@)->Ok_0)), ..u.patch }, ..u }),
        forall|k: String, value: PyValue| k@ == "tension_slope"@ && spec_lenient_number(value, "tension_slope"@) is Ok ==> #[trigger] spec_apply_aquifer_change(u, Some(k), value) == Ok::<AquiferUpdate, Refusal>(AquiferUpdate { patch: AquiferPatch { tension_slope: Some((spec_lenient_number(value, "tension_slope"@)->Ok_0)), ..u.patch }, ..u }),
        forall|k: String, value: PyValue| k@ == "upper_evaporation_fraction"@ && spec_lenient_number(value, "upper_evaporation_fraction"@) is Ok ==> #[trigger] spec_apply_aquifer_change(u, Some(k), value) == Ok::<AquiferUpdate, Refusal>(AquiferUpdate { patch: AquiferPatch { upper_evaporation_fraction: Some((spec_lenient_number(value, "upper_evaporation_fraction"@)->Ok_0)), ..u.patch }, ..u }),
        forall|k: String, value: PyValue| k@ == "lower_evaporation_depth"@ && spec_lenient_number(value, "lower_evaporation_depth"@) is Ok ==> #[trigger] spec_apply_aquifer_change(u, Some(k), value) == Ok::<AquiferUpdate, Refusal>(AquiferUpdate { patch: AquiferPatch { lower_evaporation_depth: Some((spec_lenient_number(value, "lower_evaporation_depth"@)->Ok_0)), ..u.patch }, ..u }),
        forall|k: String, value: PyValue| k@ == "lower_loss_coefficient"@ && spec_lenient_number(value, "lower_loss_coefficient"@) is Ok ==> #[trigger] spec_apply_aquifer_change(u, Some(k), value) == Ok::<AquiferUpdate, Refusal>(AquiferUpdate { patch: AquiferPatch { lower_loss_coefficient: Some((spec_lenient_number(value, "lower_loss_coefficient"@)->Ok_0)), ..u.patch }, ..u }),
        forall|k: String, value: PyValue| k@ == "bottom_elevation"@ && spec_lenient_number(value, "bottom_elevation"@) is Ok ==> #[trigger] spec_apply_aquifer_change(u, Some(k), value) == Ok::<AquiferUpdate, Refusal>(AquiferUpdate { patch: AquiferPatch { bottom_elevation: Some((spec_lenient_number(value, "bottom_elevation"@)->Ok_0)), ..u.patch }, ..u }),
        forall|k: String, value: PyValue| k@ == "water_table_elevation"@ && spec_lenient_number(value, "water_table_elevation"@) is Ok ==> #[trigger] spec_apply_aquifer_change(u, Some(k), value) == Ok::<AquiferUpdate, Refusal>(AquiferUpdate { patch: AquiferPatch { water_table_elevation: Some((spec_lenient_number(value, "water_table_elevation"@)->Ok_0)), ..u.patch }, ..u }),
        forall|k: String, value: PyValue| k@ == "upper_moisture"@ && spec_lenient_number(value, "upper_moisture"@) is Ok ==> #[trigger] spec_apply_aquifer_change(u, Some(k), value) == Ok::<AquiferUpdate, Refusal>(AquiferUpdate { patch: AquiferPatch { upper_moisture: Some((spec_lenient_number(value, "upper_moisture"@)->Ok_0)), ..u.patch }, ..u }),
        forall|k: String, value: PyValue| k@ == "upper_evaporation_pattern"@ && spec_related(value) is Ok ==> #[trigger] spec_apply_aquifer_change(u, Some(k), value) == Ok::<AquiferUpdate, Refusal>(AquiferUpdate { upper_evaporation_pattern: Some((spec_related(value)->Ok_0)), ..u }),
{
    assert forall|k: String, value: PyValue| k@ == "porosity"@ && spec_lenient_number(value, "porosity"@) is Ok implies #[trigger] spec_apply_aquifer_change(u, Some(k), value) == Ok::<AquiferUpdate, Refusal>(AquiferUpdate { patch: AquiferPatch { porosity: Some((spec_lenient_number(value, "porosity"@)->Ok_0)), ..u.patch }, ..u }) by {
        reveal_strlit("porosity");
    }
    assert forall|k: String, value: PyValue| k@ == "wilting_point"@ && spec_lenient_number(value, "wilting_point"@) is Ok implies #[trigger] spec_apply_aquifer_change(u, Some(k), value) == Ok::<AquiferUpdate, Refusal>(AquiferUpdate { patch: AquiferPatch { wilting_point: Some((spec_lenient_number(value, "wilting_point"@)->Ok_0)), ..u.patch }, ..u }) by {
        reveal_strlit("wilting_point");
        reveal_strlit("porosity");
        assert("wilting_point"@.len() != "porosity"@.len());
    }
    assert forall|k: String, value: PyValue| k@ == "field_capacity"@ && spec_lenient_number(value, "field_capacity"@) is Ok implies #[trigger] spec_apply_aquifer_change(u, Some(k), value) == Ok::<AquiferUpdate, Refusal>(AquiferUpdate { patch: AquiferPatch { field_capacity: Some((spec_lenient_number(value, "field_capacity"@)->Ok_0)), ..u.patch }, ..u }) by {
        reveal_strlit("field_capacity");
        reveal_strlit("porosity");
        assert("field_capacity"@.len() != "porosity"@.len());
        reveal_strlit("wilting_point");
        assert("field_capacity"@.len() != "wilting_point"@.len());
    }
    assert forall|k: String, value: PyValue| k@ == "hydraulic_conductivity"@ && spec_lenient_number(value, "hydraulic_conductivity"@) is Ok implies #[trigger] spec_apply_aquifer_change(u, Some(k), value) == Ok::<AquiferUpdate, Refusal>(AquiferUpdate { patch: AquiferPatch { hydraulic_conductivity: Some((spec_lenient_number(value, "hydraulic_conductivity"@)->Ok_0)), ..u.patch }, ..u }) by {
        reveal_strlit("hydraulic_conductivity");
        reveal_strlit("porosity");
        assert("hydraulic_conductivity"@.len() != "porosity"@.len());
        reveal_strlit("wilting_point");
        assert("hydraulic_conductivity"@.len() != "wilting_point"@.len());
        reveal_strlit("field_capacity");
        assert("hydraulic_conductivity"@.len() != "field_capacity"@.len());
    }
    assert forall|k: String, value: PyValue| k@ == "conductivity_slope"@ && spec_lenient_number(value, "conductivity_slope"@) is Ok implies #[trigger] spec_apply_aquifer_change(u, Some(k), value) == Ok::<AquiferUpdate, Refusal>(AquiferUpdate { patch: AquiferPatch { conductivity_slope: Some((spec_lenient_number(value, "conductivity_slope"@)->Ok_0)), ..u.patch }, ..u }) by {
        reveal_strlit("conductivity_slope");
        reveal_strlit("porosity");
        assert("conductivity_slope"@.len() != "porosity"@.len());
        reveal_strlit("wilting_point");
        assert("conductivity_slope"@.len() != "wilting_point"@.len());
        reveal_strlit("field_capacity");
        assert("conductivity_slope"@.len() != "field_capacity"@.len());
        reveal_strlit("hydraulic_conductivity");
        assert("conductivity_slope"@.len() != "hydraulic_conductivity"@.len());
    }
    assert forall|k: String, value: PyValue| k@ == "tension_slope"@ && spec_lenient_number(value, "tension_slope"@) is Ok implies #[trigger] spec_apply_aquifer_change(u, Some(k), value) == Ok::<AquiferUpdate, Refusal>(AquiferUpdate { patch: AquiferPatch { tension_slope: Some((spec_lenient_number(value, "tension_slope"@)->Ok_0)), ..u.patch }, ..u }) by {
        reveal_strlit("tension_slope");
        reveal_strlit("porosity");
        assert("tension_slope"@.len() != "porosity"@.len());
        reveal_strlit("wilting_point");
        assert("tension_slope"@ != "wilting_point"@) by { assert("tension_slope"@[0] != "wilting_point"@[0]); }
        reveal_strlit("field_capacity");
        assert("tension_slope"@.len() != "field_capacity"@.len());
        reveal_strlit("hydraulic_conductivity");
        assert("tension_slope"@.len() != "hydraulic_conductivity"@.len());
        reveal_strlit("conductivity_slope");
        assert("tension_slope"@.len() != "conductivity_slope"@.len());
    }
    assert forall|k: String, value: PyValue| k@ == "upper_evaporation_fraction"@ && spec_lenient_number(value, "upper_evaporation_fraction"@) is Ok implies #[trigger] spec_apply_aquifer_change(u, Some(k), value) == Ok::<AquiferUpdate, Refusal>(AquiferUpdate { patch: AquiferPatch { upper_evaporation_fraction: Some((spec_lenient_number(value, "upper_evaporation_fraction"@)->Ok_0)), ..u.patch }, ..u }) by {
        reveal_strlit("upper_evaporation_fraction");
        reveal_strlit("porosity");
        assert("upper_evaporation_fraction"@.len() != "porosity"@.len());
        reveal_strlit("wilting_point");
        assert("upper_evaporation_fraction"@.len() != "wilting_point"@.len());
        reveal_strlit("field_capacity");
        assert("upper_evaporation_fraction"@.len() != "field_capacity"@.len());
        reveal_strlit("hydraulic_conductivity");
        assert("upper_evaporation_fraction"@.len() != "hydraulic_conductivity"@.len());
        reveal_strlit("conductivity_slope");
        assert("upper_evaporation_fraction"@.len() != "conductivity_slope"@.len());
        reveal_strlit("tension_slope");
        assert("upper_evaporation_fraction"@.len() != "tension_slope"@.len());
    }
    assert forall|k: String, value: PyValue| k@ == "lower_evaporation_depth"@ && spec_lenient_number(value, "lower_evaporation_depth"@) is Ok implies #[trigger] spec_apply_aquifer_change(u, Some(k), value) == Ok::<AquiferUpdate, Refusal>(AquiferUpdate { patch: AquiferPatch { lower_evaporation_depth: Some((spec_lenient_number(value, "lower_evaporation_depth"@)->Ok_0)), ..u.patch }, ..u }) by {
        reveal_strlit("lower_evaporation_depth");
        reveal_strlit("porosity");
        assert("lower_evaporation_depth"@.len() != "porosity"@.len());
        reveal_strlit("wilting_point");
        assert("lower_evaporation_depth"@.len() != "wilting_point"@.len());
        reveal_strlit("field_capacity");
        assert("lower_evaporation_depth"@.len() != "field_capacity"@.len());
        reveal_strlit("hydraulic_conductivity");
        assert("lower_evaporation_depth"@.len() != "hydraulic_conductivity"@.len());
        reveal_strlit("conductivity_slope");
        assert("lower_evaporation_depth"@.len() != "conductivity_slope"@.len());
        reveal_strlit("tension_slope");
        assert("lower_evaporation_depth"@.len() != "tension_slope"@.len());
        reveal_strlit("upper_evaporation_fraction");
        assert("lower_evaporation_depth"@.len() != "upper_evaporation_fraction"@.len());
    }
    assert forall|k: String, value: PyValue| k@ == "lower_loss_coefficient"@ && spec_lenient_number(value, "lower_loss_coefficient"@) is Ok implies #[trigger] spec_apply_aquifer_change(u, Some(k), value) == Ok::<AquiferUpdate, Refusal>(AquiferUpdate { patch: AquiferPatch { lower_loss_coefficient: Some((spec_lenient_number(value, "lower_loss_coefficient"@)->Ok_0)), ..u.patch }, ..u }) by {
        reveal_strlit("lower_loss_coefficient");
        reveal_strlit("porosity");
        assert("lower_loss_coefficient"@.len() != "porosity"@.len());
        reveal_strlit("wilting_point");
        assert("lower_loss_coefficient"@.len() != "wilting_point"@.len());
        reveal_strlit("field_capacity");
        assert("lower_loss_coefficient"@.len() != "field_capacity"@.len());
        reveal_strlit("hydraulic_conductivity");
        assert("lower_loss_coefficient"@ != "hydraulic_conductivity"@) by { assert("lower_loss_coefficient"@[0] != "hydraulic_conductivity"@[0]); }
        reveal_strlit("conductivity_slope");
        assert("lower_loss_coefficient"@.len() != "conductivity_slope"@.len());
        reveal_strlit("tension_slope");
        assert("lower_loss_coefficient"@.len() != "tension_slope"@.len());
        reveal_strlit("upper_evaporation_fraction");
        assert("lower_loss_coefficient"@.len() != "upper_evaporation_fraction"@.len());
        reveal_strlit("lower_evaporation_depth");
        assert("lower_loss_coefficient"@.len() != "lower_evaporation_depth"@.len());
    }
    assert forall|k: String, value: PyValue| k@ == "bottom_elevation"@ && spec_lenient_number(value, "bottom_elevation"@) is Ok implies #[trigger] spec_apply_aquifer_change(u, Some(k), value) == Ok::<AquiferUpdate, Refusal>(AquiferUpdate { patch: AquiferPatch { bottom_elevation: Some((spec_lenient_number(value, "bottom_elevation"@)->Ok_0)), ..u.patch }, ..u }) by {
        reveal_strlit("bottom_elevation");
        reveal_strlit("porosity");
        assert("bottom_elevation"@.len() != "porosity"@.len());
        reveal_strlit("wilting_point");
        assert("bottom_elevation"@.len() != "wilting_point"@.len());
        reveal_strlit("field_capacity");
        assert("bottom_elevation"@.len() != "field_capacity"@.len());
        reveal_strlit("hydraulic_conductivity");
        assert("bottom_elevation"@.len() != "hydraulic_conductivity"@.len());
        reveal_strlit("conductivity_slope");
        assert("bottom_elevation"@.len() != "conductivity_slope"@.len());
        reveal_strlit("tension_slope");
        assert("bottom_elevation"@.len() != "tension_slope"@.len());
        reveal_strlit("upper_evaporation_fraction");
        assert("bottom_elevation"@.len() != "upper_evaporation_fraction"@.len());
        reveal_strlit("lower_evaporation_depth");
        assert("bottom_elevation"@.len() != "lower_evaporation_depth"@.len());
        reveal_strlit("lower_loss_coefficient");
        assert("bottom_elevation"@.len() != "lower_loss_coefficient"@.len());
    }
    assert forall|k: String, value: PyValue| k@ == "water_table_elevation"@ && spec_lenient_number(value, "water_table_elevation"@) is Ok implies #[trigger] spec_apply_aquifer_change(u, Some(k), value) == Ok::<AquiferUpdate, Refusal>(AquiferUpdate { patch: AquiferPatch { water_table_elevation: Some((spec_lenient_number(value, "water_table_elevation"@)->Ok_0)), ..u.patch }, ..u }) by {
        reveal_strlit("water_table_elevation");
        reveal_strlit("porosity");
        assert("water_table_elevation"@.len() != "porosity"@.len());
        reveal_strlit("wilting_point");
        assert("water_table_elevation"@.len() != "wilting_point"@.len());
        reveal_strlit("field_capacity");
        assert("water_table_elevation"@.len() != "field_capacity"@.len());
        reveal_strlit("hydraulic_conductivity");
        assert("water_table_elevation"@.len() != "hydraulic_conductivity"@.len());
        reveal_strlit("conductivity_slope");
        assert("water_table_elevation"@.len() != "conductivity_slope"@.len());
        reveal_strlit("tension_slope");
        assert("water_table_elevation"@.len() != "tension_slope"@.len());
        reveal_strlit("upper_evaporation_fraction");
        assert("water_table_elevation"@.len() != "upper_evaporation_fraction"@.len());
        reveal_strlit("lower_evaporation_depth");
        assert("water_table_elevation"@.len() != "lower_evaporation_depth"@.len());
        reveal_strlit("lower_loss_coefficient");
        assert("water_table_elevation"@.len() != "lower_loss_coefficient"@.len());
        reveal_strlit("bottom_elevation");
        assert("water_table_elevation"@.len() != "bottom_elevation"@.len());
    }
    assert forall|k: String, value: PyValue| k@ == "upper_moisture"@ && spec_lenient_number(value, "upper_moisture"@) is Ok implies #[trigger] spec_apply_aquifer_change(u, Some(k), value) == Ok::<AquiferUpdate, Refusal>(AquiferUpdate { patch: AquiferPatch { upper_moisture: Some((spec_lenient_number(value, "upper_moisture"@)->Ok_0)), ..u.patch }, ..u }) by {
        reveal_strlit("upper_moisture");
        reveal_strlit("porosity");
        assert("upper_moisture"@.len() != "porosity"@.len());
        reveal_strlit("wilting_point");
        assert("upper_moisture"@.len() != "wilting_point"@.len());
        reveal_strlit("field_capacity");
        assert("upper_moisture"@ != "field_capacity"@) by { assert("upper_moisture"@[0] != "field_capacity"@[0]); }
        reveal_strlit("hydraulic_conductivity");
        assert("upper_moisture"@.len() != "hydraulic_conductivity"@.len());
        reveal_strlit("conductivity_slope");
        assert("upper_moisture"@.len() != "conductivity_slope"@.len());
        reveal_strlit("tension_slope");
        assert("upper_moisture"@.len() != "tension_slope"@.len());
        reveal_strlit("upper_evaporation_fraction");
        assert("upper_moisture"@.len() != "upper_evaporation_fraction"@.len());
        reveal_strlit("lower_evaporation_depth");
        assert("upper_moisture"@.len() != "lower_evaporation_depth"@.len());
        reveal_strlit("lower_loss_coefficient");
        assert("upper_moisture"@.len() != "lower_loss_coefficient"@.len());
        reveal_strlit("bottom_elevation");
        assert("upper_moisture"@.len() != "bottom_elevation"@.len());
        reveal_strlit("water_table_elevation");
        assert("upper_moisture"@.len() != "water_table_elevation"@.len());
    }
    assert forall|k: String, value: PyValue| k@ == "upper_evaporation_pattern"@ && spec_related(value) is Ok implies #[trigger] spec_apply_aquifer_change(u, Some(k), value) == Ok::<AquiferUpdate, Refusal>(AquiferUpdate { upper_evaporation_pattern: Some((spec_related(value)->Ok_0)), ..u }) by {
        reveal_strlit("upper_evaporation_pattern");
        reveal_strlit("porosity");
        assert("upper_evaporation_pattern"@.len() != "porosity"@.len());
        reveal_strlit("wilting_point");
        assert("upper_evaporation_pattern"@.len() != "wilting_point"@.len());
        reveal_strlit("field_capacity");
        assert("upper_evaporation_pattern"@.len() != "field_capacity"@.len());
        reveal_strlit("hydraulic_conductivity");
        assert("upper_evaporation_pattern"@.len() != "hydraulic_conductivity"@.len());
        reveal_strlit("conductivity_slope");
        assert("upper_evaporation_pattern"@.len() != "conductivity_slope"@.len());
        reveal_strlit("tension_slope");
        assert("upper_evaporation_pattern"@.len() != "tension_slope"@.len());
        reveal_strlit("upper_evaporation_fraction");
        assert("upper_evaporation_pattern"@.len() != "upper_evaporation_fraction"@.len());
        reveal_strlit("lower_evaporation_depth");
        assert("upper_evaporation_pattern"@.len() != "lower_evaporation_depth"@.len());
        reveal_strlit("lower_loss_coefficient");
        assert("upper_evaporation_pattern"@.len() != "lower_loss_coefficient"@.len());
        reveal_strlit("bottom_elevation");
        assert("upper_evaporation_pattern"@.len() != "bottom_elevation"@.len());
        reveal_strlit("water_table_elevation");
        assert("upper_evaporation_pattern"@.len() != "water_table_elevation"@.len());
        reveal_strlit("upper_moisture");
        assert("upper_evaporation_pattern"@.len() != "upper_moisture"@.len());
    }
}

/// The update built from the first `n` supplied aquifer settings.
pub open spec fn spec_aquifer_update(changes: Seq<(Option<String>, PyValue)>, n: int) -> Result<AquiferUpdate, Refusal>
    decreases n,
{
    if n <= 0 {
        Ok(spec_empty_aquifer_update())
    } else {
        match spec_aquifer_update(changes, n - 1) {
            Err(r) => Err(r),
            Ok(u) => spec_apply_aquifer_change(u, changes[n - 1].0, changes[n - 1].1),
        }
    }
}

/// Once an aquifer setting is refused, every longer prefix is refused the same way.
pub proof fn lemma_aquifer_update_refusal(changes: Seq<(Option<String>, PyValue)>, i: int, n: int)
    requires
        0 <= i <= n,
        spec_aquifer_update(changes, i) is Err,
    ensures
        spec_aquifer_update(changes, n) == spec_aquifer_update(changes, i),
    decreases n - i,
{
    if n > i {
        lemma_aquifer_update_refusal(changes, i, n - 1);
    }
}

/// Applies one supplied `(key, value)` aquifer setting to `update`.
fn apply_aquifer_change(update: AquiferUpdate, key: Option<String>, value: PyValue) -> (result: Result<
    AquiferUpdate,
    NativeError,
>)
    ensures
        spec_refusal_outcome(result, spec_apply_aquifer_change(update, key, value), "update_aquifer"),
{
    let name = match key {
        Some(k) => k,
        None => {
            return Err(aquifer_py_error(String::from_str("aquifer update fields must be strings")));
        },
    };
    let n = name.as_str();
    let mut u = update;
    if str_eq(n, "porosity") {
        let v = match aquifer_float(&value, n) {
            Err(e) => {
                return Err(e);
            },
            Ok(v) => v,
        };
        u.patch.porosity = Some(v);
        return Ok(u);
    }
    if str_eq(n, "wilting_point") {
        let v = match aquifer_float(&value, n) {
            Err(e) => {
                return Err(e);
            },
            Ok(v) => v,
        };
        u.patch.wilting_point = Some(v);
        return Ok(u);
    }
    if str_eq(n, "field_capacity") {
        let v = match aquifer_float(&value, n) {
            Err(e) => {
                return Err(e);
            },
            Ok(v) => v,
        };
        u.patch.field_capacity = Some(v);
        return Ok(u);
    }
    if str_eq(n, "hydraulic_conductivity") {
        let v = match aquifer_float(&value, n) {
            Err(e) => {
                return Err(e);
            },
            Ok(v) => v,
        };
        u.patch.hydraulic_conductivity = Some(v);
        return Ok(u);
    }
    if str_eq(n, "conductivity_slope") {
        let v = match aquifer_float(&value, n) {
            Err(e) => {
                return Err(e);
            },
            Ok(v) => v,
        };
        u.patch.conductivity_slope = Some(v);
        return Ok(u);
    }
    if str_eq(n, "tension_slope") {
        let v = match aquifer_float(&value, n) {
            Err(e) => {
                return Err(e);
            },
            Ok(v) => v,
        };
        u.patch.tension_slope = Some(v);
        return Ok(u);
    }
    if str_eq(n, "upper_evaporation_fraction") {
        let v = match aquifer_float(&value, n) {
            Err(e) => {
                return Err(e);
            },
            Ok(v) => v,
        };
        u.patch.upper_evaporation_fraction = Some(v);
        return Ok(u);
    }
    if str_eq(n, "lower_evaporation_depth") {
        let v = match aquifer_float(&value, n) {
            Err(e) => {
                return Err(e);
            },
            Ok(v) => v,
        };
        u.patch.lower_evaporation_depth = Some(v);
        return Ok(u);
    }
    if str_eq(n, "lower_loss_coefficient") {
        let v = match aquifer_float(&value, n) {
            Err(e) => {
                return Err(e);
            },
            Ok(v) => v,
        };
        u.patch.lower_loss_coefficient = Some(v);
        return Ok(u);
    }
    if str_eq(n, "bottom_elevation") {
        let v = match aquifer_float(&value, n) {
            Err(e) => {
                return Err(e);
            },
            Ok(v) => v,
        };
        u.patch.bottom_elevation = Some(v);
        return Ok(u);
    }
    if str_eq(n, "water_table_elevation") {
        let v = match aquifer_float(&value, n) {
            Err(e) => {
                return Err(e);
            },
            Ok(v) => v,
        };
        u.patch.water_table_elevation = Some(v);
        return Ok(u);
    }
    if str_eq(n, "upper_moisture") {
        let v = match aquifer_float(&value, n) {
            Err(e) => {
                return Err(e);
            },
            Ok(v) => v,
        };
        u.patch.upper_moisture = Some(v);
        return Ok(u);
    }
    if str_eq(n, "upper_evaporation_pattern") {
        let r = match aquifer_pattern(value) {
            Err(e) => {
                return Err(e);
            },
            Ok(r) => r,
        };
        u.upper_evaporation_pattern = Some(r);
        return Ok(u);
    }
    Err(aquifer_py_error(detail("unknown aquifer field: ", n)))
}

/// Extracts every supplied aquifer setting without touching solver state.
///
/// `changes` are the supplied `(key, value)` pairs in mapping order, a key that is not a `str`
/// given as `None`.
pub fn extract_aquifer_update(changes: Vec<(Option<String>, PyValue)>) -> (result: Result<AquiferUpdate, NativeError>)
    ensures
        spec_refusal_outcome(result, spec_aquifer_update(changes@, changes@.len() as int), "update_aquifer"),
{
    let count: usize = changes.len();
    let ghost all = changes@;
    let mut remaining = changes;
    let mut update = empty_aquifer_update();
    let mut taken: usize = 0;
    proof {
        assert(remaining@ =~= all.skip(0));
    }
    while taken < count
        invariant
            count == all.len(),
            all == changes@,
            taken <= count,
            remaining@ == all.skip(taken as int),
            spec_aquifer_update(all, taken as int) == Ok::<AquiferUpdate, Refusal>(update),
        decreases count - taken,
    {
        let (key, value) = remaining.remove(0);
        proof {
            assert(remaining@ =~= all.skip(taken + 1));
            assert(all[taken as int] == (key, value));
        }
        let ghost before = update;
        match apply_aquifer_change(update, key, value) {
            Ok(next) => {
                update = next;
            },
            Err(e) => {
                proof {
                    assert(spec_aquifer_update(all, taken + 1) == spec_apply_aquifer_change(
                        before,
                        all[taken as int].0,
                        all[taken as int].1,
                    ));
                    lemma_aquifer_update_refusal(all, taken + 1, count as int);
                }
                return Err(e);
            },
        }
        taken = taken + 1;
    }
    Ok(update)
}

/// `result` is what checking `update` against the configured objects gives: a supplied pattern is validated as a time pattern.
pub open spec fn spec_aquifer_patch<F: Fn(&RelatedObject, ObjectType, &'static str) -> Result<usize, SwmmError>>(
    validate: F,
    update: AquiferUpdate,
    result: Result<AquiferPatch, SwmmError>,
) -> bool {
    exists|o: Result<Option<Option<usize>>, SwmmError>|
        {
            &&& spec_resolved_clearable(
                validate,
                update.upper_evaporation_pattern,
                ObjectType::Timepattern,
                "upper_evaporation_pattern",
                o,
            )
            &&& o matches Err(e) ==> result == Err::<AquiferPatch, SwmmError>(e)
            &&& o matches Ok(p) ==> result == Ok::<AquiferPatch, SwmmError>(
                match p {
                    Some(index) => AquiferPatch { upper_evaporation_pattern_index: Some(index), ..update.patch },
                    None => update.patch,
                },
            )
        }
}

/// The outcomes that checking an `AquiferUpdate` against the configured objects can give.
pub open spec fn spec_aquifer_check<F: Fn(&RelatedObject, ObjectType, &'static str) -> Result<usize, SwmmError>>(
    validate: F,
) -> spec_fn(AquiferUpdate, Result<AquiferPatch, SwmmError>) -> bool {
    |update: AquiferUpdate, result: Result<AquiferPatch, SwmmError>| spec_aquifer_patch(validate, update, result)
}

impl AquiferUpdate {
    /// Validates a supplied pattern as a time pattern and builds the aquifer patch, which takes
    /// its captured index (or clears the pattern).
    pub fn into_patch<F: Fn(&RelatedObject, ObjectType, &'static str) -> Result<usize, SwmmError>>(
        self,
        validate: &F,
    ) -> (result: Result<AquiferPatch, SwmmError>)
        requires
            forall|r: &RelatedObject, t: ObjectType, n: &'static str| call_requires(*validate, (r, t, n)),
        ensures
            spec_aquifer_patch(*validate, self, result),
    {
        let AquiferUpdate { mut patch, upper_evaporation_pattern } = self;
        let o = resolve_clearable(validate, upper_evaporation_pattern, ObjectType::Timepattern, "upper_evaporation_pattern");
        match o {
            Err(e) => Err(e),
            Ok(None) => Ok(patch),
            Ok(Some(index)) => {
                patch.upper_evaporation_pattern_index = Some(index);
                Ok(patch)
            },
        }
    }
}

/// Creates one validation error for snowmelt updates.
pub fn snowmelt_py_error(detail: String) -> (raised: NativeError)
    ensures
        crate::error::is_property_error(raised, "update_snowmelt", ErrorCode::ApiPropertyValue, detail@),
{
    policy_py_error("update_snowmelt", detail)
}

/// Extracts one non-boolean numeric snowmelt value.
pub fn snowmelt_float(value: &PyValue, name: &str) -> (result: Result<Number, NativeError>)
    ensures
        spec_policy_outcome(result, spec_lenient_number(*value, name@), "update_snowmelt"),
{
    lenient_number(value, name, "update_snowmelt")
}

/// The complete configuration of one snowmelt surface, in project units.
#[derive(Clone, Copy, Debug, PartialEq, Eq, Structural)]
pub struct SnowmeltSurfaceConfiguration {
    pub minimum_melt_coefficient: Number,
    pub maximum_melt_coefficient: Number,
    pub base_temperature: Number,
    pub free_water_fraction: Number,
    pub initial_snow_depth: Number,
    pub initial_free_water: Number,
    pub snow_depth_for_full_coverage: Number,
}

/// A sparse snowmelt patch in project units: root settings (the removal subcatchment given by
/// its configured index, `Some(None)` clearing it) or one complete surface.
#[derive(Clone, Copy, Debug)]
pub struct SnowmeltPatch {
    pub plowable_fraction: Option<Number>,
    pub plow_depth: Option<Number>,
    pub removal_fractions: Option<[Number; 5]>,
    pub removal_subcatchment_index: Option<Option<usize>>,
    pub surface: Option<(SnowmeltSurface, SnowmeltSurfaceConfiguration)>,
}

/// The empty snowmelt patch.
pub open spec fn spec_empty_snowmelt_patch() -> SnowmeltPatch {
    SnowmeltPatch {
        plowable_fraction: None,
        plow_depth: None,
        removal_fractions: None,
        removal_subcatchment_index: None,
        surface: None,
    }
}

/// Creates the empty snowmelt patch.
fn empty_snowmelt_patch() -> (patch: SnowmeltPatch)
    ensures
        patch == spec_empty_snowmelt_patch(),
{
    SnowmeltPatch {
        plowable_fraction: None,
        plow_depth: None,
        removal_fractions: None,
        removal_subcatchment_index: None,
        surface: None,
    }
}

/// The supplied values of one snowmelt surface.
#[derive(Clone, Copy, Debug, PartialEq, Eq, Structural)]
pub struct SnowmeltSurfaceUpdate {
    pub minimum_melt_coefficient: Option<Number>,
    pub maximum_melt_coefficient: Option<Number>,
    pub base_temperature: Option<Number>,
    pub free_water_fraction: Option<Number>,
    pub initial_snow_depth: Option<Number>,
    pub initial_free_water: Option<Number>,
    pub snow_depth_for_full_coverage: Option<Number>,
}

impl SnowmeltSurfaceUpdate {
    /// True when no surface value was supplied.
    pub open spec fn spec_is_empty(&self) -> bool {
        self.minimum_melt_coefficient is None
        && self.maximum_melt_coefficient is None
        && self.base_temperature is None
        && self.free_water_fraction is None
        && self.initial_snow_depth is None
        && self.initial_free_water is None
        && self.snow_depth_for_full_coverage is None
    }

    /// Reports whether no surface value was supplied, so that applying it changes nothing.
    pub fn is_empty(&self) -> (empty: bool)
        ensures
            empty == self.spec_is_empty(),
    {
        self.minimum_melt_coefficient.is_none()
            && self.maximum_melt_coefficient.is_none()
            && self.base_temperature.is_none()
            && self.free_water_fraction.is_none()
            && self.initial_snow_depth.is_none()
            && self.initial_free_water.is_none()
            && self.snow_depth_for_full_coverage.is_none()
    }

    /// The supplied value of the `i`th surface field, in declaration order.
    pub open spec fn spec_supplied(&self, i: int) -> Option<Number> {
        if i == 0 {
            self.minimum_melt_coefficient
        } else if i == 1 {
            self.maximum_melt_coefficient
        } else if i == 2 {
            self.base_temperature
        } else if i == 3 {
            self.free_water_fraction
        } else if i == 4 {
            self.initial_snow_depth
        } else if i == 5 {
            self.initial_free_water
        } else {
            self.snow_depth_for_full_coverage
        }
    }

    /// Returns the supplied value of the `i`th surface field, in declaration order.
    fn supplied(&self, i: usize) -> (value: Option<Number>)
        requires
            i < 7,
        ensures
            value == self.spec_supplied(i as int),
    {
        if i == 0 {
            self.minimum_melt_coefficient
        } else if i == 1 {
            self.maximum_melt_coefficient
        } else if i == 2 {
            self.base_temperature
        } else if i == 3 {
            self.free_water_fraction
        } else if i == 4 {
            self.initial_snow_depth
        } else if i == 5 {
            self.initial_free_water
        } else {
            self.snow_depth_for_full_coverage
        }
    }
}

/// The `i`th surface field selector, in declaration order.
pub open spec fn spec_surface_field_at(i: int) -> SnowmeltSurfaceField {
    if i == 0 {
        SnowmeltSurfaceField::MinimumMeltCoefficient
    } else if i == 1 {
        SnowmeltSurfaceField::MaximumMeltCoefficient
    } else if i == 2 {
        SnowmeltSurfaceField::BaseTemperature
    } else if i == 3 {
        SnowmeltSurfaceField::FreeWaterFraction
    } else if i == 4 {
        SnowmeltSurfaceField::InitialSnowDepth
    } else if i == 5 {
        SnowmeltSurfaceField::InitialFreeWater
    } else {
        SnowmeltSurfaceField::SnowDepthForFullCoverage
    }
}

/// Returns the `i`th surface field selector, in declaration order.
fn surface_field_at(i: usize) -> (field: SnowmeltSurfaceField)
    requires
        i < 7,
    ensures
        field == spec_surface_field_at(i as int),
{
    if i == 0 {
        SnowmeltSurfaceField::MinimumMeltCoefficient
    } else if i == 1 {
        SnowmeltSurfaceField::MaximumMeltCoefficient
    } else if i == 2 {
        SnowmeltSurfaceField::BaseTemperature
    } else if i == 3 {
        SnowmeltSurfaceField::FreeWaterFraction
    } else if i == 4 {
        SnowmeltSurfaceField::InitialSnowDepth
    } else if i == 5 {
        SnowmeltSurfaceField::InitialFreeWater
    } else {
        SnowmeltSurfaceField::SnowDepthForFullCoverage
    }
}

/// The empty surface update.
pub open spec fn spec_empty_surface_update() -> SnowmeltSurfaceUpdate {
    SnowmeltSurfaceUpdate {
        minimum_melt_coefficient: None,
        maximum_melt_coefficient: None,
        base_temperature: None,
        free_water_fraction: None,
        initial_snow_depth: None,
        initial_free_water: None,
        snow_depth_for_full_coverage: None,
    }
}

/// Creates the empty surface update.
fn empty_surface_update() -> (update: SnowmeltSurfaceUpdate)
    ensures
        update == spec_empty_surface_update(),
{
    SnowmeltSurfaceUpdate {
        minimum_melt_coefficient: None,
        maximum_melt_coefficient: None,
        base_temperature: None,
        free_water_fraction: None,
        initial_snow_depth: None,
        initial_free_water: None,
        snow_depth_for_full_coverage: None,
    }
}

/// An extracted snowmelt update: root settings with the removal subcatchment not validated yet
/// (`Some(None)` clearing it), or the supplied values of one surface.
#[derive(Debug)]
pub enum SnowmeltUpdate {
    Root { patch: SnowmeltPatch, removal_subcatchment: Option<Option<RelatedObject>> },
    Surface { surface: SnowmeltSurface, changes: SnowmeltSurfaceUpdate },
}

/// `surface` with one supplied `(key, value)` surface setting applied.
pub open spec fn spec_apply_surface_change(u: SnowmeltSurfaceUpdate, key: Option<String>, value: PyValue) -> Result<
    SnowmeltSurfaceUpdate,
    Seq<char>,
> {
    match key {
        None => Err("snowmelt update fields must be strings"@),
        Some(k) => {
            let name = k@;
            if name == "minimum_melt_coefficient"@ {
                match spec_lenient_number(value, "minimum_melt_coefficient"@) {
                    Err(d) => Err(d),
                    Ok(v) => Ok(SnowmeltSurfaceUpdate { minimum_melt_coefficient: Some(v), ..u }),
                }
            } else if name == "maximum_melt_coefficient"@ {
                match spec_lenient_number(value, "maximum_melt_coefficient"@) {
                    Err(d) => Err(d),
                    Ok(v) => Ok(SnowmeltSurfaceUpdate { maximum_melt_coefficient: Some(v), ..u }),
                }
            } else if name == "base_temperature"@ {
                match spec_lenient_number(value, "base_temperature"@) {
                    Err(d) => Err(d),
                    Ok(v) => Ok(SnowmeltSurfaceUpdate { base_temperature: Some(v), ..u }),
                }
            } else if name == "free_water_fraction"@ {
                match spec_lenient_number(value, "free_water_fraction"@) {
                    Err(d) => Err(d),
                    Ok(v) => Ok(SnowmeltSurfaceUpdate { free_water_fraction: Some(v), ..u }),
                }
            } else if name == "initial_snow_depth"@ {
                match spec_lenient_number(value, "initial_snow_depth"@) {
                    Err(d) => Err(d),
                    Ok(v) => Ok(SnowmeltSurfaceUpdate { initial_snow_depth: Some(v), ..u }),
                }
            } else if name == "initial_free_water"@ {
                match spec_lenient_number(value, "initial_free_water"@) {
                    Err(d) => Err(d),
                    Ok(v) => Ok(SnowmeltSurfaceUpdate { initial_free_water: Some(v), ..u }),
                }
            } else if name == "snow_depth_for_full_coverage"@ {
                match spec_lenient_number(value, "snow_depth_for_full_coverage"@) {
                    Err(d) => Err(d),
                    Ok(v) => Ok(SnowmeltSurfaceUpdate { snow_depth_for_full_coverage: Some(v), ..u }),
                }
            } else {
                Err("unknown snowmelt surface field: "@ + name)
            }
        },
    }
}

/// Each supported snowmelt surface setting lands in its own field of the update, taking the value read from what was supplied for it, and nothing else changes.
pub proof fn lemma_surface_settings_land_in_their_fields(u: SnowmeltSurfaceUpdate)
    ensures
        forall|k: String, value: PyValue| k@ == "minimum_melt_coefficient"@ && spec_lenient_number(value, "minimum_melt_coefficient"@) is Ok ==> #[trigger] spec_apply_surface_change(u, Some(k), value) == Ok::<SnowmeltSurfaceUpdate, Seq<char>>(SnowmeltSurfaceUpdate { minimum_melt_coefficient: Some((spec_lenient_number(value, "minimum_melt_coefficient"@)->Ok_0)), ..u }),
        forall|k: String, value: PyValue| k@ == "maximum_melt_coefficient"@ && spec_lenient_number(value, "maximum_melt_coefficient"@) is Ok ==> #[trigger] spec_apply_surface_change(u, Some(k), value) == Ok::<SnowmeltSurfaceUpdate, Seq<char>>(SnowmeltSurfaceUpdate { maximum_melt_coefficient: Some((spec_lenient_number(value, "maximum_melt_coefficient"@)->Ok_0)), ..u }),
        forall|k: String, value: PyValue| k@ == "base_temperature"@ && spec_lenient_number(value, "base_temperature"@) is Ok ==> #[trigger] spec_apply_surface_change(u, Some(k), value) == Ok::<SnowmeltSurfaceUpdate, Seq<char>>(SnowmeltSurfaceUpdate { base_temperature: Some((spec_lenient_number(value, "base_temperature"@)->Ok_0)), ..u }),
        forall|k: String, value: PyValue| k@ == "free_water_fraction"@ && spec_lenient_number(value, "free_water_fraction"@) is Ok ==> #[trigger] spec_apply_surface_change(u, Some(k), value) == Ok::<SnowmeltSurfaceUpdate, Seq<char>>(SnowmeltSurfaceUpdate { free_water_fraction: Some((spec_lenient_number(value, "free_water_fraction"@)->Ok_0)), ..u }),
        forall|k: String, value: PyValue| k@ == "initial_snow_depth"@ && spec_lenient_number(value, "initial_snow_depth"@) is Ok ==> #[trigger] spec_apply_surface_change(u, Some(k), value) == Ok::<SnowmeltSurfaceUpdate, Seq<char>>(SnowmeltSurfaceUpdate { initial_snow_depth: Some((spec_lenient_number(value, "initial_snow_depth"@)->Ok_0)), ..u }),
        forall|k: String, value: PyValue| k@ == "initial_free_water"@ && spec_lenient_number(value, "initial_free_water"@) is Ok ==> #[trigger] spec_apply_surface_change(u, Some(k), value) == Ok::<SnowmeltSurfaceUpdate, Seq<char>>(SnowmeltSurfaceUpdate { initial_free_water: Some((spec_lenient_number(value, "initial_free_water"@)->Ok_0)), ..u }),
        forall|k: String, value: PyValue| k@ == "snow_depth_for_full_coverage"@ && spec_lenient_number(value, "snow_depth_for_full_coverage"@) is Ok ==> #[trigger] spec_apply_surface_change(u, Some(k), value) == Ok::<SnowmeltSurfaceUpdate, Seq<char>>(SnowmeltSurfaceUpdate { snow_depth_for_full_coverage: Some((spec_lenient_number(value, "snow_depth_for_full_coverage"@)->Ok_0)), ..u }),
{
    assert forall|k: String, value: PyValue| k@ == "minimum_melt_coefficient"@ && spec_lenient_number(value, "minimum_melt_coefficient"@) is Ok implies #[trigger] spec_apply_surface_change(u, Some(k), value) == Ok::<SnowmeltSurfaceUpdate, Seq<char>>(SnowmeltSurfaceUpdate { minimum_melt_coefficient: Some((spec_lenient_number(value, "minimum_melt_coefficient"@)->Ok_0)), ..u }) by {
        reveal_strlit("minimum_melt_coefficient");
    }
    assert forall|k: String, value: PyValue| k@ == "maximum_melt_coefficient"@ && spec_lenient_number(value, "maximum_melt_coefficient"@) is Ok implies #[trigger] spec_apply_surface_change(u, Some(k), value) == Ok::<SnowmeltSurfaceUpdate, Seq<char>>(SnowmeltSurfaceUpdate { maximum_melt_coefficient: Some((spec_lenient_number(value, "maximum_melt_coefficient"@)->Ok_0)), ..u }) by {
        reveal_strlit("maximum_melt_coefficient");
        reveal_strlit("minimum_melt_coefficient");
        assert("maximum_melt_coefficient"@ != "minimum_melt_coefficient"@) by { assert("maximum_melt_coefficient"@[1] != "minimum_melt_coefficient"@[1]); }
    }
    assert forall|k: String, value: PyValue| k@ == "base_temperature"@ && spec_lenient_number(value, "base_temperature"@) is Ok implies #[trigger] spec_apply_surface_change(u, Some(k), value) == Ok::<SnowmeltSurfaceUpdate, Seq<char>>(SnowmeltSurfaceUpdate { base_temperature: Some((spec_lenient_number(value, "base_temperature"@)->Ok_0)), ..u }) by {
        reveal_strlit("base_temperature");
        reveal_strlit("minimum_melt_coefficient");
        assert("base_temperature"@.len() != "minimum_melt_coefficient"@.len());
        reveal_strlit("maximum_melt_coefficient");
        assert("base_temperature"@.len() != "maximum_melt_coefficient"@.len());
    }
    assert forall|k: String, value: PyValue| k@ == "free_water_fraction"@ && spec_lenient_number(value, "free_water_fraction"@) is Ok implies #[trigger] spec_apply_surface_change(u, Some(k), value) == Ok::<SnowmeltSurfaceUpdate, Seq<char>>(SnowmeltSurfaceUpdate { free_water_fraction: Some((spec_lenient_number(value, "free_water_fraction"@)->Ok_0)), ..u }) by {
        reveal_strlit("free_water_fraction");
        reveal_strlit("minimum_melt_coefficient");
        assert("free_water_fraction"@.len() != "minimum_melt_coefficient"@.len());
        reveal_strlit("maximum_melt_coefficient");
        assert("free_water_fraction"@.len() != "maximum_melt_coefficient"@.len());
        reveal_strlit("base_temperature");
        assert("free_water_fraction"@.len() != "base_temperature"@.len());
    }
    assert forall|k: String, value: PyValue| k@ == "initial_snow_depth"@ && spec_lenient_number(value, "initial_snow_depth"@) is Ok implies #[trigger] spec_apply_surface_change(u, Some(k), value) == Ok::<SnowmeltSurfaceUpdate, Seq<char>>(SnowmeltSurfaceUpdate { initial_snow_depth: Some((spec_lenient_number(value, "initial_snow_depth"@)->Ok_0)), ..u }) by {
        reveal_strlit("initial_snow_depth");
        reveal_strlit("minimum_melt_coefficient");
        assert("initial_snow_depth"@.len() != "minimum_melt_coefficient"@.len());
        reveal_strlit("maximum_melt_coefficient");
        assert("initial_snow_depth"@.len() != "maximum_melt_coefficient"@.len());
        reveal_strlit("base_temperature");
        assert("initial_snow_depth"@.len() != "base_temperature"@.len());
        reveal_strlit("free_water_fraction");
        assert("initial_snow_depth"@.len() != "free_water_fraction"@.len());
    }
    assert forall|k: String, value: PyValue| k@ == "initial_free_water"@ && spec_lenient_number(value, "initial_free_water"@) is Ok implies #[trigger] spec_apply_surface_change(u, Some(k), value) == Ok::<SnowmeltSurfaceUpdate, Seq<char>>(SnowmeltSurfaceUpdate { initial_free_water: Some((spec_lenient_number(value, "initial_free_water"@)->Ok_0)), ..u }) by {
        reveal_strlit("initial_free_water");
        reveal_strlit("minimum_melt_coefficient");
        assert("initial_free_water"@.len() != "minimum_melt_coefficient"@.len());
        reveal_strlit("maximum_melt_coefficient");
        assert("initial_free_water"@.len() != "maximum_melt_coefficient"@.len());
        reveal_strlit("base_temperature");
        assert("initial_free_water"@.len() != "base_temperature"@.len());
        reveal_strlit("free_water_fraction");
        assert("initial_free_water"@.len() != "free_water_fraction"@.len());
        reveal_strlit("initial_snow_depth");
        assert("initial_free_water"@ != "initial_snow_depth"@) by { assert("initial_free_water"@[8] != "initial_snow_depth"@[8]); }
    }
    assert forall|k: String, value: PyValue| k@ == "snow_depth_for_full_coverage"@ && spec_lenient_number(value, "snow_depth_for_full_coverage"@) is Ok implies #[trigger] spec_apply_surface_change(u, Some(k), value) == Ok::<SnowmeltSurfaceUpdate, Seq<char>>(SnowmeltSurfaceUpdate { snow_depth_for_full_coverage: Some((spec_lenient_number(value, "snow_depth_for_full_coverage"@)->Ok_0)), ..u }) by {
        reveal_strlit("snow_depth_for_full_coverage");
        reveal_strlit("minimum_melt_coefficient");
        assert("snow_depth_for_full_coverage"@.len() != "minimum_melt_coefficient"@.len());
        reveal_strlit("maximum_melt_coefficient");
        assert("snow_depth_for_full_coverage"@.len() != "maximum_melt_coefficient"@.len());
        reveal_strlit("base_temperature");
        assert("snow_depth_for_full_coverage"@.len() != "base_temperature"@.len());
        reveal_strlit("free_water_fraction");
        assert("snow_depth_for_full_coverage"@.len() != "free_water_fraction"@.len());
        reveal_strlit("initial_snow_depth");
        assert("snow_depth_for_full_coverage"@.len() != "initial_snow_depth"@.len());
        reveal_strlit("initial_free_water");
        assert("snow_depth_for_full_coverage"@.len() != "initial_free_water"@.len());
    }
}

/// The surface update built from the first `n` supplied surface settings.
pub open spec fn spec_surface_update(changes: Seq<(Option<String>, PyValue)>, n: int) -> Result<SnowmeltSurfaceUpdate, Seq<char>>
    decreases n,
{
    if n <= 0 {
        Ok(spec_empty_surface_update())
    } else {
        match spec_surface_update(changes, n - 1) {
            Err(d) => Err(d),
            Ok(u) => spec_apply_surface_change(u, changes[n - 1].0, changes[n - 1].1),
        }
    }
}

/// Once a surface setting is refused, every longer prefix is refused the same way.
pub proof fn lemma_surface_update_refusal(changes: Seq<(Option<String>, PyValue)>, i: int, n: int)
    requires
        0 <= i <= n,
        spec_surface_update(changes, i) is Err,
    ensures
        spec_surface_update(changes, n) == spec_surface_update(changes, i),
    decreases n - i,
{
    if n > i {
        lemma_surface_update_refusal(changes, i, n - 1);
    }
}

/// Applies one supplied `(key, value)` surface setting.
fn apply_surface_change(update: SnowmeltSurfaceUpdate, key: Option<String>, value: PyValue) -> (result: Result<
    SnowmeltSurfaceUpdate,
    NativeError,
>)
    ensures
        spec_policy_outcome(result, spec_apply_surface_change(update, key, value), "update_snowmelt"),
{
    let name = match key {
        Some(k) => k,
        None => {
            return Err(snowmelt_py_error(String::from_str("snowmelt update fields must be strings")));
        },
    };
    let n = name.as_str();
    let mut u = update;
    if str_eq(n, "minimum_melt_coefficient") {
        let v = match snowmelt_float(&value, n) {
            Err(e) => {
                return Err(e);
            },
            Ok(v) => v,
        };
        u.minimum_melt_coefficient = Some(v);
        return Ok(u);
    }
    if str_eq(n, "maximum_melt_coefficient") {
        let v = match snowmelt_float(&value, n) {
            Err(e) => {
                return Err(e);
            },
            Ok(v) => v,
        };
        u.maximum_melt_coefficient = Some(v);
        return Ok(u);
    }
    if str_eq(n, "base_temperature") {
        let v = match snowmelt_float(&value, n) {
            Err(e) => {
                return Err(e);
            },
            Ok(v) => v,
        };
        u.base_temperature = Some(v);
        return Ok(u);
    }
    if str_eq(n, "free_water_fraction") {
        let v = match snowmelt_float(&value, n) {
            Err(e) => {
                return Err(e);
            },
            Ok(v) => v,
        };
        u.free_water_fraction = Some(v);
        return Ok(u);
    }
    if str_eq(n, "initial_snow_depth") {
        let v = match snowmelt_float(&value, n) {
            Err(e) => {
                return Err(e);
            },
            Ok(v) => v,
        };
        u.initial_snow_depth = Some(v);
        return Ok(u);
    }
    if str_eq(n, "initial_free_water") {
        let v = match snowmelt_float(&value, n) {
            Err(e) => {
                return Err(e);
            },
            Ok(v) => v,
        };
        u.initial_free_water = Some(v);
        return Ok(u);
    }
    if str_eq(n, "snow_depth_for_full_coverage") {
        let v = match snowmelt_float(&value, n) {
            Err(e) => {
                return Err(e);
            },
            Ok(v) => v,
        };
        u.snow_depth_for_full_coverage = Some(v);
        return Ok(u);
    }
    Err(snowmelt_py_error(detail("unknown snowmelt surface field: ", n)))
}

/// Extracts every supplied surface setting.
fn extract_surface_update(changes: Vec<(Option<String>, PyValue)>) -> (result: Result<SnowmeltSurfaceUpdate, NativeError>)
    ensures
        spec_policy_outcome(result, spec_surface_update(changes@, changes@.len() as int), "update_snowmelt"),
{
    let count: usize = changes.len();
    let ghost all = changes@;
    let mut remaining = changes;
    let mut update = empty_surface_update();
    let mut taken: usize = 0;
    proof {
        assert(remaining@ =~= all.skip(0));
    }
    while taken < count
        invariant
            count == all.len(),
            all == changes@,
            taken <= count,
            remaining@ == all.skip(taken as int),
            spec_surface_update(all, taken as int) == Ok::<SnowmeltSurfaceUpdate, Seq<char>>(update),
        decreases count - taken,
    {
        let (key, value) = remaining.remove(0);
        proof {
            assert(remaining@ =~= all.skip(taken + 1));
            assert(all[taken as int] == (key, value));
        }
        let ghost before = update;
        match apply_surface_change(update, key, value) {
            Ok(next) => {
                update = next;
            },
            Err(e) => {
                proof {
                    assert(spec_surface_update(all, taken + 1) == spec_apply_surface_change(
                        before,
                        all[taken as int].0,
                        all[taken as int].1,
                    ));
                    lemma_surface_update_refusal(all, taken + 1, count as int);
                }
                return Err(e);
            },
        }
        taken = taken + 1;
    }
    Ok(update)
}

/// Exactly five non-boolean removal fractions from a sequence.
pub open spec fn spec_removal_fractions(value: PyValue) -> Result<Seq<Number>, Seq<char>> {
    let items = match value {
        PyValue::Tuple(items) => Some(items@),
        PyValue::List(items) => Some(items@),
        _ => None,
    };
    match items {
        None => Err("removal_fractions must contain five numeric values"@),
        Some(t) => if t.len() != 5 {
            Err("removal_fractions must contain five numeric values"@)
        } else {
            match spec_lenient_number(t[0], "removal_fractions"@) {
                Err(d) => Err(d),
                Ok(a) => match spec_lenient_number(t[1], "removal_fractions"@) {
                    Err(d) => Err(d),
                    Ok(b) => match spec_lenient_number(t[2], "removal_fractions"@) {
                        Err(d) => Err(d),
                        Ok(c) => match spec_lenient_number(t[3], "removal_fractions"@) {
                            Err(d) => Err(d),
                            Ok(e) => match spec_lenient_number(t[4], "removal_fractions"@) {
                                Err(d) => Err(d),
                                Ok(f) => Ok(seq![a, b, c, e, f]),
                            },
                        },
                    },
                },
            }
        },
    }
}

/// Extracts exactly five non-boolean snow-removal fractions from a sequence.
pub fn snowmelt_removal_fractions(value: &PyValue) -> (result: Result<[Number; 5], NativeError>)
    ensures
        match spec_removal_fractions(*value) {
            Ok(v) => result is Ok && result->Ok_0@ == v,
            Err(d) => result is Err && crate::error::is_property_error(
                result->Err_0,
                "update_snowmelt",
                ErrorCode::ApiPropertyValue,
                d,
            ),
        },
{
    let items = match value {
        PyValue::Tuple(items) => items,
        PyValue::List(items) => items,
        _ => {
            return Err(snowmelt_py_error(String::from_str("removal_fractions must contain five numeric values")));
        },
    };
    if items.len() != 5 {
        return Err(snowmelt_py_error(String::from_str("removal_fractions must contain five numeric values")));
    }
    let a = match snowmelt_float(&items[0], "removal_fractions") {
        Ok(n) => n,
        Err(e) => {
            return Err(e);
        },
    };
    let b = match snowmelt_float(&items[1], "removal_fractions") {
        Ok(n) => n,
        Err(e) => {
            return Err(e);
        },
    };
    let c = match snowmelt_float(&items[2], "removal_fractions") {
        Ok(n) => n,
        Err(e) => {
            return Err(e);
        },
    };
    let d = match snowmelt_float(&items[3], "removal_fractions") {
        Ok(n) => n,
        Err(e) => {
            return Err(e);
        },
    };
    let f = match snowmelt_float(&items[4], "removal_fractions") {
        Ok(n) => n,
        Err(e) => {
            return Err(e);
        },
    };
    let fractions = [a, b, c, d, f];
    assert(fractions@ =~= seq![a, b, c, d, f]);
    Ok(fractions)
}

/// Extracts an optional removal-subcatchment Live View: `None` clears it.
pub fn snowmelt_removal_subcatchment(value: PyValue) -> (result: Result<Option<RelatedObject>, NativeError>)
    ensures
        result == spec_related(value),
{
    related_live_view(value)
}

/// A root snowmelt update in progress: its patch and its removal subcatchment.
pub struct RootSnowmeltUpdate {
    pub patch: SnowmeltPatch,
    pub removal_subcatchment: Option<Option<RelatedObject>>,
}

/// `u` with one supplied `(key, value)` root snowmelt setting applied.
pub open spec fn spec_apply_root_change(u: RootSnowmeltUpdate, key: Option<String>, value: PyValue) -> Result<
    RootSnowmeltUpdate,
    Refusal,
> {
    match key {
        None => Err(Refusal::Detail("snowmelt update fields must be strings"@)),
        Some(k) => {
            let name = k@;
            if name == "plowable_fraction"@ {
                match spec_lenient_number(value, "plowable_fraction"@) {
                    Err(d) => Err(Refusal::Detail(d)),
                    Ok(v) => Ok(RootSnowmeltUpdate { patch: SnowmeltPatch { plowable_fraction: Some(v), ..u.patch }, ..u }),
                }
            } else if name == "plow_depth"@ {
                match spec_lenient_number(value, "plow_depth"@) {
                    Err(d) => Err(Refusal::Detail(d)),
                    Ok(v) => Ok(RootSnowmeltUpdate { patch: SnowmeltPatch { plow_depth: Some(v), ..u.patch }, ..u }),
                }
            } else if name == "removal_fractions"@ {
                match spec_removal_fractions(value) {
                    Err(d) => Err(Refusal::Detail(d)),
                    Ok(v) => Ok(RootSnowmeltUpdate { patch: SnowmeltPatch { removal_fractions: Some(spec_fraction_array(v)), ..u.patch }, ..u }),
                }
            } else if name == "removal_subcatchment"@ {
                match spec_related(value) {
                    Err(e) => Err(Refusal::Raised(e)),
                    Ok(r) => Ok(RootSnowmeltUpdate { removal_subcatchment: Some(r), ..u }),
                }
            } else {
                Err(Refusal::Detail("unknown snowmelt field: "@ + name))
            }
        },
    }
}

/// Each supported snowmelt setting lands in its own field of the update, taking the value read from what was supplied for it, and nothing else changes.
pub proof fn lemma_snowmelt_settings_land_in_their_fields(u: RootSnowmeltUpdate)
    ensures
        forall|k: String, value: PyValue| k@ == "plowable_fraction"@ && spec_lenient_number(value, "plowable_fraction"@) is Ok ==> #[trigger] spec_apply_root_change(u, Some(k), value) == Ok::<RootSnowmeltUpdate, Refusal>(RootSnowmeltUpdate { patch: SnowmeltPatch { plowable_fraction: Some((spec_lenient_number(value, "plowable_fraction"@)->Ok_0)), ..u.patch }, ..u }),
        forall|k: String, value: PyValue| k@ == "plow_depth"@ && spec_lenient_number(value, "plow_depth"@) is Ok ==> #[trigger] spec_apply_root_change(u, Some(k), value) == Ok::<RootSnowmeltUpdate, Refusal>(RootSnowmeltUpdate { patch: SnowmeltPatch { plow_depth: Some((spec_lenient_number(value, "plow_depth"@)->Ok_0)), ..u.patch }, ..u }),
        forall|k: String, value: PyValue| k@ == "removal_fractions"@ && spec_removal_fractions(value) is Ok ==> #[trigger] spec_apply_root_change(u, Some(k), value) == Ok::<RootSnowmeltUpdate, Refusal>(RootSnowmeltUpdate { patch: SnowmeltPatch { removal_fractions: Some(spec_fraction_array((spec_removal_fractions(value)->Ok_0))), ..u.patch }, ..u }),
        forall|k: String, value: PyValue| k@ == "removal_subcatchment"@ && spec_related(value) is Ok ==> #[trigger] spec_apply_root_change(u, Some(k), value) == Ok::<RootSnowmeltUpdate, Refusal>(RootSnowmeltUpdate { removal_subcatchment: Some((spec_related(value)->Ok_0)), ..u }),
{
    assert forall|k: String, value: PyValue| k@ == "plowable_fraction"@ && spec_lenient_number(value, "plowable_fraction"@) is Ok implies #[trigger] spec_apply_root_change(u, Some(k), value) == Ok::<RootSnowmeltUpdate, Refusal>(RootSnowmeltUpdate { patch: SnowmeltPatch { plowable_fraction: Some((spec_lenient_number(value, "plowable_fraction"@)->Ok_0)), ..u.patch }, ..u }) by {
        reveal_strlit("plowable_fraction");
    }
    assert forall|k: String, value: PyValue| k@ == "plow_depth"@ && spec_lenient_number(value, "plow_depth"@) is Ok implies #[trigger] spec_apply_root_change(u, Some(k), value) == Ok::<RootSnowmeltUpdate, Refusal>(RootSnowmeltUpdate { patch: SnowmeltPatch { plow_depth: Some((spec_lenient_number(value, "plow_depth"@)->Ok_0)), ..u.patch }, ..u }) by {
        reveal_strlit("plow_depth");
        reveal_strlit("plowable_fraction");
        assert("plow_depth"@.len() != "plowable_fraction"@.len());
    }
    assert forall|k: String, value: PyValue| k@ == "removal_fractions"@ && spec_removal_fractions(value) is Ok implies #[trigger] spec_apply_root_change(u, Some(k), value) == Ok::<RootSnowmeltUpdate, Refusal>(RootSnowmeltUpdate { patch: SnowmeltPatch { removal_fractions: Some(spec_fraction_array((spec_removal_fractions(value)->Ok_0))), ..u.patch }, ..u }) by {
        reveal_strlit("removal_fractions");
        reveal_strlit("plowable_fraction");
        assert("removal_fractions"@ != "plowable_fraction"@) by { assert("removal_fractions"@[0] != "plowable_fraction"@[0]); }
        reveal_strlit("plow_depth");
        assert("removal_fractions"@.len() != "plow_depth"@.len());
    }
    assert forall|k: String, value: PyValue| k@ == "removal_subcatchment"@ && spec_related(value) is Ok implies #[trigger] spec_apply_root_change(u, Some(k), value) == Ok::<RootSnowmeltUpdate, Refusal>(RootSnowmeltUpdate { removal_subcatchment: Some((spec_related(value)->Ok_0)), ..u }) by {
        reveal_strlit("removal_subcatchment");
        reveal_strlit("plowable_fraction");
        assert("removal_subcatchment"@.len() != "plowable_fraction"@.len());
        reveal_strlit("plow_depth");
        assert("removal_subcatchment"@.len() != "plow_depth"@.len());
        reveal_strlit("removal_fractions");
        assert("removal_subcatchment"@.len() != "removal_fractions"@.len());
    }
}

/// The array of five fractions whose view is `v`.
pub open spec fn spec_fraction_array(v: Seq<Number>) -> [Number; 5] {
    choose|a: [Number; 5]| a@ == v
}

/// The root update built from the first `n` supplied settings.
pub open spec fn spec_root_update(changes: Seq<(Option<String>, PyValue)>, n: int) -> Result<RootSnowmeltUpdate, Refusal>
    decreases n,
{
    if n <= 0 {
        Ok(RootSnowmeltUpdate { patch: spec_empty_snowmelt_patch(), removal_subcatchment: None })
    } else {
        match spec_root_update(changes, n - 1) {
            Err(r) => Err(r),
            Ok(u) => spec_apply_root_change(u, changes[n - 1].0, changes[n - 1].1),
        }
    }
}

/// Once a root setting is refused, every longer prefix is refused the same way.
pub proof fn lemma_root_update_refusal(changes: Seq<(Option<String>, PyValue)>, i: int, n: int)
    requires
        0 <= i <= n,
        spec_root_update(changes, i) is Err,
    ensures
        spec_root_update(changes, n) == spec_root_update(changes, i),
    decreases n - i,
{
    if n > i {
        lemma_root_update_refusal(changes, i, n - 1);
    }
}

/// Applies one supplied `(key, value)` root snowmelt setting.
fn apply_root_change(update: RootSnowmeltUpdate, key: Option<String>, value: PyValue) -> (result: Result<
    RootSnowmeltUpdate,
    NativeError,
>)
    ensures
        spec_refusal_outcome(result, spec_apply_root_change(update, key, value), "update_snowmelt"),
{
    let name = match key {
        Some(k) => k,
        None => {
            return Err(snowmelt_py_error(String::from_str("snowmelt update fields must be strings")));
        },
    };
    let n = name.as_str();
    let mut u = update;
    if str_eq(n, "plowable_fraction") {
        let v = match snowmelt_float(&value, n) {
            Err(e) => {
                return Err(e);
            },
            Ok(v) => v,
        };
        u.patch.plowable_fraction = Some(v);
        return Ok(u);
    }
    if str_eq(n, "plow_depth") {
        let v = match snowmelt_float(&value, n) {
            Err(e) => {
                return Err(e);
            },
            Ok(v) => v,
        };
        u.patch.plow_depth = Some(v);
        return Ok(u);
    }
    if str_eq(n, "removal_fractions") {
        let v = match snowmelt_removal_fractions(&value) {
            Err(e) => {
                return Err(e);
            },
            Ok(v) => v,
        };
        proof {
            let w = spec_fraction_array(v@);
            assert(w@ == v@);
            assert(w =~= v);
        }
        u.patch.removal_fractions = Some(v);
        return Ok(u);
    }
    if str_eq(n, "removal_subcatchment") {
        let r = match snowmelt_removal_subcatchment(value) {
            Err(e) => {
                return Err(e);
            },
            Ok(r) => r,
        };
        u.removal_subcatchment = Some(r);
        return Ok(u);
    }
    Err(snowmelt_py_error(detail("unknown snowmelt field: ", n)))
}

/// Extracts every supplied root snowmelt setting.
fn extract_root_update(changes: Vec<(Option<String>, PyValue)>) -> (result: Result<RootSnowmeltUpdate, NativeError>)
    ensures
        spec_refusal_outcome(result, spec_root_update(changes@, changes@.len() as int), "update_snowmelt"),
{
    let count: usize = changes.len();
    let ghost all = changes@;
    let mut remaining = changes;
    let mut update = RootSnowmeltUpdate { patch: empty_snowmelt_patch(), removal_subcatchment: None };
    let mut taken: usize = 0;
    proof {
        assert(remaining@ =~= all.skip(0));
    }
    while taken < count
        invariant
            count == all.len(),
            all == changes@,
            taken <= count,
            remaining@ == all.skip(taken as int),
            spec_root_update(all, taken as int) == Ok::<RootSnowmeltUpdate, Refusal>(update),
        decreases count - taken,
    {
        let (key, value) = remaining.remove(0);
        proof {
            assert(remaining@ =~= all.skip(taken + 1));
            assert(all[taken as int] == (key, value));
        }
        let ghost before = update;
        match apply_root_change(update, key, value) {
            Ok(next) => {
                update = next;
            },
            Err(e) => {
                proof {
                    assert(spec_root_update(all, taken + 1) == spec_apply_root_change(
                        before,
                        all[taken as int].0,
                        all[taken as int].1,
                    ));
                    lemma_root_update_refusal(all, taken + 1, count as int);
                }
                return Err(e);
            },
        }
        taken = taken + 1;
    }
    Ok(update)
}

/// `result` is the snowmelt update of a root or surface request: the supplied settings are
/// checked before the private surface name.
pub open spec fn spec_snowmelt_outcome(
    surface: Option<Seq<char>>,
    changes: Seq<(Option<String>, PyValue)>,
    result: Result<SnowmeltUpdate, NativeError>,
) -> bool {
    match surface {
        Some(name) => match spec_surface_update(changes, changes.len() as int) {
            Err(d) => result is Err && crate::error::is_property_error(
                result->Err_0,
                "update_snowmelt",
                ErrorCode::ApiPropertyValue,
                d,
            ),
            Ok(u) => match spec_snowmelt_surface(name) {
                Some(s) => result == Ok::<SnowmeltUpdate, NativeError>(SnowmeltUpdate::Surface { surface: s, changes: u }),
                None => result is Err && is_internal_error(
                    result->Err_0,
                    "snowmelt_surface",
                    "invalid private snowmelt surface"@,
                ),
            },
        },
        None => match spec_root_update(changes, changes.len() as int) {
            Err(r) => crate::convert::spec_refusal_raised(result, r, "update_snowmelt"),
            Ok(u) => result == Ok::<SnowmeltUpdate, NativeError>(
                SnowmeltUpdate::Root { patch: u.patch, removal_subcatchment: u.removal_subcatchment },
            ),
        },
    }
}

/// Extracts one complete snowmelt update: the settings of the named private surface, or the
/// root settings when no surface is named.
///
/// `changes` are the supplied `(key, value)` pairs in mapping order, a key that is not a `str`
/// given as `None`.
pub fn extract_snowmelt_update(surface: Option<&str>, changes: Vec<(Option<String>, PyValue)>) -> (result: Result<
    SnowmeltUpdate,
    NativeError,
>)
    ensures
        spec_snowmelt_outcome(
            match surface {
                Some(s) => Some(s@),
                None => None,
            },
            changes@,
            result,
        ),
{
    match surface {
        Some(name) => {
            let u = match extract_surface_update(changes) {
                Err(e) => {
                    return Err(e);
                },
                Ok(u) => u,
            };
            match snowmelt_surface(name) {
                Err(e) => Err(e),
                Ok(s) => Ok(SnowmeltUpdate::Surface { surface: s, changes: u }),
            }
        },
        None => match extract_root_update(changes) {
            Err(e) => Err(e),
            Ok(u) => Ok(SnowmeltUpdate::Root { patch: u.patch, removal_subcatchment: u.removal_subcatchment }),
        },
    }
}

/// `out` is one surface value: the supplied value, else what reading its current value gives.
pub open spec fn spec_surface_value<R: Fn(SnowmeltSurfaceField) -> Result<Number, SwmmError>>(
    read: R,
    supplied: Option<Number>,
    field: SnowmeltSurfaceField,
    out: Result<Number, SwmmError>,
) -> bool {
    match supplied {
        Some(v) => out == Ok::<Number, SwmmError>(v),
        None => call_ensures(read, (field,), out),
    }
}

/// Returns one surface value: the supplied value, else its current value.
fn surface_value<R: Fn(SnowmeltSurfaceField) -> Result<Number, SwmmError>>(
    read: &R,
    supplied: Option<Number>,
    field: SnowmeltSurfaceField,
) -> (out: Result<Number, SwmmError>)
    requires
        forall|f: SnowmeltSurfaceField| call_requires(*read, (f,)),
    ensures
        spec_surface_value(*read, supplied, field, out),
{
    match supplied {
        Some(v) => Ok(v),
        None => read(field),
    }
}

/// The surface configuration whose fields, in declaration order, are `values`.
pub open spec fn spec_surface_configuration(values: Seq<Number>) -> SnowmeltSurfaceConfiguration {
    SnowmeltSurfaceConfiguration {
        minimum_melt_coefficient: values[0],
        maximum_melt_coefficient: values[1],
        base_temperature: values[2],
        free_water_fraction: values[3],
        initial_snow_depth: values[4],
        initial_free_water: values[5],
        snow_depth_for_full_coverage: values[6],
    }
}

/// `outs` are the surface values taken in declaration order, up to and including the first
/// failure.
pub open spec fn spec_surface_values<R: Fn(SnowmeltSurfaceField) -> Result<Number, SwmmError>>(
    read: R,
    changes: SnowmeltSurfaceUpdate,
    outs: Seq<Result<Number, SwmmError>>,
) -> bool {
    &&& 0 < outs.len() <= 7
    &&& forall|i: int|
        0 <= i < outs.len() ==> spec_surface_value(read, changes.spec_supplied(i), spec_surface_field_at(i), #[trigger] outs[i])
    &&& forall|i: int| 0 <= i < outs.len() - 1 ==> (#[trigger] outs[i]) is Ok
    &&& outs.len() < 7 ==> outs.last() is Err
}

/// Completes one surface with the current value of every field that `changes` does not supply,
/// read by `read`; nothing is read, and the patch is empty, when nothing is supplied.
fn complete_surface<R: Fn(SnowmeltSurfaceField) -> Result<Number, SwmmError>>(
    surface: SnowmeltSurface,
    changes: SnowmeltSurfaceUpdate,
    read: &R,
) -> (result: Result<SnowmeltPatch, SwmmError>)
    requires
        forall|f: SnowmeltSurfaceField| call_requires(*read, (f,)),
    ensures
        changes.spec_is_empty() ==> result == Ok::<SnowmeltPatch, SwmmError>(spec_empty_snowmelt_patch()),
        !changes.spec_is_empty() ==> exists|outs: Seq<Result<Number, SwmmError>>|
            {
                &&& spec_surface_values(*read, changes, outs)
                &&& outs.last() matches Err(e) ==> result == Err::<SnowmeltPatch, SwmmError>(e)
                &&& outs.last() is Ok ==> result == Ok::<SnowmeltPatch, SwmmError>(
                    SnowmeltPatch {
                        surface: Some((surface, spec_surface_configuration(outs.map_values(|o: Result<Number, SwmmError>| o->Ok_0)))),
                        ..spec_empty_snowmelt_patch()
                    },
                )
            },
{
    if changes.is_empty() {
        return Ok(empty_snowmelt_patch());
    }
    let mut values: Vec<Number> = Vec::new();
    let ghost mut outs: Seq<Result<Number, SwmmError>> = Seq::empty();
    let mut i: usize = 0;
    while i < 7
        invariant
            !changes.spec_is_empty(),
            forall|f: SnowmeltSurfaceField| call_requires(*read, (f,)),
            i <= 7,
            values@.len() == i,
            outs.len() == i,
            forall|j: int| 0 <= j < i ==> (#[trigger] outs[j]) == Ok::<Number, SwmmError>(values@[j]),
            forall|j: int|
                0 <= j < i ==> spec_surface_value(*read, changes.spec_supplied(j), spec_surface_field_at(j), #[trigger] outs[j]),
        decreases 7 - i,
    {
        let v = surface_value(read, changes.supplied(i), surface_field_at(i));
        match v {
            Err(e) => {
                proof {
                    let full = outs.push(Err::<Number, SwmmError>(e));
                    assert(full.last() == Err::<Number, SwmmError>(e));
                    assert forall|j: int| 0 <= j < full.len() implies spec_surface_value(
                        *read,
                        changes.spec_supplied(j),
                        spec_surface_field_at(j),
                        #[trigger] full[j],
                    ) by {
                        if j < i {
                            assert(full[j] == outs[j]);
                        }
                    }
                    assert(forall|j: int| 0 <= j < full.len() - 1 ==> (#[trigger] full[j]) == outs[j]);
                    assert(spec_surface_values(*read, changes, full));
                }
                return Err(e);
            },
            Ok(x) => {
                values.push(x);
                proof {
                    outs = outs.push(Ok::<Number, SwmmError>(x));
                }
            },
        }
        i = i + 1;
    }
    let configuration = SnowmeltSurfaceConfiguration {
        minimum_melt_coefficient: values[0],
        maximum_melt_coefficient: values[1],
        base_temperature: values[2],
        free_water_fraction: values[3],
        initial_snow_depth: values[4],
        initial_free_water: values[5],
        snow_depth_for_full_coverage: values[6],
    };
    proof {
        let taken = outs.map_values(|o: Result<Number, SwmmError>| o->Ok_0);
        assert(taken =~= values@);
        assert(spec_surface_values(*read, changes, outs));
    }
    Ok(SnowmeltPatch {
        plowable_fraction: None,
        plow_depth: None,
        removal_fractions: None,
        removal_subcatchment_index: None,
        surface: Some((surface, configuration)),
    })
}

/// `result` is what checking `update` against the configured objects gives: a supplied removal subcatchment is validated and a surface update completed by `read`.
pub open spec fn spec_snowmelt_patch<F: Fn(&RelatedObject, ObjectType, &'static str) -> Result<usize, SwmmError>, R: Fn(SnowmeltSurfaceField) -> Result<Number, SwmmError>>(
    validate: F,
    read: R,
    update: SnowmeltUpdate,
    result: Result<SnowmeltPatch, SwmmError>,
) -> bool {
    &&& update matches SnowmeltUpdate::Root { patch, removal_subcatchment } ==> exists|
        o: Result<Option<Option<usize>>, SwmmError>,
    |
        {
            &&& spec_resolved_clearable(
                validate,
                removal_subcatchment,
                ObjectType::Subcatch,
                "removal_subcatchment",
                o,
            )
            &&& o matches Err(e) ==> result == Err::<SnowmeltPatch, SwmmError>(e)
            &&& o matches Ok(p) ==> result == Ok::<SnowmeltPatch, SwmmError>(
                match p {
                    Some(index) => SnowmeltPatch { removal_subcatchment_index: Some(index), ..patch },
                    None => patch,
                },
            )
        }
    &&& update matches SnowmeltUpdate::Surface { surface, changes } ==> {
        &&& changes.spec_is_empty() ==> result == Ok::<SnowmeltPatch, SwmmError>(spec_empty_snowmelt_patch())
        &&& !changes.spec_is_empty() ==> exists|outs: Seq<Result<Number, SwmmError>>|
            {
                &&& spec_surface_values(read, changes, outs)
                &&& outs.last() matches Err(e) ==> result == Err::<SnowmeltPatch, SwmmError>(e)
                &&& outs.last() is Ok ==> result == Ok::<SnowmeltPatch, SwmmError>(
                    SnowmeltPatch {
                        surface: Some((surface, spec_surface_configuration(outs.map_values(|o: Result<Number, SwmmError>| o->Ok_0)))),
                        ..spec_empty_snowmelt_patch()
                    },
                )
            }
    }
}

/// The outcomes that checking a `SnowmeltUpdate` against the configured objects can give.
pub open spec fn spec_snowmelt_check<F: Fn(&RelatedObject, ObjectType, &'static str) -> Result<usize, SwmmError>, R: Fn(SnowmeltSurfaceField) -> Result<Number, SwmmError>>(
    validate: F,
    read: R,
) -> spec_fn(SnowmeltUpdate, Result<SnowmeltPatch, SwmmError>) -> bool {
    |update: SnowmeltUpdate, result: Result<SnowmeltPatch, SwmmError>| spec_snowmelt_patch(validate, read, update, result)
}

impl SnowmeltUpdate {
    /// Validates a supplied removal subcatchment and builds the snowmelt patch; a surface update
    /// completes the surface with the current value of every field it does not supply, read by
    /// `read` (nothing is read, and nothing changes, when no surface value is supplied).
    pub fn into_patch<
        F: Fn(&RelatedObject, ObjectType, &'static str) -> Result<usize, SwmmError>,
        R: Fn(SnowmeltSurfaceField) -> Result<Number, SwmmError>,
    >(self, validate: &F, read: &R) -> (result: Result<SnowmeltPatch, SwmmError>)
        requires
            forall|r: &RelatedObject, t: ObjectType, n: &'static str| call_requires(*validate, (r, t, n)),
            forall|f: SnowmeltSurfaceField| call_requires(*read, (f,)),
        ensures
            spec_snowmelt_patch(*validate, *read, self, result),
    {
        match self {
            SnowmeltUpdate::Root { mut patch, removal_subcatchment } => {
                let o = resolve_clearable(validate, removal_subcatchment, ObjectType::Subcatch, "removal_subcatchment");
                match o {
                    Err(e) => Err(e),
                    Ok(None) => Ok(patch),
                    Ok(Some(index)) => {
                        patch.removal_subcatchment_index = Some(index);
                        Ok(patch)
                    },
                }
            },
            SnowmeltUpdate::Surface { surface, changes } => complete_surface(surface, changes, read),
        }
    }
}

/// `result` is the identity of a configured relationship: none without one, else what `lookup`
/// gives for its index, an unavailable identity being an `Exception` failure with `unavailable`.
pub open spec fn spec_configured_relationship<I, L: FnOnce(usize) -> Result<Option<I>, SwmmError>>(
    index: Option<usize>,
    lookup: L,
    unavailable: Seq<char>,
    result: Result<Option<I>, SwmmError>,
) -> bool {
    match index {
        None => result == Ok::<Option<I>, SwmmError>(None),
        Some(i) => exists|o: Result<Option<I>, SwmmError>|
            {
                &&& call_ensures(lookup, (i,), o)
                &&& o matches Err(e) ==> result == Err::<Option<I>, SwmmError>(e)
                &&& o == Ok::<Option<I>, SwmmError>(None) ==> result is Err && swmm_error_is(
                    result->Err_0,
                    ErrorCode::Exception,
                    unavailable,
                )
                &&& o matches Ok(Some(x)) ==> result == Ok::<Option<I>, SwmmError>(Some(x))
            },
    }
}

/// Looks up the identity of a configured relationship, if there is one.
pub fn configured_relationship<I, L: FnOnce(usize) -> Result<Option<I>, SwmmError>>(
    index: Option<usize>,
    lookup: L,
    unavailable: &str,
) -> (result: Result<Option<I>, SwmmError>)
    requires
        forall|i: usize| call_requires(lookup, (i,)),
    ensures
        spec_configured_relationship(index, lookup, unavailable@, result),
{
    match index {
        None => Ok(None),
        Some(i) => {
            let o = lookup(i);
            let ghost g = o;
            assert(call_ensures(lookup, (i,), g));
            match o {
                Err(e) => Err(e),
                Ok(None) => Err(SwmmError::with_str(ErrorCode::Exception, unavailable)),
                Ok(Some(x)) => Ok(Some(x)),
            }
        },
    }
}

/// One aquifer configuration value as the solver reads it.
#[derive(Clone, Copy, Debug, PartialEq, Eq, Structural)]
pub enum AquiferConfigurationValue {
    Number(Number),
    UpperEvaporationPattern(Option<usize>),
}

/// The identity of an aquifer's configured upper-evaporation pattern, if it has one.
pub fn aquifer_pattern_identity<I, L: FnOnce(usize) -> Result<Option<I>, SwmmError>>(
    value: AquiferConfigurationValue,
    lookup: L,
) -> (result: Result<Option<I>, SwmmError>)
    requires
        forall|i: usize| call_requires(lookup, (i,)),
    ensures
        value is Number ==> result is Err && swmm_error_is(
            result->Err_0,
            ErrorCode::System,
            "aquifer relationship selector returned wrong value kind"@,
        ),
        value matches AquiferConfigurationValue::UpperEvaporationPattern(index) ==> spec_configured_relationship(
            index,
            lookup,
            "configured evaporation-pattern identity is unavailable"@,
            result,
        ),
{
    match value {
        AquiferConfigurationValue::Number(_) => Err(
            SwmmError::with_str(ErrorCode::System, "aquifer relationship selector returned wrong value kind"),
        ),
        AquiferConfigurationValue::UpperEvaporationPattern(index) => configured_relationship(
            index,
            lookup,
            "configured evaporation-pattern identity is unavailable",
        ),
    }
}

/// The number of a scalar aquifer value; a relationship must be marshalled as a Live View.
pub fn aquifer_number(value: AquiferConfigurationValue) -> (result: Result<Number, NativeError>)
    ensures
        value matches AquiferConfigurationValue::Number(n) ==> result == Ok::<Number, NativeError>(n),
        value is UpperEvaporationPattern ==> result is Err && is_internal_error(
            result->Err_0,
            "aquifer_configuration_value",
            "relationship escaped native relationship marshalling"@,
        ),
{
    match value {
        AquiferConfigurationValue::Number(n) => Ok(n),
        AquiferConfigurationValue::UpperEvaporationPattern(_) => Err(
            internal_error("aquifer_configuration_value", "relationship escaped native relationship marshalling"),
        ),
    }
}

/// One root snowmelt configuration value as the solver reads it.
#[derive(Clone, Copy, Debug)]
pub enum SnowmeltConfigurationValue {
    Number(Number),
    RemovalFractions([Number; 5]),
    RemovalSubcatchment(Option<usize>),
}

/// The identity of a snowmelt set's configured removal subcatchment, if it has one.
pub fn snowmelt_removal_identity<I, L: FnOnce(usize) -> Result<Option<I>, SwmmError>>(
    value: SnowmeltConfigurationValue,
    lookup: L,
) -> (result: Result<Option<I>, SwmmError>)
    requires
        forall|i: usize| call_requires(lookup, (i,)),
    ensures
        !(value is RemovalSubcatchment) ==> result is Err && swmm_error_is(
            result->Err_0,
            ErrorCode::System,
            "snowmelt relationship selector returned wrong value kind"@,
        ),
        value matches SnowmeltConfigurationValue::RemovalSubcatchment(index) ==> spec_configured_relationship(
            index,
            lookup,
            "configured snowmelt removal identity is unavailable"@,
            result,
        ),
{
    match value {
        SnowmeltConfigurationValue::RemovalSubcatchment(index) => configured_relationship(
            index,
            lookup,
            "configured snowmelt removal identity is unavailable",
        ),
        _ => Err(SwmmError::with_str(ErrorCode::System, "snowmelt relationship selector returned wrong value kind")),
    }
}

/// A scalar or fraction snowmelt value; a relationship must be marshalled as a Live View.
pub fn snowmelt_plain_value(value: SnowmeltConfigurationValue) -> (result: Result<
    SnowmeltConfigurationValue,
    NativeError,
>)
    ensures
        !(value is RemovalSubcatchment) ==> result == Ok::<SnowmeltConfigurationValue, NativeError>(value),
        value is RemovalSubcatchment ==> result is Err && is_internal_error(
            result->Err_0,
            "snowmelt_configuration_value",
            "relationship escaped native relationship marshalling"@,
        ),
{
    match value {
        SnowmeltConfigurationValue::RemovalSubcatchment(_) => Err(
            internal_error("snowmelt_configuration_value", "relationship escaped native relationship marshalling"),
        ),
        _ => Ok(value),
    }
}

/// The surface and field selected by two private names: the surface is resolved first.
pub open spec fn spec_surface_selection(surface: Seq<char>, field: Seq<char>, selected: Result<
    (SnowmeltSurface, SnowmeltSurfaceField),
    NativeError,
>) -> bool {
    match spec_snowmelt_surface(surface) {
        None => selected is Err && is_internal_error(
            selected->Err_0,
            "snowmelt_surface",
            "invalid private snowmelt surface"@,
        ),
        Some(s) => match spec_snowmelt_surface_field(field) {
            None => selected is Err && is_internal_error(
                selected->Err_0,
                "snowmelt_surface_configuration_value",
                "invalid private snowmelt surface field"@,
            ),
            Some(f) => selected == Ok::<(SnowmeltSurface, SnowmeltSurfaceField), NativeError>((s, f)),
        },
    }
}

/// Resolves a private surface name, then a private surface field name.
fn surface_selection(surface: &str, field: &str) -> (selected: Result<
    (SnowmeltSurface, SnowmeltSurfaceField),
    NativeError,
>)
    ensures
        spec_surface_selection(surface@, field@, selected),
{
    let s = match snowmelt_surface(surface) {
        Err(e) => {
            return Err(e);
        },
        Ok(s) => s,
    };
    match snowmelt_surface_field(field) {
        Err(e) => Err(e),
        Ok(f) => Ok((s, f)),
    }
}

impl NativeSimulation {
    /// Reads one aquifer configuration value of a definition view.
    pub fn aquifer_configuration_value<
        S,
        T,
        M: FnOnce() -> Result<bool, SwmmError>,
        R: FnOnce(AquiferConfigurationField) -> Result<T, SwmmError>,
    >(&self, generation: u64, subtype: Option<S>, field: &str, matches: M, read: R) -> (result: Result<T, NativeError>)
        requires
            call_requires(matches, ()),
            forall|f: AquiferConfigurationField| call_requires(read, (f,)),
        ensures
            exists|f: Result<AquiferConfigurationField, NativeError>|
                {
                    &&& match spec_aquifer_configuration_field(field@) {
                        Some(x) => f == Ok::<AquiferConfigurationField, NativeError>(x),
                        None => f is Err && is_internal_error(
                            f->Err_0,
                            "aquifer_configuration_value",
                            "invalid private aquifer configuration field"@,
                        ),
                    }
                    &&& spec_field_view(*self, "aquifer_configuration_value", generation, subtype, f, matches, read, result)
                },
    {
        let selected = aquifer_configuration_field(field);
        self.field_view("aquifer_configuration_value", generation, subtype, selected, matches, read)
    }

    /// Reads one root snowmelt configuration value of a definition view.
    pub fn snowmelt_configuration_value<
        S,
        T,
        M: FnOnce() -> Result<bool, SwmmError>,
        R: FnOnce(SnowmeltConfigurationField) -> Result<T, SwmmError>,
    >(&self, generation: u64, subtype: Option<S>, field: &str, matches: M, read: R) -> (result: Result<T, NativeError>)
        requires
            call_requires(matches, ()),
            forall|f: SnowmeltConfigurationField| call_requires(read, (f,)),
        ensures
            exists|f: Result<SnowmeltConfigurationField, NativeError>|
                {
                    &&& match spec_snowmelt_configuration_field(field@) {
                        Some(x) => f == Ok::<SnowmeltConfigurationField, NativeError>(x),
                        None => f is Err && is_internal_error(
                            f->Err_0,
                            "snowmelt_configuration_value",
                            "invalid private snowmelt configuration field"@,
                        ),
                    }
                    &&& spec_field_view(*self, "snowmelt_configuration_value", generation, subtype, f, matches, read, result)
                },
    {
        let selected = snowmelt_configuration_field(field);
        self.field_view("snowmelt_configuration_value", generation, subtype, selected, matches, read)
    }

    /// Reads one fixed-surface snowmelt value of a definition view.
    pub fn snowmelt_surface_configuration_value<
        S,
        T,
        M: FnOnce() -> Result<bool, SwmmError>,
        R: FnOnce((SnowmeltSurface, SnowmeltSurfaceField)) -> Result<T, SwmmError>,
    >(
        &self,
        generation: u64,
        subtype: Option<S>,
        surface: &str,
        field: &str,
        matches: M,
        read: R,
    ) -> (result: Result<T, NativeError>)
        requires
            call_requires(matches, ()),
            forall|f: (SnowmeltSurface, SnowmeltSurfaceField)| call_requires(read, (f,)),
        ensures
            exists|f: Result<(SnowmeltSurface, SnowmeltSurfaceField), NativeError>|
                {
                    &&& spec_surface_selection(surface@, field@, f)
                    &&& spec_field_view(*self, "snowmelt_surface_configuration_value", generation, subtype, f, matches, read, result)
                },
    {
        let selected = surface_selection(surface, field);
        self.field_view("snowmelt_surface_configuration_value", generation, subtype, selected, matches, read)
    }

    /// Atomically updates one aquifer from raw Python values.
    ///
    /// Once the view's identity is confirmed, the pattern is validated (`validate`, through
    /// `AquiferUpdate::into_patch`); only a checked patch reaches `apply`.
    pub fn update_aquifer<S, M: FnOnce() -> Result<bool, SwmmError>, A: FnOnce(AquiferPatch) -> Reported<()>, F: Fn(&RelatedObject, ObjectType, &'static str) -> Result<usize, SwmmError>>(
        &mut self,
        generation: u64,
        subtype: Option<S>,
        changes: Vec<(Option<String>, PyValue)>,
        matches: M,
        validate: &F,
        apply: A,
    ) -> (result: Result<(), NativeError>)
        requires
            call_requires(matches, ()),
            forall|r: &RelatedObject, t: ObjectType, n: &'static str| call_requires(*validate, (r, t, n)),
            forall|x: AquiferPatch| call_requires(apply, (x,)),
        ensures
            exists|p: Result<AquiferUpdate, NativeError>|
                {
                    &&& spec_refusal_outcome(p, spec_aquifer_update(changes@, changes@.len() as int), "update_aquifer")
                    &&& spec_field_update_checked(*old(self), *final(self), "update_aquifer", generation, subtype, p, matches, spec_aquifer_check(*validate), apply, result)
                },
            old(self).wf() ==> final(self).wf(),
    {
        let payload = extract_aquifer_update(changes);
        let check = |u: AquiferUpdate| -> (c: Result<AquiferPatch, SwmmError>)
            requires
                forall|r: &RelatedObject, t: ObjectType, n: &'static str| call_requires(*validate, (r, t, n)),
            ensures
                spec_aquifer_patch(*validate, u, c),
            { u.into_patch(validate) };
        self.field_update_checked("update_aquifer", generation, subtype, payload, matches, check, Ghost(spec_aquifer_check(*validate)), apply)
    }

    /// Atomically updates one snowmelt parameter set, or one of its surfaces, from raw Python
    /// values.
    ///
    /// Once the view's identity is confirmed, the update is validated and completed (`validate`
    /// and `read`, through `SnowmeltUpdate::into_patch`); only a checked patch reaches `apply`.
    pub fn update_snowmelt<S, M: FnOnce() -> Result<bool, SwmmError>, A: FnOnce(SnowmeltPatch) -> Reported<()>, F: Fn(&RelatedObject, ObjectType, &'static str) -> Result<usize, SwmmError>, R: Fn(SnowmeltSurfaceField) -> Result<Number, SwmmError>>(
        &mut self,
        generation: u64,
        subtype: Option<S>,
        surface: Option<&str>,
        changes: Vec<(Option<String>, PyValue)>,
        matches: M,
        validate: &F,
        read: &R,
        apply: A,
    ) -> (result: Result<(), NativeError>)
        requires
            call_requires(matches, ()),
            forall|r: &RelatedObject, t: ObjectType, n: &'static str| call_requires(*validate, (r, t, n)),
            forall|f: SnowmeltSurfaceField| call_requires(*read, (f,)),
            forall|x: SnowmeltPatch| call_requires(apply, (x,)),
        ensures
            exists|p: Result<SnowmeltUpdate, NativeError>|
                {
                    &&& spec_snowmelt_outcome(
                        match surface {
                            Some(s) => Some(s@),
                            None => None,
                        },
                        changes@,
                        p,
                    )
                    &&& spec_field_update_checked(*old(self), *final(self), "update_snowmelt", generation, subtype, p, matches, spec_snowmelt_check(*validate, *read), apply, result)
                },
            old(self).wf() ==> final(self).wf(),
    {
        let payload = extract_snowmelt_update(surface, changes);
        let check = |u: SnowmeltUpdate| -> (c: Result<SnowmeltPatch, SwmmError>)
            requires
                forall|r: &RelatedObject, t: ObjectType, n: &'static str| call_requires(*validate, (r, t, n)),
                forall|f: SnowmeltSurfaceField| call_requires(*read, (f,)),
            ensures
                spec_snowmelt_patch(*validate, *read, u, c),
            { u.into_patch(validate, read) };
        self.field_update_checked("update_snowmelt", generation, subtype, payload, matches, check, Ghost(spec_snowmelt_check(*validate, *read)), apply)
    }
}

} // verus!
