use vstd::prelude::*;
use vstd::string::*;

use crate::convert::{detail, spec_lenient_number, spec_resolved, Refusal};
use crate::error::{internal_error, swmm_error_is, DetachedFailure, ErrorCode, NativeError, SwmmError};
use crate::fields::is_internal_error;
use crate::owner::{NativeSimulation, ReportedView};
use crate::subcatchments::{
    spec_empty_patch, spec_required_related, subcatchment_float, subcatchment_py_error, subcatchment_related_view,
    GroundwaterConfiguration, GroundwaterValues, InfiltrationConfiguration, SubcatchmentPatch, SubcatchmentPatchView,
};
use crate::text::str_eq;
use crate::value::{Number, ObjectType, PyValue, RelatedObject};
use crate::views::{spec_field_update_view, spec_field_view};

verus! {

/// An infiltration field selector.
#[derive(Clone, Copy, Debug, PartialEq, Eq, Structural)]
pub enum InfiltrationField {
    InitialRate,
    MinimumRate,
    DecayCoefficient,
    DryingTimeDays,
    MaximumInfiltration,
    SuctionHead,
    HydraulicConductivity,
    InitialMoistureDeficit,
    CurveNumber,
}

/// A groundwater parameter selector.
#[derive(Clone, Copy, Debug, PartialEq, Eq, Structural)]
pub enum GroundwaterFloatField {
    SurfaceElevation,
    GroundwaterCoefficient,
    GroundwaterExponent,
    SurfaceCoefficient,
    SurfaceExponent,
    InteractionCoefficient,
    FixedSurfaceDepth,
    BottomElevation,
    WaterTableElevation,
    UpperMoisture,
}

/// The private name of an infiltration configuration's model.
pub open spec fn spec_infiltration_kind(value: InfiltrationConfiguration) -> &'static str {
    match value {
        InfiltrationConfiguration::Horton { .. } => "horton",
        InfiltrationConfiguration::ModifiedHorton { .. } => "modified_horton",
        InfiltrationConfiguration::GreenAmpt { .. } => "green_ampt",
        InfiltrationConfiguration::ModifiedGreenAmpt { .. } => "modified_green_ampt",
        InfiltrationConfiguration::CurveNumber { .. } => "curve_number",
    }
}

/// Returns the private name of an infiltration configuration's model.
pub fn infiltration_kind(value: InfiltrationConfiguration) -> (kind: &'static str)
    ensures
        kind == spec_infiltration_kind(value),
{
    match value {
        InfiltrationConfiguration::Horton { .. } => "horton",
        InfiltrationConfiguration::ModifiedHorton { .. } => "modified_horton",
        InfiltrationConfiguration::GreenAmpt { .. } => "green_ampt",
        InfiltrationConfiguration::ModifiedGreenAmpt { .. } => "modified_green_ampt",
        InfiltrationConfiguration::CurveNumber { .. } => "curve_number",
    }
}

/// A supplied infiltration value: `maximum_infiltration` may be `None`, every other field takes
/// a non-boolean number.
pub open spec fn spec_infiltration_value(value: PyValue, name: Seq<char>) -> Result<Option<Number>, Seq<char>> {
    if name == "maximum_infiltration"@ && value is NoneValue {
        Ok(None)
    } else {
        match spec_lenient_number(value, name) {
            Err(d) => Err(d),
            Ok(n) => Ok(Some(n)),
        }
    }
}

/// The infiltration field a supplied name selects.
pub open spec fn spec_infiltration_field(name: Seq<char>) -> Option<InfiltrationField> {
    if name == "initial_rate"@ {
        Some(InfiltrationField::InitialRate)
    } else if name == "minimum_rate"@ {
        Some(InfiltrationField::MinimumRate)
    } else if name == "decay_coefficient"@ {
        Some(InfiltrationField::DecayCoefficient)
    } else if name == "drying_time_days"@ {
        Some(InfiltrationField::DryingTimeDays)
    } else if name == "maximum_infiltration"@ {
        Some(InfiltrationField::MaximumInfiltration)
    } else if name == "suction_head"@ {
        Some(InfiltrationField::SuctionHead)
    } else if name == "hydraulic_conductivity"@ {
        Some(InfiltrationField::HydraulicConductivity)
    } else if name == "initial_moisture_deficit"@ {
        Some(InfiltrationField::InitialMoistureDeficit)
    } else if name == "curve_number"@ {
        Some(InfiltrationField::CurveNumber)
    } else {
        None
    }
}

/// Resolves a supplied infiltration field name.
fn infiltration_field(name: &str) -> (field: Option<InfiltrationField>)
    ensures
        field == spec_infiltration_field(name@),
{
    if str_eq(name, "initial_rate") {
        Some(InfiltrationField::InitialRate)
    } else if str_eq(name, "minimum_rate") {
        Some(InfiltrationField::MinimumRate)
    } else if str_eq(name, "decay_coefficient") {
        Some(InfiltrationField::DecayCoefficient)
    } else if str_eq(name, "drying_time_days") {
        Some(InfiltrationField::DryingTimeDays)
    } else if str_eq(name, "maximum_infiltration") {
        Some(InfiltrationField::MaximumInfiltration)
    } else if str_eq(name, "suction_head") {
        Some(InfiltrationField::SuctionHead)
    } else if str_eq(name, "hydraulic_conductivity") {
        Some(InfiltrationField::HydraulicConductivity)
    } else if str_eq(name, "initial_moisture_deficit") {
        Some(InfiltrationField::InitialMoistureDeficit)
    } else if str_eq(name, "curve_number") {
        Some(InfiltrationField::CurveNumber)
    } else {
        None
    }
}

/// One supplied `(key, value)` infiltration change.
pub open spec fn spec_infiltration_change(key: Option<String>, value: PyValue) -> Result<(InfiltrationField, Option<Number>), Seq<char>> {
    match key {
        None => Err("infiltration update fields must be strings"@),
        Some(k) => match spec_infiltration_field(k@) {
            None => Err("unknown infiltration field: "@ + k@),
            Some(f) => match spec_infiltration_value(value, k@) {
                Err(d) => Err(d),
                Ok(v) => Ok((f, v)),
            },
        },
    }
}

/// The changes read from the first `n` supplied infiltration settings.
pub open spec fn spec_infiltration_changes(changes: Seq<(Option<String>, PyValue)>, n: int) -> Result<
    Seq<(InfiltrationField, Option<Number>)>,
    Seq<char>,
>
    decreases n,
{
    if n <= 0 {
        Ok(Seq::empty())
    } else {
        match spec_infiltration_changes(changes, n - 1) {
            Err(d) => Err(d),
            Ok(v) => match spec_infiltration_change(changes[n - 1].0, changes[n - 1].1) {
                Err(d) => Err(d),
                Ok(c) => Ok(v.push(c)),
            },
        }
    }
}

/// Once an infiltration setting is refused, every longer prefix is refused the same way.
pub proof fn lemma_infiltration_changes_refusal(changes: Seq<(Option<String>, PyValue)>, i: int, n: int)
    requires
        0 <= i <= n,
        spec_infiltration_changes(changes, i) is Err,
    ensures
        spec_infiltration_changes(changes, n) == spec_infiltration_changes(changes, i),
    decreases n - i,
{
    if n > i {
        lemma_infiltration_changes_refusal(changes, i, n - 1);
    }
}

/// Reads one supplied `(key, value)` infiltration change.
fn infiltration_change(key: Option<String>, value: PyValue) -> (result: Result<(InfiltrationField, Option<Number>), NativeError>)
    ensures
        crate::policy::spec_policy_outcome(result, spec_infiltration_change(key, value), "update_subcatchment"),
{
    let name = match key {
        None => {
            return Err(subcatchment_py_error(String::from_str("infiltration update fields must be strings")));
        },
        Some(k) => k,
    };
    let n = name.as_str();
    let field = match infiltration_field(n) {
        None => {
            return Err(subcatchment_py_error(detail("unknown infiltration field: ", n)));
        },
        Some(f) => f,
    };
    if str_eq(n, "maximum_infiltration") {
        if let PyValue::NoneValue = value {
            return Ok((field, None));
        }
    }
    match subcatchment_float(&value, n) {
        Err(e) => Err(e),
        Ok(v) => Ok((field, Some(v))),
    }
}

/// One atomic infiltration slot update: the model the slot view captured and the changes.
#[derive(Debug)]
pub struct InfiltrationUpdate {
    pub expected_kind: String,
    pub changes: Vec<(InfiltrationField, Option<Number>)>,
}

/// Extracts one atomic infiltration slot update.
///
/// `changes` are the supplied `(key, value)` pairs in mapping order, a key that is not a `str`
/// given as `None`.
pub fn extract_infiltration_update(expected_kind: &str, changes: Vec<(Option<String>, PyValue)>) -> (result: Result<
    InfiltrationUpdate,
    NativeError,
>)
    ensures
        match spec_infiltration_changes(changes@, changes@.len() as int) {
            Ok(v) => result is Ok && result->Ok_0.expected_kind@ == expected_kind@ && result->Ok_0.changes@ == v,
            Err(d) => result is Err && crate::error::is_property_error(
                result->Err_0,
                "update_subcatchment",
                ErrorCode::ApiPropertyValue,
                d,
            ),
        },
{
    let count: usize = changes.len();
    let ghost all = changes@;
    let mut remaining = changes;
    let mut values: Vec<(InfiltrationField, Option<Number>)> = Vec::new();
    let mut taken: usize = 0;
    proof {
        assert(remaining@ =~= all.skip(0));
    }
    while taken < count
        invariant
            count == all.len(),
            all == changes@,
            taken <= count,
            remaining@ == all.skip(taken as int),
            spec_infiltration_changes(all, taken as int) == Ok::<Seq<(InfiltrationField, Option<Number>)>, Seq<char>>(values@),
        decreases count - taken,
    {
        let (key, value) = remaining.remove(0);
        proof {
            assert(remaining@ =~= all.skip(taken + 1));
            assert(all[taken as int] == (key, value));
        }
        match infiltration_change(key, value) {
            Ok(c) => {
                values.push(c);
            },
            Err(e) => {
                proof {
                    lemma_infiltration_changes_refusal(all, taken + 1, count as int);
                }
                return Err(e);
            },
        }
        taken = taken + 1;
    }
    Ok(InfiltrationUpdate { expected_kind: String::from_str(expected_kind), changes: values })
}

/// The configuration with one infiltration field replaced: a required field cannot be `None`,
/// and a field of another model is refused.
pub open spec fn spec_replace_infiltration_field(
    current: InfiltrationConfiguration,
    field: InfiltrationField,
    value: Option<Number>,
) -> Result<InfiltrationConfiguration, Seq<char>> {
    match (current, field) {
        (InfiltrationConfiguration::Horton { initial_rate: _, minimum_rate, decay_coefficient, drying_time_days, maximum_infiltration }, InfiltrationField::InitialRate) => match value {
            None => Err("infiltration field cannot be None"@),
            Some(n) => Ok(InfiltrationConfiguration::Horton { initial_rate: n, minimum_rate, decay_coefficient, drying_time_days, maximum_infiltration }),
        },
        (InfiltrationConfiguration::ModifiedHorton { initial_rate: _, minimum_rate, decay_coefficient, drying_time_days, maximum_infiltration }, InfiltrationField::InitialRate) => match value {
            None => Err("infiltration field cannot be None"@),
            Some(n) => Ok(InfiltrationConfiguration::ModifiedHorton { initial_rate: n, minimum_rate, decay_coefficient, drying_time_days, maximum_infiltration }),
        },
        (InfiltrationConfiguration::Horton { initial_rate, minimum_rate: _, decay_coefficient, drying_time_days, maximum_infiltration }, InfiltrationField::MinimumRate) => match value {
            None => Err("infiltration field cannot be None"@),
            Some(n) => Ok(InfiltrationConfiguration::Horton { initial_rate, minimum_rate: n, decay_coefficient, drying_time_days, maximum_infiltration }),
        },
        (InfiltrationConfiguration::ModifiedHorton { initial_rate, minimum_rate: _, decay_coefficient, drying_time_days, maximum_infiltration }, InfiltrationField::MinimumRate) => match value {
            None => Err("infiltration field cannot be None"@),
            Some(n) => Ok(InfiltrationConfiguration::ModifiedHorton { initial_rate, minimum_rate: n, decay_coefficient, drying_time_days, maximum_infiltration }),
        },
        (InfiltrationConfiguration::Horton { initial_rate, minimum_rate, decay_coefficient: _, drying_time_days, maximum_infiltration }, InfiltrationField::DecayCoefficient) => match value {
            None => Err("infiltration field cannot be None"@),
            Some(n) => Ok(InfiltrationConfiguration::Horton { initial_rate, minimum_rate, decay_coefficient: n, drying_time_days, maximum_infiltration }),
        },
        (InfiltrationConfiguration::ModifiedHorton { initial_rate, minimum_rate, decay_coefficient: _, drying_time_days, maximum_infiltration }, InfiltrationField::DecayCoefficient) => match value {
            None => Err("infiltration field cannot be None"@),
            Some(n) => Ok(InfiltrationConfiguration::ModifiedHorton { initial_rate, minimum_rate, decay_coefficient: n, drying_time_days, maximum_infiltration }),
        },
        (InfiltrationConfiguration::Horton { initial_rate, minimum_rate, decay_coefficient, drying_time_days: _, maximum_infiltration }, InfiltrationField::DryingTimeDays) => match value {
            None => Err("infiltration field cannot be None"@),
            Some(n) => Ok(InfiltrationConfiguration::Horton { initial_rate, minimum_rate, decay_coefficient, drying_time_days: n, maximum_infiltration }),
        },
        (InfiltrationConfiguration::ModifiedHorton { initial_rate, minimum_rate, decay_coefficient, drying_time_days: _, maximum_infiltration }, InfiltrationField::DryingTimeDays) => match value {
            None => Err("infiltration field cannot be None"@),
            Some(n) => Ok(InfiltrationConfiguration::ModifiedHorton { initial_rate, minimum_rate, decay_coefficient, drying_time_days: n, maximum_infiltration }),
        },
        (InfiltrationConfiguration::CurveNumber { curve_number, drying_time_days: _ }, InfiltrationField::DryingTimeDays) => match value {
            None => Err("infiltration field cannot be None"@),
            Some(n) => Ok(InfiltrationConfiguration::CurveNumber { curve_number, drying_time_days: n }),
        },
        (InfiltrationConfiguration::Horton { initial_rate, minimum_rate, decay_coefficient, drying_time_days, maximum_infiltration: _ }, InfiltrationField::MaximumInfiltration) => Ok(InfiltrationConfiguration::Horton { initial_rate, minimum_rate, decay_coefficient, drying_time_days, maximum_infiltration: value }),
        (InfiltrationConfiguration::ModifiedHorton { initial_rate, minimum_rate, decay_coefficient, drying_time_days, maximum_infiltration: _ }, InfiltrationField::MaximumInfiltration) => Ok(InfiltrationConfiguration::ModifiedHorton { initial_rate, minimum_rate, decay_coefficient, drying_time_days, maximum_infiltration: value }),
        (InfiltrationConfiguration::GreenAmpt { suction_head: _, hydraulic_conductivity, initial_moisture_deficit }, InfiltrationField::SuctionHead) => match value {
            None => Err("infiltration field cannot be None"@),
            Some(n) => Ok(InfiltrationConfiguration::GreenAmpt { suction_head: n, hydraulic_conductivity, initial_moisture_deficit }),
        },
        (InfiltrationConfiguration::ModifiedGreenAmpt { suction_head: _, hydraulic_conductivity, initial_moisture_deficit }, InfiltrationField::SuctionHead) => match value {
            None => Err("infiltration field cannot be None"@),
            Some(n) => Ok(InfiltrationConfiguration::ModifiedGreenAmpt { suction_head: n, hydraulic_conductivity, initial_moisture_deficit }),
        },
        (InfiltrationConfiguration::GreenAmpt { suction_head, hydraulic_conductivity: _, initial_moisture_deficit }, InfiltrationField::HydraulicConductivity) => match value {
            None => Err("infiltration field cannot be None"@),
            Some(n) => Ok(InfiltrationConfiguration::GreenAmpt { suction_head, hydraulic_conductivity: n, initial_moisture_deficit }),
        },
        (InfiltrationConfiguration::ModifiedGreenAmpt { suction_head, hydraulic_conductivity: _, initial_moisture_deficit }, InfiltrationField::HydraulicConductivity) => match value {
            None => Err("infiltration field cannot be None"@),
            Some(n) => Ok(InfiltrationConfiguration::ModifiedGreenAmpt { suction_head, hydraulic_conductivity: n, initial_moisture_deficit }),
        },
        (InfiltrationConfiguration::GreenAmpt { suction_head, hydraulic_conductivity, initial_moisture_deficit: _ }, InfiltrationField::InitialMoistureDeficit) => match value {
            None => Err("infiltration field cannot be None"@),
            Some(n) => Ok(InfiltrationConfiguration::GreenAmpt { suction_head, hydraulic_conductivity, initial_moisture_deficit: n }),
        },
        (InfiltrationConfiguration::ModifiedGreenAmpt { suction_head, hydraulic_conductivity, initial_moisture_deficit: _ }, InfiltrationField::InitialMoistureDeficit) => match value {
            None => Err("infiltration field cannot be None"@),
            Some(n) => Ok(InfiltrationConfiguration::ModifiedGreenAmpt { suction_head, hydraulic_conductivity, initial_moisture_deficit: n }),
        },
        (InfiltrationConfiguration::CurveNumber { curve_number: _, drying_time_days }, InfiltrationField::CurveNumber) => match value {
            None => Err("infiltration field cannot be None"@),
            Some(n) => Ok(InfiltrationConfiguration::CurveNumber { curve_number: n, drying_time_days }),
        },
        _ => Err("field does not belong to infiltration kind"@),
    }
}

/// Replaces one field of an infiltration configuration.
pub fn replace_infiltration_field(
    current: InfiltrationConfiguration,
    field: InfiltrationField,
    value: Option<Number>,
) -> (result: Result<InfiltrationConfiguration, SwmmError>)
    ensures
        match spec_replace_infiltration_field(current, field, value) {
            Ok(c) => result == Ok::<InfiltrationConfiguration, SwmmError>(c),
            Err(d) => result is Err && swmm_error_is(result->Err_0, ErrorCode::ApiPropertyValue, d),
        },
{
    match (current, field) {
        (InfiltrationConfiguration::Horton { initial_rate: _, minimum_rate, decay_coefficient, drying_time_days, maximum_infiltration }, InfiltrationField::InitialRate) => match value {
            None => Err(SwmmError::with_str(ErrorCode::ApiPropertyValue, "infiltration field cannot be None")),
            Some(n) => Ok(InfiltrationConfiguration::Horton { initial_rate: n, minimum_rate, decay_coefficient, drying_time_days, maximum_infiltration }),
        },
        (InfiltrationConfiguration::ModifiedHorton { initial_rate: _, minimum_rate, decay_coefficient, drying_time_days, maximum_infiltration }, InfiltrationField::InitialRate) => match value {
            None => Err(SwmmError::with_str(ErrorCode::ApiPropertyValue, "infiltration field cannot be None")),
            Some(n) => Ok(InfiltrationConfiguration::ModifiedHorton { initial_rate: n, minimum_rate, decay_coefficient, drying_time_days, maximum_infiltration }),
        },
        (InfiltrationConfiguration::Horton { initial_rate, minimum_rate: _, decay_coefficient, drying_time_days, maximum_infiltration }, InfiltrationField::MinimumRate) => match value {
            None => Err(SwmmError::with_str(ErrorCode::ApiPropertyValue, "infiltration field cannot be None")),
            Some(n) => Ok(InfiltrationConfiguration::Horton { initial_rate, minimum_rate: n, decay_coefficient, drying_time_days, maximum_infiltration }),
        },
        (InfiltrationConfiguration::ModifiedHorton { initial_rate, minimum_rate: _, decay_coefficient, drying_time_days, maximum_infiltration }, InfiltrationField::MinimumRate) => match value {
            None => Err(SwmmError::with_str(ErrorCode::ApiPropertyValue, "infiltration field cannot be None")),
            Some(n) => Ok(InfiltrationConfiguration::ModifiedHorton { initial_rate, minimum_rate: n, decay_coefficient, drying_time_days, maximum_infiltration }),
        },
        (InfiltrationConfiguration::Horton { initial_rate, minimum_rate, decay_coefficient: _, drying_time_days, maximum_infiltration }, InfiltrationField::DecayCoefficient) => match value {
            None => Err(SwmmError::with_str(ErrorCode::ApiPropertyValue, "infiltration field cannot be None")),
            Some(n) => Ok(InfiltrationConfiguration::Horton { initial_rate, minimum_rate, decay_coefficient: n, drying_time_days, maximum_infiltration }),
        },
        (InfiltrationConfiguration::ModifiedHorton { initial_rate, minimum_rate, decay_coefficient: _, drying_time_days, maximum_infiltration }, InfiltrationField::DecayCoefficient) => match value {
            None => Err(SwmmError::with_str(ErrorCode::ApiPropertyValue, "infiltration field cannot be None")),
            Some(n) => Ok(InfiltrationConfiguration::ModifiedHorton { initial_rate, minimum_rate, decay_coefficient: n, drying_time_days, maximum_infiltration }),
        },
        (InfiltrationConfiguration::Horton { initial_rate, minimum_rate, decay_coefficient, drying_time_days: _, maximum_infiltration }, InfiltrationField::DryingTimeDays) => match value {
            None => Err(SwmmError::with_str(ErrorCode::ApiPropertyValue, "infiltration field cannot be None")),
            Some(n) => Ok(InfiltrationConfiguration::Horton { initial_rate, minimum_rate, decay_coefficient, drying_time_days: n, maximum_infiltration }),
        },
        (InfiltrationConfiguration::ModifiedHorton { initial_rate, minimum_rate, decay_coefficient, drying_time_days: _, maximum_infiltration }, InfiltrationField::DryingTimeDays) => match value {
            None => Err(SwmmError::with_str(ErrorCode::ApiPropertyValue, "infiltration field cannot be None")),
            Some(n) => Ok(InfiltrationConfiguration::ModifiedHorton { initial_rate, minimum_rate, decay_coefficient, drying_time_days: n, maximum_infiltration }),
        },
        (InfiltrationConfiguration::CurveNumber { curve_number, drying_time_days: _ }, InfiltrationField::DryingTimeDays) => match value {
            None => Err(SwmmError::with_str(ErrorCode::ApiPropertyValue, "infiltration field cannot be None")),
            Some(n) => Ok(InfiltrationConfiguration::CurveNumber { curve_number, drying_time_days: n }),
        },
        (InfiltrationConfiguration::Horton { initial_rate, minimum_rate, decay_coefficient, drying_time_days, maximum_infiltration: _ }, InfiltrationField::MaximumInfiltration) => Ok(InfiltrationConfiguration::Horton { initial_rate, minimum_rate, decay_coefficient, drying_time_days, maximum_infiltration: value }),
        (InfiltrationConfiguration::ModifiedHorton { initial_rate, minimum_rate, decay_coefficient, drying_time_days, maximum_infiltration: _ }, InfiltrationField::MaximumInfiltration) => Ok(InfiltrationConfiguration::ModifiedHorton { initial_rate, minimum_rate, decay_coefficient, drying_time_days, maximum_infiltration: value }),
        (InfiltrationConfiguration::GreenAmpt { suction_head: _, hydraulic_conductivity, initial_moisture_deficit }, InfiltrationField::SuctionHead) => match value {
            None => Err(SwmmError::with_str(ErrorCode::ApiPropertyValue, "infiltration field cannot be None")),
            Some(n) => Ok(InfiltrationConfiguration::GreenAmpt { suction_head: n, hydraulic_conductivity, initial_moisture_deficit }),
        },
        (InfiltrationConfiguration::ModifiedGreenAmpt { suction_head: _, hydraulic_conductivity, initial_moisture_deficit }, InfiltrationField::SuctionHead) => match value {
            None => Err(SwmmError::with_str(ErrorCode::ApiPropertyValue, "infiltration field cannot be None")),
            Some(n) => Ok(InfiltrationConfiguration::ModifiedGreenAmpt { suction_head: n, hydraulic_conductivity, initial_moisture_deficit }),
        },
        (InfiltrationConfiguration::GreenAmpt { suction_head, hydraulic_conductivity: _, initial_moisture_deficit }, InfiltrationField::HydraulicConductivity) => match value {
            None => Err(SwmmError::with_str(ErrorCode::ApiPropertyValue, "infiltration field cannot be None")),
            Some(n) => Ok(InfiltrationConfiguration::GreenAmpt { suction_head, hydraulic_conductivity: n, initial_moisture_deficit }),
        },
        (InfiltrationConfiguration::ModifiedGreenAmpt { suction_head, hydraulic_conductivity: _, initial_moisture_deficit }, InfiltrationField::HydraulicConductivity) => match value {
            None => Err(SwmmError::with_str(ErrorCode::ApiPropertyValue, "infiltration field cannot be None")),
            Some(n) => Ok(InfiltrationConfiguration::ModifiedGreenAmpt { suction_head, hydraulic_conductivity: n, initial_moisture_deficit }),
        },
        (InfiltrationConfiguration::GreenAmpt { suction_head, hydraulic_conductivity, initial_moisture_deficit: _ }, InfiltrationField::InitialMoistureDeficit) => match value {
            None => Err(SwmmError::with_str(ErrorCode::ApiPropertyValue, "infiltration field cannot be None")),
            Some(n) => Ok(InfiltrationConfiguration::GreenAmpt { suction_head, hydraulic_conductivity, initial_moisture_deficit: n }),
        },
        (InfiltrationConfiguration::ModifiedGreenAmpt { suction_head, hydraulic_conductivity, initial_moisture_deficit: _ }, InfiltrationField::InitialMoistureDeficit) => match value {
            None => Err(SwmmError::with_str(ErrorCode::ApiPropertyValue, "infiltration field cannot be None")),
            Some(n) => Ok(InfiltrationConfiguration::ModifiedGreenAmpt { suction_head, hydraulic_conductivity, initial_moisture_deficit: n }),
        },
        (InfiltrationConfiguration::CurveNumber { curve_number: _, drying_time_days }, InfiltrationField::CurveNumber) => match value {
            None => Err(SwmmError::with_str(ErrorCode::ApiPropertyValue, "infiltration field cannot be None")),
            Some(n) => Ok(InfiltrationConfiguration::CurveNumber { curve_number: n, drying_time_days }),
        },
        _ => Err(SwmmError::with_str(ErrorCode::ApiPropertyValue, "field does not belong to infiltration kind")),
    }
}

/// Why a prepared settings mutation could not be applied.
#[derive(Debug)]
pub enum SettingsMutationFailure {
    /// The slot is absent or changed since its view was captured.
    Stale,
    Solver(SwmmError),
}

/// Maps a settings-mutation failure to the detached failure reported for `operation`.
pub fn settings_failure(operation: &'static str, failure: SettingsMutationFailure) -> (mapped: DetachedFailure)
    ensures
        failure is Stale ==> mapped is Stale,
        failure matches SettingsMutationFailure::Solver(e) ==> mapped == DetachedFailure::Solver(operation, e),
{
    match failure {
        SettingsMutationFailure::Stale => DetachedFailure::Stale,
        SettingsMutationFailure::Solver(e) => DetachedFailure::Solver(operation, e),
    }
}

/// The configuration after every change in order, or the first refusal.
pub open spec fn spec_apply_infiltration(
    current: InfiltrationConfiguration,
    changes: Seq<(InfiltrationField, Option<Number>)>,
    n: int,
) -> Result<InfiltrationConfiguration, Seq<char>>
    decreases n,
{
    if n <= 0 {
        Ok(current)
    } else {
        match spec_apply_infiltration(current, changes, n - 1) {
            Err(d) => Err(d),
            Ok(c) => spec_replace_infiltration_field(c, changes[n - 1].0, changes[n - 1].1),
        }
    }
}

/// Once a change is refused, every longer prefix is refused the same way.
pub proof fn lemma_apply_infiltration_refusal(
    current: InfiltrationConfiguration,
    changes: Seq<(InfiltrationField, Option<Number>)>,
    i: int,
    n: int,
)
    requires
        0 <= i <= n,
        spec_apply_infiltration(current, changes, i) is Err,
    ensures
        spec_apply_infiltration(current, changes, n) == spec_apply_infiltration(current, changes, i),
    decreases n - i,
{
    if n > i {
        lemma_apply_infiltration_refusal(current, changes, i, n - 1);
    }
}

/// The empty subcatchment patch.
fn empty_patch() -> (patch: SubcatchmentPatch)
    ensures
        patch@ == spec_empty_patch(),
{
    SubcatchmentPatch {
        scalars: crate::subcatchments::SubcatchmentScalars {
            tag: None,
            area: None,
            width: None,
            slope: None,
            curb_length: None,
            impervious_fraction: None,
            zero_impervious_fraction: None,
            impervious_roughness: None,
            pervious_roughness: None,
            impervious_depression_storage: None,
            pervious_depression_storage: None,
            included_in_report: None,
        },
        rain_gage_index: None,
        outlet: None,
        infiltration: None,
        groundwater: None,
        snowpack: None,
        loading: None,
        coverage: None,
    }
}

/// `result` is what applying an infiltration slot update to the slot `read` gives: an absent
/// slot, or one whose model is not the captured one, is stale; no change gives the empty patch.
pub open spec fn spec_infiltration_patch(
    slot: Result<Option<InfiltrationConfiguration>, SwmmError>,
    expected_kind: Seq<char>,
    changes: Seq<(InfiltrationField, Option<Number>)>,
    result: Result<SubcatchmentPatch, SettingsMutationFailure>,
) -> bool {
    match slot {
        Err(e) => result is Err && result->Err_0 == SettingsMutationFailure::Solver(e),
        Ok(None) => result is Err && result->Err_0 is Stale,
        Ok(Some(current)) => if spec_infiltration_kind(current)@ != expected_kind {
            result is Err && result->Err_0 is Stale
        } else if changes.len() == 0 {
            result is Ok && result->Ok_0@ == spec_empty_patch()
        } else {
            match spec_apply_infiltration(current, changes, changes.len() as int) {
                Err(d) => result is Err && result->Err_0 is Solver && swmm_error_is(result->Err_0->Solver_0, ErrorCode::ApiPropertyValue, d),
                Ok(c) => result is Ok && result->Ok_0@ == (SubcatchmentPatchView { infiltration: Some(c), ..spec_empty_patch() }),
            }
        },
    }
}

impl InfiltrationUpdate {
    /// Applies the changes to the current slot, which `read` returns, and builds the patch.
    pub fn into_patch<R: FnOnce() -> Result<Option<InfiltrationConfiguration>, SwmmError>>(self, read: R) -> (result:
        Result<SubcatchmentPatch, SettingsMutationFailure>)
        requires
            call_requires(read, ()),
        ensures
            exists|slot: Result<Option<InfiltrationConfiguration>, SwmmError>|
                call_ensures(read, (), slot) && spec_infiltration_patch(slot, self.expected_kind@, self.changes@, result),
    {
        let slot = read();
        let ghost g = slot;
        assert(call_ensures(read, (), g));
        let current = match slot {
            Err(e) => {
                let r: Result<SubcatchmentPatch, SettingsMutationFailure> = Err(SettingsMutationFailure::Solver(e));
                assert(spec_infiltration_patch(g, self.expected_kind@, self.changes@, r));
                return r;
            },
            Ok(None) => {
                let r: Result<SubcatchmentPatch, SettingsMutationFailure> = Err(SettingsMutationFailure::Stale);
                assert(spec_infiltration_patch(g, self.expected_kind@, self.changes@, r));
                return r;
            },
            Ok(Some(c)) => c,
        };
        if !str_eq(infiltration_kind(current), self.expected_kind.as_str()) {
            let r: Result<SubcatchmentPatch, SettingsMutationFailure> = Err(SettingsMutationFailure::Stale);
            assert(spec_infiltration_patch(g, self.expected_kind@, self.changes@, r));
            return r;
        }
        assert(spec_infiltration_kind(current)@ == self.expected_kind@);
        if self.changes.len() == 0 {
            let r: Result<SubcatchmentPatch, SettingsMutationFailure> = Ok(empty_patch());
            assert(spec_infiltration_patch(g, self.expected_kind@, self.changes@, r));
            return r;
        }
        let mut c = current;
        let mut i: usize = 0;
        while i < self.changes.len()
            invariant
                g == Ok::<Option<InfiltrationConfiguration>, SwmmError>(Some(current)),
                call_ensures(read, (), g),
                spec_infiltration_kind(current)@ == self.expected_kind@,
                self.changes@.len() > 0,
                i <= self.changes@.len(),
                spec_apply_infiltration(current, self.changes@, i as int) == Ok::<InfiltrationConfiguration, Seq<char>>(c),
            decreases self.changes@.len() - i,
        {
            let (field, value) = self.changes[i];
            match replace_infiltration_field(c, field, value) {
                Err(e) => {
                    proof {
                        lemma_apply_infiltration_refusal(current, self.changes@, i + 1, self.changes@.len() as int);
                    }
                    let r: Result<SubcatchmentPatch, SettingsMutationFailure> = Err(SettingsMutationFailure::Solver(e));
                    assert(spec_infiltration_patch(g, self.expected_kind@, self.changes@, r));
                    return r;
                },
                Ok(next) => {
                    c = next;
                },
            }
            i = i + 1;
        }
        let mut patch = empty_patch();
        patch.infiltration = Some(c);
        let r: Result<SubcatchmentPatch, SettingsMutationFailure> = Ok(patch);
        assert(spec_infiltration_patch(g, self.expected_kind@, self.changes@, r));
        r
    }
}

/// The groundwater parameter a supplied name selects.
pub open spec fn spec_groundwater_float_field(name: Seq<char>) -> Option<GroundwaterFloatField> {
    if name == "surface_elevation"@ {
        Some(GroundwaterFloatField::SurfaceElevation)
    } else if name == "groundwater_coefficient"@ {
        Some(GroundwaterFloatField::GroundwaterCoefficient)
    } else if name == "groundwater_exponent"@ {
        Some(GroundwaterFloatField::GroundwaterExponent)
    } else if name == "surface_coefficient"@ {
        Some(GroundwaterFloatField::SurfaceCoefficient)
    } else if name == "surface_exponent"@ {
        Some(GroundwaterFloatField::SurfaceExponent)
    } else if name == "interaction_coefficient"@ {
        Some(GroundwaterFloatField::InteractionCoefficient)
    } else if name == "fixed_surface_depth"@ {
        Some(GroundwaterFloatField::FixedSurfaceDepth)
    } else if name == "bottom_elevation"@ {
        Some(GroundwaterFloatField::BottomElevation)
    } else if name == "water_table_elevation"@ {
        Some(GroundwaterFloatField::WaterTableElevation)
    } else if name == "upper_moisture"@ {
        Some(GroundwaterFloatField::UpperMoisture)
    } else {
        None
    }
}

/// Resolves a supplied groundwater parameter name.
fn groundwater_float_field(name: &str) -> (field: Option<GroundwaterFloatField>)
    ensures
        field == spec_groundwater_float_field(name@),
{
    if str_eq(name, "surface_elevation") {
        Some(GroundwaterFloatField::SurfaceElevation)
    } else if str_eq(name, "groundwater_coefficient") {
        Some(GroundwaterFloatField::GroundwaterCoefficient)
    } else if str_eq(name, "groundwater_exponent") {
        Some(GroundwaterFloatField::GroundwaterExponent)
    } else if str_eq(name, "surface_coefficient") {
        Some(GroundwaterFloatField::SurfaceCoefficient)
    } else if str_eq(name, "surface_exponent") {
        Some(GroundwaterFloatField::SurfaceExponent)
    } else if str_eq(name, "interaction_coefficient") {
        Some(GroundwaterFloatField::InteractionCoefficient)
    } else if str_eq(name, "fixed_surface_depth") {
        Some(GroundwaterFloatField::FixedSurfaceDepth)
    } else if str_eq(name, "bottom_elevation") {
        Some(GroundwaterFloatField::BottomElevation)
    } else if str_eq(name, "water_table_elevation") {
        Some(GroundwaterFloatField::WaterTableElevation)
    } else if str_eq(name, "upper_moisture") {
        Some(GroundwaterFloatField::UpperMoisture)
    } else {
        None
    }
}

/// One atomic groundwater slot update: parameter changes in order, and new relationships not
/// validated yet.
#[derive(Debug)]
pub struct GroundwaterUpdate {
    pub floats: Vec<(GroundwaterFloatField, Number)>,
    pub aquifer: Option<RelatedObject>,
    pub node: Option<RelatedObject>,
}

/// The settings a groundwater slot update holds, its parameter changes as a sequence.
pub struct GroundwaterUpdateView {
    pub floats: Seq<(GroundwaterFloatField, Number)>,
    pub aquifer: Option<RelatedObject>,
    pub node: Option<RelatedObject>,
}

impl View for GroundwaterUpdate {
    type V = GroundwaterUpdateView;

    open spec fn view(&self) -> GroundwaterUpdateView {
        GroundwaterUpdateView { floats: self.floats@, aquifer: self.aquifer, node: self.node }
    }
}

/// `u` with one supplied `(key, value)` groundwater setting applied.
pub open spec fn spec_apply_groundwater_change(u: GroundwaterUpdateView, key: Option<String>, value: PyValue) -> Result<
    GroundwaterUpdateView,
    Refusal,
> {
    match key {
        None => Err(Refusal::Detail("groundwater update fields must be strings"@)),
        Some(k) => if k@ == "aquifer"@ {
            match spec_required_related(value, "aquifer"@) {
                Err(r) => Err(r),
                Ok(r) => Ok(GroundwaterUpdateView { aquifer: Some(r), ..u }),
            }
        } else if k@ == "node"@ {
            match spec_required_related(value, "node"@) {
                Err(r) => Err(r),
                Ok(r) => Ok(GroundwaterUpdateView { node: Some(r), ..u }),
            }
        } else {
            match spec_groundwater_float_field(k@) {
                None => Err(Refusal::Detail("unknown groundwater field: "@ + k@)),
                Some(f) => match spec_lenient_number(value, k@) {
                    Err(d) => Err(Refusal::Detail(d)),
                    Ok(n) => Ok(GroundwaterUpdateView { floats: u.floats.push((f, n)), ..u }),
                },
            }
        },
    }
}

/// The update built from the first `n` supplied groundwater settings.
pub open spec fn spec_groundwater_update(changes: Seq<(Option<String>, PyValue)>, n: int) -> Result<GroundwaterUpdateView, Refusal>
    decreases n,
{
    if n <= 0 {
        Ok(GroundwaterUpdateView { floats: Seq::empty(), aquifer: None, node: None })
    } else {
        match spec_groundwater_update(changes, n - 1) {
            Err(r) => Err(r),
            Ok(u) => spec_apply_groundwater_change(u, changes[n - 1].0, changes[n - 1].1),
        }
    }
}

/// Once a groundwater setting is refused, every longer prefix is refused the same way.
pub proof fn lemma_groundwater_update_refusal(changes: Seq<(Option<String>, PyValue)>, i: int, n: int)
    requires
        0 <= i <= n,
        spec_groundwater_update(changes, i) is Err,
    ensures
        spec_groundwater_update(changes, n) == spec_groundwater_update(changes, i),
    decreases n - i,
{
    if n > i {
        lemma_groundwater_update_refusal(changes, i, n - 1);
    }
}

/// `result`, viewed, is the outcome `spec` for a groundwater slot update.
pub open spec fn spec_groundwater_outcome(result: Result<GroundwaterUpdate, NativeError>, spec: Result<GroundwaterUpdateView, Refusal>) -> bool {
    match spec {
        Ok(v) => result is Ok && result->Ok_0@ == v,
        Err(r) => crate::convert::spec_refusal_raised(result, r, "update_subcatchment"),
    }
}

/// Applies one supplied `(key, value)` groundwater setting to `update`.
fn apply_groundwater_change(update: GroundwaterUpdate, key: Option<String>, value: PyValue) -> (result: Result<
    GroundwaterUpdate,
    NativeError,
>)
    ensures
        spec_groundwater_outcome(result, spec_apply_groundwater_change(update@, key, value)),
{
    let name = match key {
        None => {
            return Err(subcatchment_py_error(String::from_str("groundwater update fields must be strings")));
        },
        Some(k) => k,
    };
    let n = name.as_str();
    let mut u = update;
    if str_eq(n, "aquifer") {
        match subcatchment_related_view(value, n) {
            Err(e) => {
                return Err(e);
            },
            Ok(r) => {
                u.aquifer = Some(r);
                return Ok(u);
            },
        }
    }
    if str_eq(n, "node") {
        match subcatchment_related_view(value, n) {
            Err(e) => {
                return Err(e);
            },
            Ok(r) => {
                u.node = Some(r);
                return Ok(u);
            },
        }
    }
    let field = match groundwater_float_field(n) {
        None => {
            return Err(subcatchment_py_error(detail("unknown groundwater field: ", n)));
        },
        Some(f) => f,
    };
    match subcatchment_float(&value, n) {
        Err(e) => Err(e),
        Ok(v) => {
            u.floats.push((field, v));
            Ok(u)
        },
    }
}

/// Extracts one atomic groundwater slot update.
///
/// `changes` are the supplied `(key, value)` pairs in mapping order, a key that is not a `str`
/// given as `None`.
pub fn extract_groundwater_update(changes: Vec<(Option<String>, PyValue)>) -> (result: Result<GroundwaterUpdate, NativeError>)
    ensures
        spec_groundwater_outcome(result, spec_groundwater_update(changes@, changes@.len() as int)),
{
    let count: usize = changes.len();
    let ghost all = changes@;
    let mut remaining = changes;
    let mut update = GroundwaterUpdate { floats: Vec::new(), aquifer: None, node: None };
    let mut taken: usize = 0;
    proof {
        assert(remaining@ =~= all.skip(0));
        assert(update@ == GroundwaterUpdateView { floats: Seq::empty(), aquifer: None, node: None });
    }
    while taken < count
        invariant
            count == all.len(),
            all == changes@,
            taken <= count,
            remaining@ == all.skip(taken as int),
            spec_groundwater_update(all, taken as int) == Ok::<GroundwaterUpdateView, Refusal>(update@),
        decreases count - taken,
    {
        let (key, value) = remaining.remove(0);
        proof {
            assert(remaining@ =~= all.skip(taken + 1));
            assert(all[taken as int] == (key, value));
        }
        let ghost before = update@;
        match apply_groundwater_change(update, key, value) {
            Ok(next) => {
                update = next;
            },
            Err(e) => {
                proof {
                    assert(spec_groundwater_update(all, taken + 1) == spec_apply_groundwater_change(
                        before,
                        all[taken as int].0,
                        all[taken as int].1,
                    ));
                    lemma_groundwater_update_refusal(all, taken + 1, count as int);
                }
                return Err(e);
            },
        }
        taken = taken + 1;
    }
    Ok(update)
}

/// The groundwater parameters with one replaced.
pub open spec fn spec_set_groundwater_float(values: GroundwaterValues, field: GroundwaterFloatField, value: Number) -> GroundwaterValues {
    match field {
        GroundwaterFloatField::SurfaceElevation => GroundwaterValues { surface_elevation: value, ..values },
        GroundwaterFloatField::GroundwaterCoefficient => GroundwaterValues { groundwater_coefficient: value, ..values },
        GroundwaterFloatField::GroundwaterExponent => GroundwaterValues { groundwater_exponent: value, ..values },
        GroundwaterFloatField::SurfaceCoefficient => GroundwaterValues { surface_coefficient: value, ..values },
        GroundwaterFloatField::SurfaceExponent => GroundwaterValues { surface_exponent: value, ..values },
        GroundwaterFloatField::InteractionCoefficient => GroundwaterValues { interaction_coefficient: value, ..values },
        GroundwaterFloatField::FixedSurfaceDepth => GroundwaterValues { fixed_surface_depth: value, ..values },
        GroundwaterFloatField::BottomElevation => GroundwaterValues { bottom_elevation: value, ..values },
        GroundwaterFloatField::WaterTableElevation => GroundwaterValues { water_table_elevation: value, ..values },
        GroundwaterFloatField::UpperMoisture => GroundwaterValues { upper_moisture: value, ..values },
    }
}

/// The configuration with one groundwater parameter replaced; absent groundwater is refused.
pub open spec fn spec_replace_groundwater_float(
    current: GroundwaterConfiguration,
    field: GroundwaterFloatField,
    value: Number,
) -> Result<GroundwaterConfiguration, Seq<char>> {
    match current {
        GroundwaterConfiguration::Removed => Err("groundwater settings are absent"@),
        GroundwaterConfiguration::Present { aquifer_index, node_index, values } => Ok(
            GroundwaterConfiguration::Present {
                aquifer_index,
                node_index,
                values: spec_set_groundwater_float(values, field, value),
            },
        ),
    }
}

/// Replaces one groundwater parameter.
pub fn replace_groundwater_float(
    current: GroundwaterConfiguration,
    field: GroundwaterFloatField,
    value: Number,
) -> (result: Result<GroundwaterConfiguration, SwmmError>)
    ensures
        match spec_replace_groundwater_float(current, field, value) {
            Ok(c) => result == Ok::<GroundwaterConfiguration, SwmmError>(c),
            Err(d) => result is Err && swmm_error_is(result->Err_0, ErrorCode::ApiPropertyValue, d),
        },
{
    match current {
        GroundwaterConfiguration::Removed => Err(
            SwmmError::with_str(ErrorCode::ApiPropertyValue, "groundwater settings are absent"),
        ),
        GroundwaterConfiguration::Present { aquifer_index, node_index, values } => {
            let mut v = values;
            match field {
                GroundwaterFloatField::SurfaceElevation => {
                    v.surface_elevation = value;
                },
                GroundwaterFloatField::GroundwaterCoefficient => {
                    v.groundwater_coefficient = value;
                },
                GroundwaterFloatField::GroundwaterExponent => {
                    v.groundwater_exponent = value;
                },
                GroundwaterFloatField::SurfaceCoefficient => {
                    v.surface_coefficient = value;
                },
                GroundwaterFloatField::SurfaceExponent => {
                    v.surface_exponent = value;
                },
                GroundwaterFloatField::InteractionCoefficient => {
                    v.interaction_coefficient = value;
                },
                GroundwaterFloatField::FixedSurfaceDepth => {
                    v.fixed_surface_depth = value;
                },
                GroundwaterFloatField::BottomElevation => {
                    v.bottom_elevation = value;
                },
                GroundwaterFloatField::WaterTableElevation => {
                    v.water_table_elevation = value;
                },
                GroundwaterFloatField::UpperMoisture => {
                    v.upper_moisture = value;
                },
            }
            Ok(GroundwaterConfiguration::Present { aquifer_index, node_index, values: v })
        },
    }
}

/// The configuration after every parameter change in order, or the first refusal.
pub open spec fn spec_apply_groundwater(
    current: GroundwaterConfiguration,
    floats: Seq<(GroundwaterFloatField, Number)>,
    n: int,
) -> Result<GroundwaterConfiguration, Seq<char>>
    decreases n,
{
    if n <= 0 {
        Ok(current)
    } else {
        match spec_apply_groundwater(current, floats, n - 1) {
            Err(d) => Err(d),
            Ok(c) => spec_replace_groundwater_float(c, floats[n - 1].0, floats[n - 1].1),
        }
    }
}

/// Once a change is refused, every longer prefix is refused the same way.
pub proof fn lemma_apply_groundwater_refusal(
    current: GroundwaterConfiguration,
    floats: Seq<(GroundwaterFloatField, Number)>,
    i: int,
    n: int,
)
    requires
        0 <= i <= n,
        spec_apply_groundwater(current, floats, i) is Err,
    ensures
        spec_apply_groundwater(current, floats, n) == spec_apply_groundwater(current, floats, i),
    decreases n - i,
{
    if n > i {
        lemma_apply_groundwater_refusal(current, floats, i, n - 1);
    }
}

/// `result` is what a groundwater slot update builds from the slot `slot` once its new
/// relationships resolve to `aquifer` and then `node`: absent groundwater is stale; no change
/// gives the empty patch.
pub open spec fn spec_groundwater_patch<F: Fn(&RelatedObject, ObjectType, &'static str) -> Result<usize, SwmmError>>(
    validate: F,
    slot: Result<GroundwaterConfiguration, SwmmError>,
    u: GroundwaterUpdateView,
    aquifer: Result<Option<usize>, SwmmError>,
    node: Result<Option<usize>, SwmmError>,
    result: Result<SubcatchmentPatch, SettingsMutationFailure>,
) -> bool {
    match slot {
        Err(e) => result is Err && result->Err_0 == SettingsMutationFailure::Solver(e),
        Ok(GroundwaterConfiguration::Removed) => result is Err && result->Err_0 is Stale,
        Ok(current) => if u.floats.len() == 0 && u.aquifer is None && u.node is None {
            result is Ok && result->Ok_0@ == spec_empty_patch()
        } else {
            match spec_apply_groundwater(current, u.floats, u.floats.len() as int) {
                Err(d) => result is Err && result->Err_0 is Solver && swmm_error_is(
                    result->Err_0->Solver_0,
                    ErrorCode::ApiPropertyValue,
                    d,
                ),
                Ok(GroundwaterConfiguration::Removed) => result is Err && result->Err_0 is Stale,
                Ok(GroundwaterConfiguration::Present { aquifer_index, node_index, values }) => spec_resolved(
                    validate,
                    u.aquifer,
                    ObjectType::Aquifer,
                    "aquifer",
                    aquifer,
                ) && match aquifer {
                    Err(e) => result is Err && result->Err_0 == SettingsMutationFailure::Solver(e),
                    Ok(a) => spec_resolved(validate, u.node, ObjectType::Node, "node", node) && match node {
                        Err(e) => result is Err && result->Err_0 == SettingsMutationFailure::Solver(e),
                        Ok(n) => result is Ok && result->Ok_0@ == (SubcatchmentPatchView {
                            groundwater: Some(
                                GroundwaterConfiguration::Present {
                                    aquifer_index: match a {
                                        Some(i) => i,
                                        None => aquifer_index,
                                    },
                                    node_index: match n {
                                        Some(i) => i,
                                        None => node_index,
                                    },
                                    values,
                                },
                            ),
                            ..spec_empty_patch()
                        }),
                    },
                },
            }
        },
    }
}

impl GroundwaterUpdate {
    /// Applies the changes to the current slot, which `read` returns, then validates the new
    /// aquifer and node, and builds the patch.
    pub fn into_patch<
        R: FnOnce() -> Result<GroundwaterConfiguration, SwmmError>,
        F: Fn(&RelatedObject, ObjectType, &'static str) -> Result<usize, SwmmError>,
    >(self, read: R, validate: &F) -> (result: Result<SubcatchmentPatch, SettingsMutationFailure>)
        requires
            call_requires(read, ()),
            forall|r: &RelatedObject, t: ObjectType, n: &'static str| call_requires(*validate, (r, t, n)),
        ensures
            exists|
                slot: Result<GroundwaterConfiguration, SwmmError>,
                aquifer: Result<Option<usize>, SwmmError>,
                node: Result<Option<usize>, SwmmError>,
            |
                {
                    &&& call_ensures(read, (), slot)
                    &&& spec_groundwater_patch(*validate, slot, self@, aquifer, node, result)
                },
    {
        let ghost u = self@;
        let GroundwaterUpdate { floats, aquifer, node } = self;
        let slot = read();
        let ghost g = slot;
        assert(call_ensures(read, (), g));
        let ghost unresolved: Result<Option<usize>, SwmmError> = Ok(None);
        let current = match slot {
            Err(e) => {
                let r: Result<SubcatchmentPatch, SettingsMutationFailure> = Err(SettingsMutationFailure::Solver(e));
                assert(spec_groundwater_patch(*validate, g, u, unresolved, unresolved, r));
                return r;
            },
            Ok(GroundwaterConfiguration::Removed) => {
                let r: Result<SubcatchmentPatch, SettingsMutationFailure> = Err(SettingsMutationFailure::Stale);
                assert(spec_groundwater_patch(*validate, g, u, unresolved, unresolved, r));
                return r;
            },
            Ok(c) => c,
        };
        if floats.len() == 0 && aquifer.is_none() && node.is_none() {
            let r: Result<SubcatchmentPatch, SettingsMutationFailure> = Ok(empty_patch());
            assert(spec_groundwater_patch(*validate, g, u, unresolved, unresolved, r));
            return r;
        }
        let mut c = current;
        let mut i: usize = 0;
        while i < floats.len()
            invariant
                call_ensures(read, (), g),
                g == Ok::<GroundwaterConfiguration, SwmmError>(current),
                !(current is Removed),
                u == (GroundwaterUpdateView { floats: floats@, aquifer, node }),
                !(floats@.len() == 0 && aquifer is None && node is None),
                i <= floats@.len(),
                spec_apply_groundwater(current, floats@, i as int) == Ok::<GroundwaterConfiguration, Seq<char>>(c),
            decreases floats@.len() - i,
        {
            let (field, value) = floats[i];
            match replace_groundwater_float(c, field, value) {
                Err(e) => {
                    proof {
                        lemma_apply_groundwater_refusal(current, floats@, i + 1, floats@.len() as int);
                    }
                    let r: Result<SubcatchmentPatch, SettingsMutationFailure> = Err(SettingsMutationFailure::Solver(e));
                    assert(spec_groundwater_patch(*validate, g, u, unresolved, unresolved, r));
                    return r;
                },
                Ok(next) => {
                    c = next;
                },
            }
            i = i + 1;
        }
        let (aquifer_index, node_index, values) = match c {
            GroundwaterConfiguration::Removed => {
                let r: Result<SubcatchmentPatch, SettingsMutationFailure> = Err(SettingsMutationFailure::Stale);
                assert(spec_groundwater_patch(*validate, g, u, unresolved, unresolved, r));
                return r;
            },
            GroundwaterConfiguration::Present { aquifer_index, node_index, values } => (aquifer_index, node_index, values),
        };
        let a = crate::convert::resolve(validate, aquifer, ObjectType::Aquifer, "aquifer");
        let ghost ga = a;
        let aquifer_index = match a {
            Err(e) => {
                let r: Result<SubcatchmentPatch, SettingsMutationFailure> = Err(SettingsMutationFailure::Solver(e));
                assert(spec_groundwater_patch(*validate, g, u, ga, unresolved, r));
                return r;
            },
            Ok(Some(i)) => i,
            Ok(None) => aquifer_index,
        };
        let n = crate::convert::resolve(validate, node, ObjectType::Node, "node");
        let ghost gn = n;
        let node_index = match n {
            Err(e) => {
                let r: Result<SubcatchmentPatch, SettingsMutationFailure> = Err(SettingsMutationFailure::Solver(e));
                assert(spec_groundwater_patch(*validate, g, u, ga, gn, r));
                return r;
            },
            Ok(Some(i)) => i,
            Ok(None) => node_index,
        };
        let mut patch = empty_patch();
        patch.groundwater = Some(GroundwaterConfiguration::Present { aquifer_index, node_index, values });
        let r: Result<SubcatchmentPatch, SettingsMutationFailure> = Ok(patch);
        assert(spec_groundwater_patch(*validate, g, u, ga, gn, r));
        r
    }
}

/// A selected infiltration value.
#[derive(Clone, Copy, Debug)]
pub enum InfiltrationValue {
    /// No infiltration model is configured.
    Absent,
    /// The configured model's private name.
    Kind(&'static str),
    Number(Number),
    OptionalNumber(Option<Number>),
}

/// The value of the field `field` of an infiltration configuration, if its model has one.
pub open spec fn spec_infiltration_field_value(value: InfiltrationConfiguration, field: Seq<char>) -> Option<InfiltrationValue> {
    if field == "kind"@ {
        Some(InfiltrationValue::Kind(spec_infiltration_kind(value)))
    } else {
        match value {
            InfiltrationConfiguration::Horton { initial_rate, minimum_rate, decay_coefficient, drying_time_days, maximum_infiltration } => if field == "initial_rate"@ {
                Some(InfiltrationValue::Number(initial_rate))
            } else if field == "minimum_rate"@ {
                Some(InfiltrationValue::Number(minimum_rate))
            } else if field == "decay_coefficient"@ {
                Some(InfiltrationValue::Number(decay_coefficient))
            } else if field == "drying_time_days"@ {
                Some(InfiltrationValue::Number(drying_time_days))
            } else if field == "maximum_infiltration"@ {
                Some(InfiltrationValue::OptionalNumber(maximum_infiltration))
            } else {
                None
            },
            InfiltrationConfiguration::ModifiedHorton { initial_rate, minimum_rate, decay_coefficient, drying_time_days, maximum_infiltration } => if field == "initial_rate"@ {
                Some(InfiltrationValue::Number(initial_rate))
            } else if field == "minimum_rate"@ {
                Some(InfiltrationValue::Number(minimum_rate))
            } else if field == "decay_coefficient"@ {
                Some(InfiltrationValue::Number(decay_coefficient))
            } else if field == "drying_time_days"@ {
                Some(InfiltrationValue::Number(drying_time_days))
            } else if field == "maximum_infiltration"@ {
                Some(InfiltrationValue::OptionalNumber(maximum_infiltration))
            } else {
                None
            },
            InfiltrationConfiguration::GreenAmpt { suction_head, hydraulic_conductivity, initial_moisture_deficit } => if field == "suction_head"@ {
                Some(InfiltrationValue::Number(suction_head))
            } else if field == "hydraulic_conductivity"@ {
                Some(InfiltrationValue::Number(hydraulic_conductivity))
            } else if field == "initial_moisture_deficit"@ {
                Some(InfiltrationValue::Number(initial_moisture_deficit))
            } else {
                None
            },
            InfiltrationConfiguration::ModifiedGreenAmpt { suction_head, hydraulic_conductivity, initial_moisture_deficit } => if field == "suction_head"@ {
                Some(InfiltrationValue::Number(suction_head))
            } else if field == "hydraulic_conductivity"@ {
                Some(InfiltrationValue::Number(hydraulic_conductivity))
            } else if field == "initial_moisture_deficit"@ {
                Some(InfiltrationValue::Number(initial_moisture_deficit))
            } else {
                None
            },
            InfiltrationConfiguration::CurveNumber { curve_number, drying_time_days } => if field == "curve_number"@ {
                Some(InfiltrationValue::Number(curve_number))
            } else if field == "drying_time_days"@ {
                Some(InfiltrationValue::Number(drying_time_days))
            } else {
                None
            },
        }
    }
}

/// Selects the field `field` of an infiltration configuration.
fn infiltration_field_value(value: InfiltrationConfiguration, field: &str) -> (selected: Option<InfiltrationValue>)
    ensures
        selected == spec_infiltration_field_value(value, field@),
{
    if str_eq(field, "kind") {
        return Some(InfiltrationValue::Kind(infiltration_kind(value)));
    }
    match value {
        InfiltrationConfiguration::Horton { initial_rate, minimum_rate, decay_coefficient, drying_time_days, maximum_infiltration } => if str_eq(field, "initial_rate") {
            Some(InfiltrationValue::Number(initial_rate))
        } else if str_eq(field, "minimum_rate") {
            Some(InfiltrationValue::Number(minimum_rate))
        } else if str_eq(field, "decay_coefficient") {
            Some(InfiltrationValue::Number(decay_coefficient))
        } else if str_eq(field, "drying_time_days") {
            Some(InfiltrationValue::Number(drying_time_days))
        } else if str_eq(field, "maximum_infiltration") {
            Some(InfiltrationValue::OptionalNumber(maximum_infiltration))
        } else {
            None
        },
        InfiltrationConfiguration::ModifiedHorton { initial_rate, minimum_rate, decay_coefficient, drying_time_days, maximum_infiltration } => if str_eq(field, "initial_rate") {
            Some(InfiltrationValue::Number(initial_rate))
        } else if str_eq(field, "minimum_rate") {
            Some(InfiltrationValue::Number(minimum_rate))
        } else if str_eq(field, "decay_coefficient") {
            Some(InfiltrationValue::Number(decay_coefficient))
        } else if str_eq(field, "drying_time_days") {
            Some(InfiltrationValue::Number(drying_time_days))
        } else if str_eq(field, "maximum_infiltration") {
            Some(InfiltrationValue::OptionalNumber(maximum_infiltration))
        } else {
            None
        },
        InfiltrationConfiguration::GreenAmpt { suction_head, hydraulic_conductivity, initial_moisture_deficit } => if str_eq(field, "suction_head") {
            Some(InfiltrationValue::Number(suction_head))
        } else if str_eq(field, "hydraulic_conductivity") {
            Some(InfiltrationValue::Number(hydraulic_conductivity))
        } else if str_eq(field, "initial_moisture_deficit") {
            Some(InfiltrationValue::Number(initial_moisture_deficit))
        } else {
            None
        },
        InfiltrationConfiguration::ModifiedGreenAmpt { suction_head, hydraulic_conductivity, initial_moisture_deficit } => if str_eq(field, "suction_head") {
            Some(InfiltrationValue::Number(suction_head))
        } else if str_eq(field, "hydraulic_conductivity") {
            Some(InfiltrationValue::Number(hydraulic_conductivity))
        } else if str_eq(field, "initial_moisture_deficit") {
            Some(InfiltrationValue::Number(initial_moisture_deficit))
        } else {
            None
        },
        InfiltrationConfiguration::CurveNumber { curve_number, drying_time_days } => if str_eq(field, "curve_number") {
            Some(InfiltrationValue::Number(curve_number))
        } else if str_eq(field, "drying_time_days") {
            Some(InfiltrationValue::Number(drying_time_days))
        } else {
            None
        },
    }
}

/// `result` is the selected infiltration value of a slot: without a configured model only the
/// kind of an unconstrained view reads (as absent); a slot whose model is not the captured one
/// is stale; a field of another model is refused.
pub open spec fn spec_infiltration_value_of(
    slot: Option<InfiltrationConfiguration>,
    expected_kind: Option<Seq<char>>,
    field: Seq<char>,
    result: Result<InfiltrationValue, NativeError>,
) -> bool {
    match slot {
        None => if expected_kind is None && field == "kind"@ {
            result matches Ok(InfiltrationValue::Absent)
        } else {
            result == Err::<InfiltrationValue, NativeError>(NativeError::Stale { operation: "subcatchment_infiltration_value" })
        },
        Some(v) => if expected_kind is Some && expected_kind->0 != spec_infiltration_kind(v)@ {
            result == Err::<InfiltrationValue, NativeError>(NativeError::Stale { operation: "subcatchment_infiltration_value" })
        } else {
            match spec_infiltration_field_value(v, field) {
                Some(x) => result == Ok::<InfiltrationValue, NativeError>(x),
                None => result is Err && crate::error::is_property_error(
                    result->Err_0,
                    "subcatchment_infiltration_value",
                    ErrorCode::ApiPropertyValue,
                    field + " does not apply to the current infiltration kind"@,
                ),
            }
        },
    }
}

/// Selects one infiltration value of a slot read through a view that may have captured its model.
pub fn infiltration_value(
    slot: Option<InfiltrationConfiguration>,
    expected_kind: Option<&str>,
    field: &str,
) -> (result: Result<InfiltrationValue, NativeError>)
    ensures
        spec_infiltration_value_of(
            slot,
            match expected_kind {
                Some(k) => Some(k@),
                None => None,
            },
            field@,
            result,
        ),
{
    let v = match slot {
        None => {
            if expected_kind.is_none() && str_eq(field, "kind") {
                return Ok(InfiltrationValue::Absent);
            }
            return Err(NativeError::Stale { operation: "subcatchment_infiltration_value" });
        },
        Some(v) => v,
    };
    if let Some(k) = expected_kind {
        if !str_eq(k, infiltration_kind(v)) {
            return Err(NativeError::Stale { operation: "subcatchment_infiltration_value" });
        }
    }
    match infiltration_field_value(v, field) {
        Some(x) => Ok(x),
        None => Err(crate::error::native_error(
            "subcatchment_infiltration_value",
            SwmmError::with_detail(ErrorCode::ApiPropertyValue, detail(field, " does not apply to the current infiltration kind")),
        )),
    }
}

/// A selected groundwater value.
#[derive(Clone, Copy, Debug, PartialEq, Eq, Structural)]
pub enum GroundwaterValue {
    Flag(bool),
    Number(Number),
}

/// The groundwater parameter named `field`, if any.
pub open spec fn spec_groundwater_number(values: GroundwaterValues, field: Seq<char>) -> Option<Number> {
    if field == "surface_elevation"@ {
        Some(values.surface_elevation)
    } else if field == "groundwater_coefficient"@ {
        Some(values.groundwater_coefficient)
    } else if field == "groundwater_exponent"@ {
        Some(values.groundwater_exponent)
    } else if field == "surface_coefficient"@ {
        Some(values.surface_coefficient)
    } else if field == "surface_exponent"@ {
        Some(values.surface_exponent)
    } else if field == "interaction_coefficient"@ {
        Some(values.interaction_coefficient)
    } else if field == "fixed_surface_depth"@ {
        Some(values.fixed_surface_depth)
    } else if field == "bottom_elevation"@ {
        Some(values.bottom_elevation)
    } else if field == "water_table_elevation"@ {
        Some(values.water_table_elevation)
    } else if field == "upper_moisture"@ {
        Some(values.upper_moisture)
    } else {
        None
    }
}

/// Returns the groundwater parameter named `field`, if any.
fn groundwater_number(values: GroundwaterValues, field: &str) -> (n: Option<Number>)
    ensures
        n == spec_groundwater_number(values, field@),
{
    if str_eq(field, "surface_elevation") {
        Some(values.surface_elevation)
    } else if str_eq(field, "groundwater_coefficient") {
        Some(values.groundwater_coefficient)
    } else if str_eq(field, "groundwater_exponent") {
        Some(values.groundwater_exponent)
    } else if str_eq(field, "surface_coefficient") {
        Some(values.surface_coefficient)
    } else if str_eq(field, "surface_exponent") {
        Some(values.surface_exponent)
    } else if str_eq(field, "interaction_coefficient") {
        Some(values.interaction_coefficient)
    } else if str_eq(field, "fixed_surface_depth") {
        Some(values.fixed_surface_depth)
    } else if str_eq(field, "bottom_elevation") {
        Some(values.bottom_elevation)
    } else if str_eq(field, "water_table_elevation") {
        Some(values.water_table_elevation)
    } else if str_eq(field, "upper_moisture") {
        Some(values.upper_moisture)
    } else {
        None
    }
}

/// `result` is the selected groundwater value: presence reads either way; every other field of
/// absent groundwater is stale; relationships must be marshalled as Live Views.
pub open spec fn spec_groundwater_value_of(
    value: GroundwaterConfiguration,
    field: Seq<char>,
    result: Result<GroundwaterValue, NativeError>,
) -> bool {
    match value {
        GroundwaterConfiguration::Removed => if field == "present"@ {
            result == Ok::<GroundwaterValue, NativeError>(GroundwaterValue::Flag(false))
        } else {
            result == Err::<GroundwaterValue, NativeError>(NativeError::Stale { operation: "subcatchment_groundwater_value" })
        },
        GroundwaterConfiguration::Present { values, .. } => if field == "present"@ {
            result == Ok::<GroundwaterValue, NativeError>(GroundwaterValue::Flag(true))
        } else if field == "aquifer"@ || field == "node"@ {
            result is Err && is_internal_error(
                result->Err_0,
                "subcatchment_groundwater_value",
                "relationship escaped native relationship marshalling"@,
            )
        } else {
            match spec_groundwater_number(values, field) {
                Some(n) => result == Ok::<GroundwaterValue, NativeError>(GroundwaterValue::Number(n)),
                None => result is Err && is_internal_error(
                    result->Err_0,
                    "subcatchment_groundwater_value",
                    "invalid private groundwater field"@,
                ),
            }
        },
    }
}

/// Selects one groundwater value.
pub fn groundwater_value(value: GroundwaterConfiguration, field: &str) -> (result: Result<GroundwaterValue, NativeError>)
    ensures
        spec_groundwater_value_of(value, field@, result),
{
    match value {
        GroundwaterConfiguration::Removed => {
            if str_eq(field, "present") {
                Ok(GroundwaterValue::Flag(false))
            } else {
                Err(NativeError::Stale { operation: "subcatchment_groundwater_value" })
            }
        },
        GroundwaterConfiguration::Present { values, .. } => {
            if str_eq(field, "present") {
                Ok(GroundwaterValue::Flag(true))
            } else if str_eq(field, "aquifer") || str_eq(field, "node") {
                Err(internal_error("subcatchment_groundwater_value", "relationship escaped native relationship marshalling"))
            } else {
                match groundwater_number(values, field) {
                    Some(n) => Ok(GroundwaterValue::Number(n)),
                    None => Err(internal_error("subcatchment_groundwater_value", "invalid private groundwater field")),
                }
            }
        },
    }
}

/// `result` is the related object of configured groundwater that `field` names: its aquifer
/// for `"aquifer"`, else its node, looked up by `lookup`.
pub open spec fn spec_groundwater_relationship<I, L: FnOnce(ObjectType, usize) -> Result<Option<I>, SwmmError>>(
    value: GroundwaterConfiguration,
    field: Seq<char>,
    lookup: L,
    result: Result<(ObjectType, I), SwmmError>,
) -> bool {
    match value {
        GroundwaterConfiguration::Removed => result is Err && swmm_error_is(
            result->Err_0,
            ErrorCode::ApiPropertyValue,
            "groundwater configuration is absent"@,
        ),
        GroundwaterConfiguration::Present { aquifer_index, node_index, .. } => {
            let (t, i) = if field == "aquifer"@ {
                (ObjectType::Aquifer, aquifer_index)
            } else {
                (ObjectType::Node, node_index)
            };
            exists|o: Result<Option<I>, SwmmError>|
                {
                    &&& call_ensures(lookup, (t, i), o)
                    &&& o matches Err(e) ==> result == Err::<(ObjectType, I), SwmmError>(e)
                    &&& o == Ok::<Option<I>, SwmmError>(None) ==> result is Err && swmm_error_is(
                        result->Err_0,
                        ErrorCode::System,
                        "groundwater relationship identity is unavailable"@,
                    )
                    &&& o matches Ok(Some(x)) ==> result == Ok::<(ObjectType, I), SwmmError>((t, x))
                }
        },
    }
}

/// Looks up the related object of configured groundwater that `field` names.
pub fn groundwater_relationship<I, L: FnOnce(ObjectType, usize) -> Result<Option<I>, SwmmError>>(
    value: GroundwaterConfiguration,
    field: &str,
    lookup: L,
) -> (result: Result<(ObjectType, I), SwmmError>)
    requires
        forall|t: ObjectType, i: usize| call_requires(lookup, (t, i)),
    ensures
        spec_groundwater_relationship(value, field@, lookup, result),
{
    match value {
        GroundwaterConfiguration::Removed => Err(
            SwmmError::with_str(ErrorCode::ApiPropertyValue, "groundwater configuration is absent"),
        ),
        GroundwaterConfiguration::Present { aquifer_index, node_index, .. } => {
            let (t, i) = if str_eq(field, "aquifer") {
                (ObjectType::Aquifer, aquifer_index)
            } else {
                (ObjectType::Node, node_index)
            };
            let o = lookup(t, i);
            let ghost g = o;
            assert(call_ensures(lookup, (t, i), g));
            match o {
                Err(e) => Err(e),
                Ok(None) => Err(SwmmError::with_str(ErrorCode::System, "groundwater relationship identity is unavailable")),
                Ok(Some(x)) => Ok((t, x)),
            }
        },
    }
}

/// A groundwater read: a related object by family and identity, or a value.
#[derive(Debug)]
pub enum GroundwaterRead<I> {
    Related(ObjectType, I),
    Value(GroundwaterValue),
}

impl NativeSimulation {
    /// Atomically updates the infiltration slot of one subcatchment from raw Python values; the
    /// slot view captured `expected_kind`.
    ///
    /// `apply` applies the update to the current slot (`InfiltrationUpdate::into_patch`) and
    /// patches the subcatchment.
    pub fn update_subcatchment_infiltration<
        S,
        M: FnOnce() -> Result<bool, SwmmError>,
        A: FnOnce(InfiltrationUpdate) -> ReportedView<()>,
    >(
        &mut self,
        generation: u64,
        subtype: Option<S>,
        expected_kind: &str,
        changes: Vec<(Option<String>, PyValue)>,
        matches: M,
        apply: A,
    ) -> (result: Result<(), NativeError>)
        requires
            call_requires(matches, ()),
            forall|x: InfiltrationUpdate| call_requires(apply, (x,)),
        ensures
            exists|p: Result<InfiltrationUpdate, NativeError>|
                {
                    &&& match spec_infiltration_changes(changes@, changes@.len() as int) {
                        Ok(v) => p is Ok && p->Ok_0.expected_kind@ == expected_kind@ && p->Ok_0.changes@ == v,
                        Err(d) => p is Err && crate::error::is_property_error(
                            p->Err_0,
                            "update_subcatchment",
                            ErrorCode::ApiPropertyValue,
                            d,
                        ),
                    }
                    &&& spec_field_update_view(
                        *old(self),
                        *final(self),
                        "update_subcatchment_infiltration",
                        generation,
                        subtype,
                        p,
                        matches,
                        apply,
                        result,
                    )
                },
            old(self).wf() ==> final(self).wf(),
    {
        let payload = extract_infiltration_update(expected_kind, changes);
        self.field_update_view("update_subcatchment_infiltration", generation, subtype, payload, matches, apply)
    }

    /// Atomically updates the groundwater slot of one subcatchment from raw Python values.
    ///
    /// `apply` applies the update to the current slot (`GroundwaterUpdate::into_patch`) and
    /// patches the subcatchment.
    pub fn update_subcatchment_groundwater<
        S,
        M: FnOnce() -> Result<bool, SwmmError>,
        A: FnOnce(GroundwaterUpdate) -> ReportedView<()>,
    >(
        &mut self,
        generation: u64,
        subtype: Option<S>,
        changes: Vec<(Option<String>, PyValue)>,
        matches: M,
        apply: A,
    ) -> (result: Result<(), NativeError>)
        requires
            call_requires(matches, ()),
            forall|x: GroundwaterUpdate| call_requires(apply, (x,)),
        ensures
            exists|p: Result<GroundwaterUpdate, NativeError>|
                {
                    &&& spec_groundwater_outcome(p, spec_groundwater_update(changes@, changes@.len() as int))
                    &&& spec_field_update_view(
                        *old(self),
                        *final(self),
                        "update_subcatchment_groundwater",
                        generation,
                        subtype,
                        p,
                        matches,
                        apply,
                        result,
                    )
                },
            old(self).wf() ==> final(self).wf(),
    {
        let payload = extract_groundwater_update(changes);
        self.field_update_view("update_subcatchment_groundwater", generation, subtype, payload, matches, apply)
    }

    /// Reads one infiltration value of a subcatchment: the slot is read, then the value selected
    /// (`infiltration_value`).
    pub fn subcatchment_infiltration_value<
        S,
        M: FnOnce() -> Result<bool, SwmmError>,
        R: FnOnce(()) -> Result<Option<InfiltrationConfiguration>, SwmmError>,
    >(
        &self,
        generation: u64,
        subtype: Option<S>,
        expected_kind: Option<&str>,
        field: &str,
        matches: M,
        read: R,
    ) -> (result: Result<InfiltrationValue, NativeError>)
        requires
            call_requires(matches, ()),
            call_requires(read, ((),)),
        ensures
            exists|slot: Result<Option<InfiltrationConfiguration>, NativeError>|
                {
                    &&& spec_field_view(*self, "subcatchment_infiltration_value", generation, subtype, Ok::<(), NativeError>(()), matches, read, slot)
                    &&& slot matches Err(e) ==> result == Err::<InfiltrationValue, NativeError>(e)
                    &&& slot matches Ok(v) ==> spec_infiltration_value_of(
                        v,
                        match expected_kind {
                            Some(k) => Some(k@),
                            None => None,
                        },
                        field@,
                        result,
                    )
                },
    {
        let slot = self.field_view("subcatchment_infiltration_value", generation, subtype, Ok(()), matches, read);
        match slot {
            Err(e) => Err(e),
            Ok(v) => infiltration_value(v, expected_kind, field),
        }
    }

    /// Reads one groundwater value of a subcatchment: its aquifer or node through
    /// `read_relationship` (`groundwater_relationship`), any other field from the configuration
    /// `read_value` reads (`groundwater_value`).
    pub fn subcatchment_groundwater_value<
        S,
        I,
        M: FnOnce() -> Result<bool, SwmmError>,
        V: FnOnce(()) -> Result<GroundwaterConfiguration, SwmmError>,
        L: FnOnce(()) -> Result<(ObjectType, I), SwmmError>,
    >(
        &self,
        generation: u64,
        subtype: Option<S>,
        field: &str,
        matches: M,
        read_value: V,
        read_relationship: L,
    ) -> (result: Result<GroundwaterRead<I>, NativeError>)
        requires
            call_requires(matches, ()),
            call_requires(read_value, ((),)),
            call_requires(read_relationship, ((),)),
        ensures
            (field@ == "aquifer"@ || field@ == "node"@) ==> exists|r: Result<(ObjectType, I), NativeError>|
                {
                    &&& spec_field_view(*self, "subcatchment_groundwater_value", generation, subtype, Ok::<(), NativeError>(()), matches, read_relationship, r)
                    &&& r matches Err(e) ==> result == Err::<GroundwaterRead<I>, NativeError>(e)
                    &&& r matches Ok(x) ==> result == Ok::<GroundwaterRead<I>, NativeError>(GroundwaterRead::Related(x.0, x.1))
                },
            !(field@ == "aquifer"@ || field@ == "node"@) ==> exists|c: Result<GroundwaterConfiguration, NativeError>|
                {
                    &&& spec_field_view(*self, "subcatchment_groundwater_value", generation, subtype, Ok::<(), NativeError>(()), matches, read_value, c)
                    &&& c matches Err(e) ==> result == Err::<GroundwaterRead<I>, NativeError>(e)
                    &&& c matches Ok(v) ==> exists|g: Result<GroundwaterValue, NativeError>|
                        {
                            &&& spec_groundwater_value_of(v, field@, g)
                            &&& g matches Ok(x) ==> result == Ok::<GroundwaterRead<I>, NativeError>(GroundwaterRead::Value(x))
                            &&& g matches Err(e) ==> result == Err::<GroundwaterRead<I>, NativeError>(e)
                        }
                },
    {
        if str_eq(field, "aquifer") || str_eq(field, "node") {
            match self.field_view("subcatchment_groundwater_value", generation, subtype, Ok(()), matches, read_relationship) {
                Err(e) => Err(e),
                Ok((t, i)) => Ok(GroundwaterRead::Related(t, i)),
            }
        } else {
            match self.field_view("subcatchment_groundwater_value", generation, subtype, Ok(()), matches, read_value) {
                Err(e) => Err(e),
                Ok(v) => {
                    let g = groundwater_value(v, field);
                    match g {
                        Ok(x) => Ok(GroundwaterRead::Value(x)),
                        Err(e) => Err(e),
                    }
                },
            }
        }
    }
}

} // verus!
