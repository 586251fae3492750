use vstd::prelude::*;
use vstd::string::*;

use crate::error::{
    internal_error, is_property_error, native_error, ErrorCode, NativeError, SwmmError,
};
use crate::fields::is_internal_error;
use crate::owner::{
    spec_attached, spec_detached_result, spec_latched, HandleState, NativeSimulation, Reported,
    SimulationLifecycle, TestConcurrencyState,
};
use crate::text::str_eq;
use crate::value::{DateTimeParts, PyValue};
use crate::policy::{
    extract_options_patch, extract_schedule_patch, spec_options_patch,
    spec_schedule_patch, SimulationOptionsPatch, SimulationSchedulePatch,
};

verus! {

/// The solver's lifecycle record as read under the owner lock; its floating-point durations
/// stay with the caller.
#[derive(Clone, Copy, Debug, PartialEq, Eq, Structural)]
pub struct LifecycleRecord {
    pub state: SimulationLifecycle,
    pub is_open: bool,
    pub is_started: bool,
    pub configuration_dirty: bool,
    pub save_results: bool,
    pub total_step_count: i64,
    pub report_period_count: i64,
    pub warning_count: i32,
}

/// Lifecycle and progress state copied from one owner acquisition.
#[derive(Clone, Copy, Debug)]
pub struct Status {
    pub state: &'static str,
    pub is_open: bool,
    pub is_started: bool,
    pub configuration_dirty: bool,
    pub save_results: bool,
    pub current_time: Option<DateTimeParts>,
    pub step_count: i64,
    pub report_period_count: i64,
    pub warning_count: i32,
}

/// True in the states in which the solver has a current model time.
pub open spec fn spec_has_current_time(state: SimulationLifecycle) -> bool {
    state == SimulationLifecycle::Running || state == SimulationLifecycle::Complete || state
        == SimulationLifecycle::Ended
}

/// The status built from a lifecycle record and the current time read for it.
pub open spec fn spec_status(record: LifecycleRecord, current_time: Option<DateTimeParts>) -> Status {
    Status {
        state: crate::lifecycle::spec_lifecycle_name(record.state),
        is_open: record.is_open,
        is_started: record.is_started,
        configuration_dirty: record.configuration_dirty,
        save_results: record.save_results,
        current_time,
        step_count: record.total_step_count,
        report_period_count: record.report_period_count,
        warning_count: record.warning_count,
    }
}

/// A status reports the solver's lifecycle record as it is: its step count is the record's total
/// step count, its report period and warning counts are the record's, its flags are the
/// record's, and its current time is the one read for it.
pub proof fn lemma_status_reports_the_record(record: LifecycleRecord, current_time: Option<DateTimeParts>)
    ensures
        spec_status(record, current_time).step_count == record.total_step_count,
        spec_status(record, current_time).report_period_count == record.report_period_count,
        spec_status(record, current_time).warning_count == record.warning_count,
        spec_status(record, current_time).is_open == record.is_open,
        spec_status(record, current_time).is_started == record.is_started,
        spec_status(record, current_time).configuration_dirty == record.configuration_dirty,
        spec_status(record, current_time).save_results == record.save_results,
        spec_status(record, current_time).current_time == current_time,
{
}

/// A configured simulation date.
#[derive(Clone, Copy, Debug, PartialEq, Eq, Structural)]
pub enum SimulationTimeField {
    Start,
    ReportStart,
    End,
}

/// The configured date named by a private field name, if any.
pub open spec fn spec_simulation_time_field(name: Seq<char>) -> Option<SimulationTimeField> {
    if name == "start_time"@ {
        Some(SimulationTimeField::Start)
    } else if name == "report_start"@ {
        Some(SimulationTimeField::ReportStart)
    } else if name == "end_time"@ {
        Some(SimulationTimeField::End)
    } else {
        None
    }
}

/// Resolves one private configured-time field name.
pub fn simulation_time_field(name: &str) -> (field: Option<SimulationTimeField>)
    ensures
        field == spec_simulation_time_field(name@),
{
    if str_eq(name, "start_time") {
        Some(SimulationTimeField::Start)
    } else if str_eq(name, "report_start") {
        Some(SimulationTimeField::ReportStart)
    } else if str_eq(name, "end_time") {
        Some(SimulationTimeField::End)
    } else {
        None
    }
}

/// A stable unit label.
#[derive(Clone, Copy, Debug, PartialEq, Eq, Structural)]
pub enum UnitLabelField {
    FlowUnits,
    UnitSystem,
}

/// The unit label named by a private field name, if any.
pub open spec fn spec_unit_label_field(name: Seq<char>) -> Option<UnitLabelField> {
    if name == "flow_units"@ {
        Some(UnitLabelField::FlowUnits)
    } else if name == "unit_system"@ {
        Some(UnitLabelField::UnitSystem)
    } else {
        None
    }
}

/// A simulation option selector.
#[derive(Clone, Copy, Debug, PartialEq, Eq, Structural)]
pub enum SimulationOptionField {
    RoutingStep,
    ReportStep,
    DetailedReportingEnabled,
    CustomEllipseModel,
    SurchargeMethod,
    AllowPonding,
    InertiaDamping,
    NormalFlowLimit,
    SkipSteadyState,
    RainfallEnabled,
    RdiiEnabled,
    SnowmeltEnabled,
    GroundwaterEnabled,
    RoutingEnabled,
    QualityEnabled,
    RuleStep,
    SweepStart,
    SweepEnd,
    MaximumTrials,
    RequestedThreads,
    MinimumRoutingStep,
    LengtheningStep,
    AntecedentDryDuration,
    CourantFactor,
    MinimumSurfaceArea,
    MinimumConduitSlope,
    HeadTolerance,
    SystemFlowTolerance,
    LateralFlowTolerance,
}

/// The option named by a private field name, if any.
pub open spec fn spec_simulation_option_field(name: Seq<char>) -> Option<SimulationOptionField> {
    if name == "routing_step"@ {
        Some(SimulationOptionField::RoutingStep)
    } else if name == "report_step"@ {
        Some(SimulationOptionField::ReportStep)
    } else if name == "detailed_reporting_enabled"@ {
        Some(SimulationOptionField::DetailedReportingEnabled)
    } else if name == "custom_ellipse_model"@ {
        Some(SimulationOptionField::CustomEllipseModel)
    } else if name == "surcharge_method"@ {
        Some(SimulationOptionField::SurchargeMethod)
    } else if name == "allow_ponding"@ {
        Some(SimulationOptionField::AllowPonding)
    } else if name == "inertia_damping"@ {
        Some(SimulationOptionField::InertiaDamping)
    } else if name == "normal_flow_limit"@ {
        Some(SimulationOptionField::NormalFlowLimit)
    } else if name == "skip_steady_state"@ {
        Some(SimulationOptionField::SkipSteadyState)
    } else if name == "rainfall_enabled"@ {
        Some(SimulationOptionField::RainfallEnabled)
    } else if name == "rdii_enabled"@ {
        Some(SimulationOptionField::RdiiEnabled)
    } else if name == "snowmelt_enabled"@ {
        Some(SimulationOptionField::SnowmeltEnabled)
    } else if name == "groundwater_enabled"@ {
        Some(SimulationOptionField::GroundwaterEnabled)
    } else if name == "routing_enabled"@ {
        Some(SimulationOptionField::RoutingEnabled)
    } else if name == "quality_enabled"@ {
        Some(SimulationOptionField::QualityEnabled)
    } else if name == "rule_step"@ {
        Some(SimulationOptionField::RuleStep)
    } else if name == "sweep_start"@ {
        Some(SimulationOptionField::SweepStart)
    } else if name == "sweep_end"@ {
        Some(SimulationOptionField::SweepEnd)
    } else if name == "maximum_trials"@ {
        Some(SimulationOptionField::MaximumTrials)
    } else if name == "requested_threads"@ {
        Some(SimulationOptionField::RequestedThreads)
    } else if name == "minimum_routing_step"@ {
        Some(SimulationOptionField::MinimumRoutingStep)
    } else if name == "lengthening_step"@ {
        Some(SimulationOptionField::LengtheningStep)
    } else if name == "antecedent_dry_duration"@ {
        Some(SimulationOptionField::AntecedentDryDuration)
    } else if name == "courant_factor"@ {
        Some(SimulationOptionField::CourantFactor)
    } else if name == "minimum_surface_area"@ {
        Some(SimulationOptionField::MinimumSurfaceArea)
    } else if name == "minimum_conduit_slope"@ {
        Some(SimulationOptionField::MinimumConduitSlope)
    } else if name == "head_tolerance"@ {
        Some(SimulationOptionField::HeadTolerance)
    } else if name == "system_flow_tolerance"@ {
        Some(SimulationOptionField::SystemFlowTolerance)
    } else if name == "lateral_flow_tolerance"@ {
        Some(SimulationOptionField::LateralFlowTolerance)
    } else {
        None
    }
}

/// The key under which an options read gives each option's value: the field's private name.
pub open spec fn spec_option_key(field: SimulationOptionField) -> &'static str {
    match field {
        SimulationOptionField::RoutingStep => "routing_step",
        SimulationOptionField::ReportStep => "report_step",
        SimulationOptionField::DetailedReportingEnabled => "detailed_reporting_enabled",
        SimulationOptionField::CustomEllipseModel => "custom_ellipse_model",
        SimulationOptionField::SurchargeMethod => "surcharge_method",
        SimulationOptionField::AllowPonding => "allow_ponding",
        SimulationOptionField::InertiaDamping => "inertia_damping",
        SimulationOptionField::NormalFlowLimit => "normal_flow_limit",
        SimulationOptionField::SkipSteadyState => "skip_steady_state",
        SimulationOptionField::RainfallEnabled => "rainfall_enabled",
        SimulationOptionField::RdiiEnabled => "rdii_enabled",
        SimulationOptionField::SnowmeltEnabled => "snowmelt_enabled",
        SimulationOptionField::GroundwaterEnabled => "groundwater_enabled",
        SimulationOptionField::RoutingEnabled => "routing_enabled",
        SimulationOptionField::QualityEnabled => "quality_enabled",
        SimulationOptionField::RuleStep => "rule_step",
        SimulationOptionField::SweepStart => "sweep_start",
        SimulationOptionField::SweepEnd => "sweep_end",
        SimulationOptionField::MaximumTrials => "maximum_trials",
        SimulationOptionField::RequestedThreads => "requested_threads",
        SimulationOptionField::MinimumRoutingStep => "minimum_routing_step",
        SimulationOptionField::LengtheningStep => "lengthening_step",
        SimulationOptionField::AntecedentDryDuration => "antecedent_dry_duration",
        SimulationOptionField::CourantFactor => "courant_factor",
        SimulationOptionField::MinimumSurfaceArea => "minimum_surface_area",
        SimulationOptionField::MinimumConduitSlope => "minimum_conduit_slope",
        SimulationOptionField::HeadTolerance => "head_tolerance",
        SimulationOptionField::SystemFlowTolerance => "system_flow_tolerance",
        SimulationOptionField::LateralFlowTolerance => "lateral_flow_tolerance",
    }
}

/// Every key of an options read selects its own option in `option_value`: so for every key of
/// the options `options_read` gives, `option_value` reads that same option
/// (`lemma_option_value_matches_options_read`), and distinct options have distinct keys.
pub proof fn lemma_option_keys_select_their_fields(field: SimulationOptionField)
    ensures
        spec_simulation_option_field(spec_option_key(field)@) == Some(field),
{
    match field {
        SimulationOptionField::RoutingStep => {
            reveal_strlit("routing_step");
        },
        SimulationOptionField::ReportStep => {
            reveal_strlit("report_step");
            reveal_strlit("routing_step");
            assert("report_step"@.len() != "routing_step"@.len());
        },
        SimulationOptionField::DetailedReportingEnabled => {
            reveal_strlit("detailed_reporting_enabled");
            reveal_strlit("routing_step");
            assert("detailed_reporting_enabled"@.len() != "routing_step"@.len());
            reveal_strlit("report_step");
            assert("detailed_reporting_enabled"@.len() != "report_step"@.len());
        },
        SimulationOptionField::CustomEllipseModel => {
            reveal_strlit("custom_ellipse_model");
            reveal_strlit("routing_step");
            assert("custom_ellipse_model"@.len() != "routing_step"@.len());
            reveal_strlit("report_step");
            assert("custom_ellipse_model"@.len() != "report_step"@.len());
            reveal_strlit("detailed_reporting_enabled");
            assert("custom_ellipse_model"@.len() != "detailed_reporting_enabled"@.len());
        },
        SimulationOptionField::SurchargeMethod => {
            reveal_strlit("surcharge_method");
            reveal_strlit("routing_step");
            assert("surcharge_method"@.len() != "routing_step"@.len());
            reveal_strlit("report_step");
            assert("surcharge_method"@.len() != "report_step"@.len());
            reveal_strlit("detailed_reporting_enabled");
            assert("surcharge_method"@.len() != "detailed_reporting_enabled"@.len());
            reveal_strlit("custom_ellipse_model");
            assert("surcharge_method"@.len() != "custom_ellipse_model"@.len());
        },
        SimulationOptionField::AllowPonding => {
            reveal_strlit("allow_ponding");
            reveal_strlit("routing_step");
            assert("allow_ponding"@.len() != "routing_step"@.len());
            reveal_strlit("report_step");
            assert("allow_ponding"@.len() != "report_step"@.len());
            reveal_strlit("detailed_reporting_enabled");
            assert("allow_ponding"@.len() != "detailed_reporting_enabled"@.len());
            reveal_strlit("custom_ellipse_model");
            assert("allow_ponding"@.len() != "custom_ellipse_model"@.len());
            reveal_strlit("surcharge_method");
            assert("allow_ponding"@.len() != "surcharge_method"@.len());
        },
        SimulationOptionField::InertiaDamping => {
            reveal_strlit("inertia_damping");
            reveal_strlit("routing_step");
            assert("inertia_damping"@.len() != "routing_step"@.len());
            reveal_strlit("report_step");
            assert("inertia_damping"@.len() != "report_step"@.len());
            reveal_strlit("detailed_reporting_enabled");
            assert("inertia_damping"@.len() != "detailed_reporting_enabled"@.len());
            reveal_strlit("custom_ellipse_model");
            assert("inertia_damping"@.len() != "custom_ellipse_model"@.len());
            reveal_strlit("surcharge_method");
            assert("inertia_damping"@.len() != "surcharge_method"@.len());
            reveal_strlit("allow_ponding");
            assert("inertia_damping"@.len() != "allow_ponding"@.len());
        },
        SimulationOptionField::NormalFlowLimit => {
            reveal_strlit("normal_flow_limit");
            reveal_strlit("routing_step");
            assert("normal_flow_limit"@.len() != "routing_step"@.len());
            reveal_strlit("report_step");
            assert("normal_flow_limit"@.len() != "report_step"@.len());
            reveal_strlit("detailed_reporting_enabled");
            assert("normal_flow_limit"@.len() != "detailed_reporting_enabled"@.len());
            reveal_strlit("custom_ellipse_model");
            assert("normal_flow_limit"@.len() != "custom_ellipse_model"@.len());
            reveal_strlit("surcharge_method");
            assert("normal_flow_limit"@.len() != "surcharge_method"@.len());
            reveal_strlit("allow_ponding");
            assert("normal_flow_limit"@.len() != "allow_ponding"@.len());
            reveal_strlit("inertia_damping");
            assert("normal_flow_limit"@.len() != "inertia_damping"@.len());
        },
        SimulationOptionField::SkipSteadyState => {
            reveal_strlit("skip_steady_state");
            reveal_strlit("routing_step");
            assert("skip_steady_state"@.len() != "routing_step"@.len());
            reveal_strlit("report_step");
            assert("skip_steady_state"@.len() != "report_step"@.len());
            reveal_strlit("detailed_reporting_enabled");
            assert("skip_steady_state"@.len() != "detailed_reporting_enabled"@.len());
            reveal_strlit("custom_ellipse_model");
            assert("skip_steady_state"@.len() != "custom_ellipse_model"@.len());
            reveal_strlit("surcharge_method");
            assert("skip_steady_state"@.len() != "surcharge_method"@.len());
            reveal_strlit("allow_ponding");
            assert("skip_steady_state"@.len() != "allow_ponding"@.len());
            reveal_strlit("inertia_damping");
            assert("skip_steady_state"@.len() != "inertia_damping"@.len());
            reveal_strlit("normal_flow_limit");
            assert("skip_steady_state"@ != "normal_flow_limit"@) by { assert("skip_steady_state"@[0] != "normal_flow_limit"@[0]); }
        },
        SimulationOptionField::RainfallEnabled => {
            reveal_strlit("rainfall_enabled");
            reveal_strlit("routing_step");
            assert("rainfall_enabled"@.len() != "routing_step"@.len());
            reveal_strlit("report_step");
            assert("rainfall_enabled"@.len() != "report_step"@.len());
            reveal_strlit("detailed_reporting_enabled");
            assert("rainfall_enabled"@.len() != "detailed_reporting_enabled"@.len());
            reveal_strlit("custom_ellipse_model");
            assert("rainfall_enabled"@.len() != "custom_ellipse_model"@.len());
            reveal_strlit("surcharge_method");
            assert("rainfall_enabled"@ != "surcharge_method"@) by { assert("rainfall_enabled"@[0] != "surcharge_method"@[0]); }
            reveal_strlit("allow_ponding");
            assert("rainfall_enabled"@.len() != "allow_ponding"@.len());
            reveal_strlit("inertia_damping");
            assert("rainfall_enabled"@.len() != "inertia_damping"@.len());
            reveal_strlit("normal_flow_limit");
            assert("rainfall_enabled"@.len() != "normal_flow_limit"@.len());
            reveal_strlit("skip_steady_state");
            assert("rainfall_enabled"@.len() != "skip_steady_state"@.len());
        },
        SimulationOptionField::RdiiEnabled => {
            reveal_strlit("rdii_enabled");
            reveal_strlit("routing_step");
            assert("rdii_enabled"@ != "routing_step"@) by { assert("rdii_enabled"@[1] != "routing_step"@[1]); }
            reveal_strlit("report_step");
            assert("rdii_enabled"@.len() != "report_step"@.len());
            reveal_strlit("detailed_reporting_enabled");
            assert("rdii_enabled"@.len() != "detailed_reporting_enabled"@.len());
            reveal_strlit("custom_ellipse_model");
            assert("rdii_enabled"@.len() != "custom_ellipse_model"@.len());
            reveal_strlit("surcharge_method");
            assert("rdii_enabled"@.len() != "surcharge_method"@.len());
            reveal_strlit("allow_ponding");
            assert("rdii_enabled"@.len() != "allow_ponding"@.len());
            reveal_strlit("inertia_damping");
            assert("rdii_enabled"@.len() != "inertia_damping"@.len());
            reveal_strlit("normal_flow_limit");
            assert("rdii_enabled"@.len() != "normal_flow_limit"@.len());
            reveal_strlit("skip_steady_state");
            assert("rdii_enabled"@.len() != "skip_steady_state"@.len());
            reveal_strlit("rainfall_enabled");
            assert("rdii_enabled"@.len() != "rainfall_enabled"@.len());
        },
        SimulationOptionField::SnowmeltEnabled => {
            reveal_strlit("snowmelt_enabled");
            reveal_strlit("routing_step");
            assert("snowmelt_enabled"@.len() != "routing_step"@.len());
            reveal_strlit("report_step");
            assert("snowmelt_enabled"@.len() != "report_step"@.len());
            reveal_strlit("detailed_reporting_enabled");
            assert("snowmelt_enabled"@.len() != "detailed_reporting_enabled"@.len());
            reveal_strlit("custom_ellipse_model");
            assert("snowmelt_enabled"@.len() != "custom_ellipse_model"@.len());
            reveal_strlit("surcharge_method");
            assert("snowmelt_enabled"@ != "surcharge_method"@) by { assert("snowmelt_enabled"@[1] != "surcharge_method"@[1]); }
            reveal_strlit("allow_ponding");
            assert("snowmelt_enabled"@.len() != "allow_ponding"@.len());
            reveal_strlit("inertia_damping");
            assert("snowmelt_enabled"@.len() != "inertia_damping"@.len());
            reveal_strlit("normal_flow_limit");
            assert("snowmelt_enabled"@.len() != "normal_flow_limit"@.len());
            reveal_strlit("skip_steady_state");
            assert("snowmelt_enabled"@.len() != "skip_steady_state"@.len());
            reveal_strlit("rainfall_enabled");
            assert("snowmelt_enabled"@ != "rainfall_enabled"@) by { assert("snowmelt_enabled"@[0] != "rainfall_enabled"@[0]); }
            reveal_strlit("rdii_enabled");
            assert("snowmelt_enabled"@.len() != "rdii_enabled"@.len());
        },
        SimulationOptionField::GroundwaterEnabled => {
            reveal_strlit("groundwater_enabled");
            reveal_strlit("routing_step");
            assert("groundwater_enabled"@.len() != "routing_step"@.len());
            reveal_strlit("report_step");
            assert("groundwater_enabled"@.len() != "report_step"@.len());
            reveal_strlit("detailed_reporting_enabled");
            assert("groundwater_enabled"@.len() != "detailed_reporting_enabled"@.len());
            reveal_strlit("custom_ellipse_model");
            assert("groundwater_enabled"@.len() != "custom_ellipse_model"@.len());
            reveal_strlit("surcharge_method");
            assert("groundwater_enabled"@.len() != "surcharge_method"@.len());
            reveal_strlit("allow_ponding");
            assert("groundwater_enabled"@.len() != "allow_ponding"@.len());
            reveal_strlit("inertia_damping");
            assert("groundwater_enabled"@.len() != "inertia_damping"@.len());
            reveal_strlit("normal_flow_limit");
            assert("groundwater_enabled"@.len() != "normal_flow_limit"@.len());
            reveal_strlit("skip_steady_state");
            assert("groundwater_enabled"@.len() != "skip_steady_state"@.len());
            reveal_strlit("rainfall_enabled");
            assert("groundwater_enabled"@.len() != "rainfall_enabled"@.len());
            reveal_strlit("rdii_enabled");
            assert("groundwater_enabled"@.len() != "rdii_enabled"@.len());
            reveal_strlit("snowmelt_enabled");
            assert("groundwater_enabled"@.len() != "snowmelt_enabled"@.len());
        },
        SimulationOptionField::RoutingEnabled => {
            reveal_strlit("routing_enabled");
            reveal_strlit("routing_step");
            assert("routing_enabled"@.len() != "routing_step"@.len());
            reveal_strlit("report_step");
            assert("routing_enabled"@.len() != "report_step"@.len());
            reveal_strlit("detailed_reporting_enabled");
            assert("routing_enabled"@.len() != "detailed_reporting_enabled"@.len());
            reveal_strlit("custom_ellipse_model");
            assert("routing_enabled"@.len() != "custom_ellipse_model"@.len());
            reveal_strlit("surcharge_method");
            assert("routing_enabled"@.len() != "surcharge_method"@.len());
            reveal_strlit("allow_ponding");
            assert("routing_enabled"@.len() != "allow_ponding"@.len());
            reveal_strlit("inertia_damping");
            assert("routing_enabled"@ != "inertia_damping"@) by { assert("routing_enabled"@[0] != "inertia_damping"@[0]); }
            reveal_strlit("normal_flow_limit");
            assert("routing_enabled"@.len() != "normal_flow_limit"@.len());
            reveal_strlit("skip_steady_state");
            assert("routing_enabled"@.len() != "skip_steady_state"@.len());
            reveal_strlit("rainfall_enabled");
            assert("routing_enabled"@.len() != "rainfall_enabled"@.len());
            reveal_strlit("rdii_enabled");
            assert("routing_enabled"@.len() != "rdii_enabled"@.len());
            reveal_strlit("snowmelt_enabled");
            assert("routing_enabled"@.len() != "snowmelt_enabled"@.len());
            reveal_strlit("groundwater_enabled");
            assert("routing_enabled"@.len() != "groundwater_enabled"@.len());
        },
        SimulationOptionField::QualityEnabled => {
            reveal_strlit("quality_enabled");
            reveal_strlit("routing_step");
            assert("quality_enabled"@.len() != "routing_step"@.len());
            reveal_strlit("report_step");
            assert("quality_enabled"@.len() != "report_step"@.len());
            reveal_strlit("detailed_reporting_enabled");
            assert("quality_enabled"@.len() != "detailed_reporting_enabled"@.len());
            reveal_strlit("custom_ellipse_model");
            assert("quality_enabled"@.len() != "custom_ellipse_model"@.len());
            reveal_strlit("surcharge_method");
            assert("quality_enabled"@.len() != "surcharge_method"@.len());
            reveal_strlit("allow_ponding");
            assert("quality_enabled"@.len() != "allow_ponding"@.len());
            reveal_strlit("inertia_damping");
            assert("quality_enabled"@ != "inertia_damping"@) by { assert("quality_enabled"@[0] != "inertia_damping"@[0]); }
            reveal_strlit("normal_flow_limit");
            assert("quality_enabled"@.len() != "normal_flow_limit"@.len());
            reveal_strlit("skip_steady_state");
            assert("quality_enabled"@.len() != "skip_steady_state"@.len());
            reveal_strlit("rainfall_enabled");
            assert("quality_enabled"@.len() != "rainfall_enabled"@.len());
            reveal_strlit("rdii_enabled");
            assert("quality_enabled"@.len() != "rdii_enabled"@.len());
            reveal_strlit("snowmelt_enabled");
            assert("quality_enabled"@.len() != "snowmelt_enabled"@.len());
            reveal_strlit("groundwater_enabled");
            assert("quality_enabled"@.len() != "groundwater_enabled"@.len());
            reveal_strlit("routing_enabled");
            assert("quality_enabled"@ != "routing_enabled"@) by { assert("quality_enabled"@[0] != "routing_enabled"@[0]); }
        },
        SimulationOptionField::RuleStep => {
            reveal_strlit("rule_step");
            reveal_strlit("routing_step");
            assert("rule_step"@.len() != "routing_step"@.len());
            reveal_strlit("report_step");
            assert("rule_step"@.len() != "report_step"@.len());
            reveal_strlit("detailed_reporting_enabled");
            assert("rule_step"@.len() != "detailed_reporting_enabled"@.len());
            reveal_strlit("custom_ellipse_model");
            assert("rule_step"@.len() != "custom_ellipse_model"@.len());
            reveal_strlit("surcharge_method");
            assert("rule_step"@.len() != "surcharge_method"@.len());
            reveal_strlit("allow_ponding");
            assert("rule_step"@.len() != "allow_ponding"@.len());
            reveal_strlit("inertia_damping");
            assert("rule_step"@.len() != "inertia_damping"@.len());
            reveal_strlit("normal_flow_limit");
            assert("rule_step"@.len() != "normal_flow_limit"@.len());
            reveal_strlit("skip_steady_state");
            assert("rule_step"@.len() != "skip_steady_state"@.len());
            reveal_strlit("rainfall_enabled");
            assert("rule_step"@.len() != "rainfall_enabled"@.len());
            reveal_strlit("rdii_enabled");
            assert("rule_step"@.len() != "rdii_enabled"@.len());
            reveal_strlit("snowmelt_enabled");
            assert("rule_step"@.len() != "snowmelt_enabled"@.len());
            reveal_strlit("groundwater_enabled");
            assert("rule_step"@.len() != "groundwater_enabled"@.len());
            reveal_strlit("routing_enabled");
            assert("rule_step"@.len() != "routing_enabled"@.len());
            reveal_strlit("quality_enabled");
            assert("rule_step"@.len() != "quality_enabled"@.len());
        },
        SimulationOptionField::SweepStart => {
            reveal_strlit("sweep_start");
            reveal_strlit("routing_step");
            assert("sweep_start"@.len() != "routing_step"@.len());
            reveal_strlit("report_step");
            assert("sweep_start"@ != "report_step"@) by { assert("sweep_start"@[0] != "report_step"@[0]); }
            reveal_strlit("detailed_reporting_enabled");
            assert("sweep_start"@.len() != "detailed_reporting_enabled"@.len());
            reveal_strlit("custom_ellipse_model");
            assert("sweep_start"@.len() != "custom_ellipse_model"@.len());
            reveal_strlit("surcharge_method");
            assert("sweep_start"@.len() != "surcharge_method"@.len());
            reveal_strlit("allow_ponding");
            assert("sweep_start"@.len() != "allow_ponding"@.len());
            reveal_strlit("inertia_damping");
            assert("sweep_start"@.len() != "inertia_damping"@.len());
            reveal_strlit("normal_flow_limit");
            assert("sweep_start"@.len() != "normal_flow_limit"@.len());
            reveal_strlit("skip_steady_state");
            assert("sweep_start"@.len() != "skip_steady_state"@.len());
            reveal_strlit("rainfall_enabled");
            assert("sweep_start"@.len() != "rainfall_enabled"@.len());
            reveal_strlit("rdii_enabled");
            assert("sweep_start"@.len() != "rdii_enabled"@.len());
            reveal_strlit("snowmelt_enabled");
            assert("sweep_start"@.len() != "snowmelt_enabled"@.len());
            reveal_strlit("groundwater_enabled");
            assert("sweep_start"@.len() != "groundwater_enabled"@.len());
            reveal_strlit("routing_enabled");
            assert("sweep_start"@.len() != "routing_enabled"@.len());
            reveal_strlit("quality_enabled");
            assert("sweep_start"@.len() != "quality_enabled"@.len());
            reveal_strlit("rule_step");
            assert("sweep_start"@.len() != "rule_step"@.len());
        },
        SimulationOptionField::SweepEnd => {
            reveal_strlit("sweep_end");
            reveal_strlit("routing_step");
            assert("sweep_end"@.len() != "routing_step"@.len());
            reveal_strlit("report_step");
            assert("sweep_end"@.len() != "report_step"@.len());
            reveal_strlit("detailed_reporting_enabled");
            assert("sweep_end"@.len() != "detailed_reporting_enabled"@.len());
            reveal_strlit("custom_ellipse_model");
            assert("sweep_end"@.len() != "custom_ellipse_model"@.len());
            reveal_strlit("surcharge_method");
            assert("sweep_end"@.len() != "surcharge_method"@.len());
            reveal_strlit("allow_ponding");
            assert("sweep_end"@.len() != "allow_ponding"@.len());
            reveal_strlit("inertia_damping");
            assert("sweep_end"@.len() != "inertia_damping"@.len());
            reveal_strlit("normal_flow_limit");
            assert("sweep_end"@.len() != "normal_flow_limit"@.len());
            reveal_strlit("skip_steady_state");
            assert("sweep_end"@.len() != "skip_steady_state"@.len());
            reveal_strlit("rainfall_enabled");
            assert("sweep_end"@.len() != "rainfall_enabled"@.len());
            reveal_strlit("rdii_enabled");
            assert("sweep_end"@.len() != "rdii_enabled"@.len());
            reveal_strlit("snowmelt_enabled");
            assert("sweep_end"@.len() != "snowmelt_enabled"@.len());
            reveal_strlit("groundwater_enabled");
            assert("sweep_end"@.len() != "groundwater_enabled"@.len());
            reveal_strlit("routing_enabled");
            assert("sweep_end"@.len() != "routing_enabled"@.len());
            reveal_strlit("quality_enabled");
            assert("sweep_end"@.len() != "quality_enabled"@.len());
            reveal_strlit("rule_step");
            assert("sweep_end"@ != "rule_step"@) by { assert("sweep_end"@[0] != "rule_step"@[0]); }
            reveal_strlit("sweep_start");
            assert("sweep_end"@.len() != "sweep_start"@.len());
        },
        SimulationOptionField::MaximumTrials => {
            reveal_strlit("maximum_trials");
            reveal_strlit("routing_step");
            assert("maximum_trials"@.len() != "routing_step"@.len());
            reveal_strlit("report_step");
            assert("maximum_trials"@.len() != "report_step"@.len());
            reveal_strlit("detailed_reporting_enabled");
            assert("maximum_trials"@.len() != "detailed_reporting_enabled"@.len());
            reveal_strlit("custom_ellipse_model");
            assert("maximum_trials"@.len() != "custom_ellipse_model"@.len());
            reveal_strlit("surcharge_method");
            assert("maximum_trials"@.len() != "surcharge_method"@.len());
            reveal_strlit("allow_ponding");
            assert("maximum_trials"@.len() != "allow_ponding"@.len());
            reveal_strlit("inertia_damping");
            assert("maximum_trials"@.len() != "inertia_damping"@.len());
            reveal_strlit("normal_flow_limit");
            assert("maximum_trials"@.len() != "normal_flow_limit"@.len());
            reveal_strlit("skip_steady_state");
            assert("maximum_trials"@.len() != "skip_steady_state"@.len());
            reveal_strlit("rainfall_enabled");
            assert("maximum_trials"@.len() != "rainfall_enabled"@.len());
            reveal_strlit("rdii_enabled");
            assert("maximum_trials"@.len() != "rdii_enabled"@.len());
            reveal_strlit("snowmelt_enabled");
            assert("maximum_trials"@.len() != "snowmelt_enabled"@.len());
            reveal_strlit("groundwater_enabled");
            assert("maximum_trials"@.len() != "groundwater_enabled"@.len());
            reveal_strlit("routing_enabled");
            assert("maximum_trials"@.len() != "routing_enabled"@.len());
            reveal_strlit("quality_enabled");
            assert("maximum_trials"@.len() != "quality_enabled"@.len());
            reveal_strlit("rule_step");
            assert("maximum_trials"@.len() != "rule_step"@.len());
            reveal_strlit("sweep_start");
            assert("maximum_trials"@.len() != "sweep_start"@.len());
            reveal_strlit("sweep_end");
            assert("maximum_trials"@.len() != "sweep_end"@.len());
        },
        SimulationOptionField::RequestedThreads => {
            reveal_strlit("requested_threads");
            reveal_strlit("routing_step");
            assert("requested_threads"@.len() != "routing_step"@.len());
            reveal_strlit("report_step");
            assert("requested_threads"@.len() != "report_step"@.len());
            reveal_strlit("detailed_reporting_enabled");
            assert("requested_threads"@.len() != "detailed_reporting_enabled"@.len());
            reveal_strlit("custom_ellipse_model");
            assert("requested_threads"@.len() != "custom_ellipse_model"@.len());
            reveal_strlit("surcharge_method");
            assert("requested_threads"@.len() != "surcharge_method"@.len());
            reveal_strlit("allow_ponding");
            assert("requested_threads"@.len() != "allow_ponding"@.len());
            reveal_strlit("inertia_damping");
            assert("requested_threads"@.len() != "inertia_damping"@.len());
            reveal_strlit("normal_flow_limit");
            assert("requested_threads"@ != "normal_flow_limit"@) by { assert("requested_threads"@[0] != "normal_flow_limit"@[0]); }
            reveal_strlit("skip_steady_state");
            assert("requested_threads"@ != "skip_steady_state"@) by { assert("requested_threads"@[0] != "skip_steady_state"@[0]); }
            reveal_strlit("rainfall_enabled");
            assert("requested_threads"@.len() != "rainfall_enabled"@.len());
            reveal_strlit("rdii_enabled");
            assert("requested_threads"@.len() != "rdii_enabled"@.len());
            reveal_strlit("snowmelt_enabled");
            assert("requested_threads"@.len() != "snowmelt_enabled"@.len());
            reveal_strlit("groundwater_enabled");
            assert("requested_threads"@.len() != "groundwater_enabled"@.len());
            reveal_strlit("routing_enabled");
            assert("requested_threads"@.len() != "routing_enabled"@.len());
            reveal_strlit("quality_enabled");
            assert("requested_threads"@.len() != "quality_enabled"@.len());
            reveal_strlit("rule_step");
            assert("requested_threads"@.len() != "rule_step"@.len());
            reveal_strlit("sweep_start");
            assert("requested_threads"@.len() != "sweep_start"@.len());
            reveal_strlit("sweep_end");
            assert("requested_threads"@.len() != "sweep_end"@.len());
            reveal_strlit("maximum_trials");
            assert("requested_threads"@.len() != "maximum_trials"@.len());
        },
        SimulationOptionField::MinimumRoutingStep => {
            reveal_strlit("minimum_routing_step");
            reveal_strlit("routing_step");
            assert("minimum_routing_step"@.len() != "routing_step"@.len());
            reveal_strlit("report_step");
            assert("minimum_routing_step"@.len() != "report_step"@.len());
            reveal_strlit("detailed_reporting_enabled");
            assert("minimum_routing_step"@.len() != "detailed_reporting_enabled"@.len());
            reveal_strlit("custom_ellipse_model");
            assert("minimum_routing_step"@ != "custom_ellipse_model"@) by { assert("minimum_routing_step"@[0] != "custom_ellipse_model"@[0]); }
            reveal_strlit("surcharge_method");
            assert("minimum_routing_step"@.len() != "surcharge_method"@.len());
            reveal_strlit("allow_ponding");
            assert("minimum_routing_step"@.len() != "allow_ponding"@.len());
            reveal_strlit("inertia_damping");
            assert("minimum_routing_step"@.len() != "inertia_damping"@.len());
            reveal_strlit("normal_flow_limit");
            assert("minimum_routing_step"@.len() != "normal_flow_limit"@.len());
            reveal_strlit("skip_steady_state");
            assert("minimum_routing_step"@.len() != "skip_steady_state"@.len());
            reveal_strlit("rainfall_enabled");
            assert("minimum_routing_step"@.len() != "rainfall_enabled"@.len());
            reveal_strlit("rdii_enabled");
            assert("minimum_routing_step"@.len() != "rdii_enabled"@.len());
            reveal_strlit("snowmelt_enabled");
            assert("minimum_routing_step"@.len() != "snowmelt_enabled"@.len());
            reveal_strlit("groundwater_enabled");
            assert("minimum_routing_step"@.len() != "groundwater_enabled"@.len());
            reveal_strlit("routing_enabled");
            assert("minimum_routing_step"@.len() != "routing_enabled"@.len());
            reveal_strlit("quality_enabled");
            assert("minimum_routing_step"@.len() != "quality_enabled"@.len());
            reveal_strlit("rule_step");
            assert("minimum_routing_step"@.len() != "rule_step"@.len());
            reveal_strlit("sweep_start");
            assert("minimum_routing_step"@.len() != "sweep_start"@.len());
            reveal_strlit("sweep_end");
            assert("minimum_routing_step"@.len() != "sweep_end"@.len());
            reveal_strlit("maximum_trials");
            assert("minimum_routing_step"@.len() != "maximum_trials"@.len());
            reveal_strlit("requested_threads");
            assert("minimum_routing_step"@.len() != "requested_threads"@.len());
        },
        SimulationOptionField::LengtheningStep => {
            reveal_strlit("lengthening_step");
            reveal_strlit("routing_step");
            assert("lengthening_step"@.len() != "routing_step"@.len());
            reveal_strlit("report_step");
            assert("lengthening_step"@.len() != "report_step"@.len());
            reveal_strlit("detailed_reporting_enabled");
            assert("lengthening_step"@.len() != "detailed_reporting_enabled"@.len());
            reveal_strlit("custom_ellipse_model");
            assert("lengthening_step"@.len() != "custom_ellipse_model"@.len());
            reveal_strlit("surcharge_method");
            assert("lengthening_step"@ != "surcharge_method"@) by { assert("lengthening_step"@[0] != "surcharge_method"@[0]); }
            reveal_strlit("allow_ponding");
            assert("lengthening_step"@.len() != "allow_ponding"@.len());
            reveal_strlit("inertia_damping");
            assert("lengthening_step"@.len() != "inertia_damping"@.len());
            reveal_strlit("normal_flow_limit");
            assert("lengthening_step"@.len() != "normal_flow_limit"@.len());
            reveal_strlit("skip_steady_state");
            assert("lengthening_step"@.len() != "skip_steady_state"@.len());
            reveal_strlit("rainfall_enabled");
            assert("lengthening_step"@ != "rainfall_enabled"@) by { assert("lengthening_step"@[0] != "rainfall_enabled"@[0]); }
            reveal_strlit("rdii_enabled");
            assert("lengthening_step"@.len() != "rdii_enabled"@.len());
            reveal_strlit("snowmelt_enabled");
            assert("lengthening_step"@ != "snowmelt_enabled"@) by { assert("lengthening_step"@[0] != "snowmelt_enabled"@[0]); }
            reveal_strlit("groundwater_enabled");
            assert("lengthening_step"@.len() != "groundwater_enabled"@.len());
            reveal_strlit("routing_enabled");
            assert("lengthening_step"@.len() != "routing_enabled"@.len());
            reveal_strlit("quality_enabled");
            assert("lengthening_step"@.len() != "quality_enabled"@.len());
            reveal_strlit("rule_step");
            assert("lengthening_step"@.len() != "rule_step"@.len());
            reveal_strlit("sweep_start");
            assert("lengthening_step"@.len() != "sweep_start"@.len());
            reveal_strlit("sweep_end");
            assert("lengthening_step"@.len() != "sweep_end"@.len());
            reveal_strlit("maximum_trials");
            assert("lengthening_step"@.len() != "maximum_trials"@.len());
            reveal_strlit("requested_threads");
            assert("lengthening_step"@.len() != "requested_threads"@.len());
            reveal_strlit("minimum_routing_step");
            assert("lengthening_step"@.len() != "minimum_routing_step"@.len());
        },
        SimulationOptionField::AntecedentDryDuration => {
            reveal_strlit("antecedent_dry_duration");
            reveal_strlit("routing_step");
            assert("antecedent_dry_duration"@.len() != "routing_step"@.len());
            reveal_strlit("report_step");
            assert("antecedent_dry_duration"@.len() != "report_step"@.len());
            reveal_strlit("detailed_reporting_enabled");
            assert("antecedent_dry_duration"@.len() != "detailed_reporting_enabled"@.len());
            reveal_strlit("custom_ellipse_model");
            assert("antecedent_dry_duration"@.len() != "custom_ellipse_model"@.len());
            reveal_strlit("surcharge_method");
            assert("antecedent_dry_duration"@.len() != "surcharge_method"@.len());
            reveal_strlit("allow_ponding");
            assert("antecedent_dry_duration"@.len() != "allow_ponding"@.len());
            reveal_strlit("inertia_damping");
            assert("antecedent_dry_duration"@.len() != "inertia_damping"@.len());
            reveal_strlit("normal_flow_limit");
            assert("antecedent_dry_duration"@.len() != "normal_flow_limit"@.len());
            reveal_strlit("skip_steady_state");
            assert("antecedent_dry_duration"@.len() != "skip_steady_state"@.len());
            reveal_strlit("rainfall_enabled");
            assert("antecedent_dry_duration"@.len() != "rainfall_enabled"@.len());
            reveal_strlit("rdii_enabled");
            assert("antecedent_dry_duration"@.len() != "rdii_enabled"@.len());
            reveal_strlit("snowmelt_enabled");
            assert("antecedent_dry_duration"@.len() != "snowmelt_enabled"@.len());
            reveal_strlit("groundwater_enabled");
            assert("antecedent_dry_duration"@.len() != "groundwater_enabled"@.len());
            reveal_strlit("routing_enabled");
            assert("antecedent_dry_duration"@.len() != "routing_enabled"@.len());
            reveal_strlit("quality_enabled");
            assert("antecedent_dry_duration"@.len() != "quality_enabled"@.len());
            reveal_strlit("rule_step");
            assert("antecedent_dry_duration"@.len() != "rule_step"@.len());
            reveal_strlit("sweep_start");
            assert("antecedent_dry_duration"@.len() != "sweep_start"@.len());
            reveal_strlit("sweep_end");
            assert("antecedent_dry_duration"@.len() != "sweep_end"@.len());
            reveal_strlit("maximum_trials");
            assert("antecedent_dry_duration"@.len() != "maximum_trials"@.len());
            reveal_strlit("requested_threads");
            assert("antecedent_dry_duration"@.len() != "requested_threads"@.len());
            reveal_strlit("minimum_routing_step");
            assert("antecedent_dry_duration"@.len() != "minimum_routing_step"@.len());
            reveal_strlit("lengthening_step");
            assert("antecedent_dry_duration"@.len() != "lengthening_step"@.len());
        },
        SimulationOptionField::CourantFactor => {
            reveal_strlit("courant_factor");
            reveal_strlit("routing_step");
            assert("courant_factor"@.len() != "routing_step"@.len());
            reveal_strlit("report_step");
            assert("courant_factor"@.len() != "report_step"@.len());
            reveal_strlit("detailed_reporting_enabled");
            assert("courant_factor"@.len() != "detailed_reporting_enabled"@.len());
            reveal_strlit("custom_ellipse_model");
            assert("courant_factor"@.len() != "custom_ellipse_model"@.len());
            reveal_strlit("surcharge_method");
            assert("courant_factor"@.len() != "surcharge_method"@.len());
            reveal_strlit("allow_ponding");
            assert("courant_factor"@.len() != "allow_ponding"@.len());
            reveal_strlit("inertia_damping");
            assert("courant_factor"@.len() != "inertia_damping"@.len());
            reveal_strlit("normal_flow_limit");
            assert("courant_factor"@.len() != "normal_flow_limit"@.len());
            reveal_strlit("skip_steady_state");
            assert("courant_factor"@.len() != "skip_steady_state"@.len());
            reveal_strlit("rainfall_enabled");
            assert("courant_factor"@.len() != "rainfall_enabled"@.len());
            reveal_strlit("rdii_enabled");
            assert("courant_factor"@.len() != "rdii_enabled"@.len());
            reveal_strlit("snowmelt_enabled");
            assert("courant_factor"@.len() != "snowmelt_enabled"@.len());
            reveal_strlit("groundwater_enabled");
            assert("courant_factor"@.len() != "groundwater_enabled"@.len());
            reveal_strlit("routing_enabled");
            assert("courant_factor"@.len() != "routing_enabled"@.len());
            reveal_strlit("quality_enabled");
            assert("courant_factor"@.len() != "quality_enabled"@.len());
            reveal_strlit("rule_step");
            assert("courant_factor"@.len() != "rule_step"@.len());
            reveal_strlit("sweep_start");
            assert("courant_factor"@.len() != "sweep_start"@.len());
            reveal_strlit("sweep_end");
            assert("courant_factor"@.len() != "sweep_end"@.len());
            reveal_strlit("maximum_trials");
            assert("courant_factor"@ != "maximum_trials"@) by { assert("courant_factor"@[0] != "maximum_trials"@[0]); }
            reveal_strlit("requested_threads");
            assert("courant_factor"@.len() != "requested_threads"@.len());
            reveal_strlit("minimum_routing_step");
            assert("courant_factor"@.len() != "minimum_routing_step"@.len());
            reveal_strlit("lengthening_step");
            assert("courant_factor"@.len() != "lengthening_step"@.len());
            reveal_strlit("antecedent_dry_duration");
            assert("courant_factor"@.len() != "antecedent_dry_duration"@.len());
        },
        SimulationOptionField::MinimumSurfaceArea => {
            reveal_strlit("minimum_surface_area");
            reveal_strlit("routing_step");
            assert("minimum_surface_area"@.len() != "routing_step"@.len());
            reveal_strlit("report_step");
            assert("minimum_surface_area"@.len() != "report_step"@.len());
            reveal_strlit("detailed_reporting_enabled");
            assert("minimum_surface_area"@.len() != "detailed_reporting_enabled"@.len());
            reveal_strlit("custom_ellipse_model");
            assert("minimum_surface_area"@ != "custom_ellipse_model"@) by { assert("minimum_surface_area"@[0] != "custom_ellipse_model"@[0]); }
            reveal_strlit("surcharge_method");
            assert("minimum_surface_area"@.len() != "surcharge_method"@.len());
            reveal_strlit("allow_ponding");
            assert("minimum_surface_area"@.len() != "allow_ponding"@.len());
            reveal_strlit("inertia_damping");
            assert("minimum_surface_area"@.len() != "inertia_damping"@.len());
            reveal_strlit("normal_flow_limit");
            assert("minimum_surface_area"@.len() != "normal_flow_limit"@.len());
            reveal_strlit("skip_steady_state");
            assert("minimum_surface_area"@.len() != "skip_steady_state"@.len());
            reveal_strlit("rainfall_enabled");
            assert("minimum_surface_area"@.len() != "rainfall_enabled"@.len());
            reveal_strlit("rdii_enabled");
            assert("minimum_surface_area"@.len() != "rdii_enabled"@.len());
            reveal_strlit("snowmelt_enabled");
            assert("minimum_surface_area"@.len() != "snowmelt_enabled"@.len());
            reveal_strlit("groundwater_enabled");
            assert("minimum_surface_area"@.len() != "groundwater_enabled"@.len());
            reveal_strlit("routing_enabled");
            assert("minimum_surface_area"@.len() != "routing_enabled"@.len());
            reveal_strlit("quality_enabled");
            assert("minimum_surface_area"@.len() != "quality_enabled"@.len());
            reveal_strlit("rule_step");
            assert("minimum_surface_area"@.len() != "rule_step"@.len());
            reveal_strlit("sweep_start");
            assert("minimum_surface_area"@.len() != "sweep_start"@.len());
            reveal_strlit("sweep_end");
            assert("minimum_surface_area"@.len() != "sweep_end"@.len());
            reveal_strlit("maximum_trials");
            assert("minimum_surface_area"@.len() != "maximum_trials"@.len());
            reveal_strlit("requested_threads");
            assert("minimum_surface_area"@.len() != "requested_threads"@.len());
            reveal_strlit("minimum_routing_step");
            assert("minimum_surface_area"@ != "minimum_routing_step"@) by { assert("minimum_surface_area"@[8] != "minimum_routing_step"@[8]); }
            reveal_strlit("lengthening_step");
            assert("minimum_surface_area"@.len() != "lengthening_step"@.len());
            reveal_strlit("antecedent_dry_duration");
            assert("minimum_surface_area"@.len() != "antecedent_dry_duration"@.len());
            reveal_strlit("courant_factor");
            assert("minimum_surface_area"@.len() != "courant_factor"@.len());
        },
        SimulationOptionField::MinimumConduitSlope => {
            reveal_strlit("minimum_conduit_slope");
            reveal_strlit("routing_step");
            assert("minimum_conduit_slope"@.len() != "routing_step"@.len());
            reveal_strlit("report_step");
            assert("minimum_conduit_slope"@.len() != "report_step"@.len());
            reveal_strlit("detailed_reporting_enabled");
            assert("minimum_conduit_slope"@.len() != "detailed_reporting_enabled"@.len());
            reveal_strlit("custom_ellipse_model");
            assert("minimum_conduit_slope"@.len() != "custom_ellipse_model"@.len());
            reveal_strlit("surcharge_method");
            assert("minimum_conduit_slope"@.len() != "surcharge_method"@.len());
            reveal_strlit("allow_ponding");
            assert("minimum_conduit_slope"@.len() != "allow_ponding"@.len());
            reveal_strlit("inertia_damping");
            assert("minimum_conduit_slope"@.len() != "inertia_damping"@.len());
            reveal_strlit("normal_flow_limit");
            assert("minimum_conduit_slope"@.len() != "normal_flow_limit"@.len());
            reveal_strlit("skip_steady_state");
            assert("minimum_conduit_slope"@.len() != "skip_steady_state"@.len());
            reveal_strlit("rainfall_enabled");
            assert("minimum_conduit_slope"@.len() != "rainfall_enabled"@.len());
            reveal_strlit("rdii_enabled");
            assert("minimum_conduit_slope"@.len() != "rdii_enabled"@.len());
            reveal_strlit("snowmelt_enabled");
            assert("minimum_conduit_slope"@.len() != "snowmelt_enabled"@.len());
            reveal_strlit("groundwater_enabled");
            assert("minimum_conduit_slope"@.len() != "groundwater_enabled"@.len());
            reveal_strlit("routing_enabled");
            assert("minimum_conduit_slope"@.len() != "routing_enabled"@.len());
            reveal_strlit("quality_enabled");
            assert("minimum_conduit_slope"@.len() != "quality_enabled"@.len());
            reveal_strlit("rule_step");
            assert("minimum_conduit_slope"@.len() != "rule_step"@.len());
            reveal_strlit("sweep_start");
            assert("minimum_conduit_slope"@.len() != "sweep_start"@.len());
            reveal_strlit("sweep_end");
            assert("minimum_conduit_slope"@.len() != "sweep_end"@.len());
            reveal_strlit("maximum_trials");
            assert("minimum_conduit_slope"@.len() != "maximum_trials"@.len());
            reveal_strlit("requested_threads");
            assert("minimum_conduit_slope"@.len() != "requested_threads"@.len());
            reveal_strlit("minimum_routing_step");
            assert("minimum_conduit_slope"@.len() != "minimum_routing_step"@.len());
            reveal_strlit("lengthening_step");
            assert("minimum_conduit_slope"@.len() != "lengthening_step"@.len());
            reveal_strlit("antecedent_dry_duration");
            assert("minimum_conduit_slope"@.len() != "antecedent_dry_duration"@.len());
            reveal_strlit("courant_factor");
            assert("minimum_conduit_slope"@.len() != "courant_factor"@.len());
            reveal_strlit("minimum_surface_area");
            assert("minimum_conduit_slope"@.len() != "minimum_surface_area"@.len());
        },
        SimulationOptionField::HeadTolerance => {
            reveal_strlit("head_tolerance");
            reveal_strlit("routing_step");
            assert("head_tolerance"@.len() != "routing_step"@.len());
            reveal_strlit("report_step");
            assert("head_tolerance"@.len() != "report_step"@.len());
            reveal_strlit("detailed_reporting_enabled");
            assert("head_tolerance"@.len() != "detailed_reporting_enabled"@.len());
            reveal_strlit("custom_ellipse_model");
            assert("head_tolerance"@.len() != "custom_ellipse_model"@.len());
            reveal_strlit("surcharge_method");
            assert("head_tolerance"@.len() != "surcharge_method"@.len());
            reveal_strlit("allow_ponding");
            assert("head_tolerance"@.len() != "allow_ponding"@.len());
            reveal_strlit("inertia_damping");
            assert("head_tolerance"@.len() != "inertia_damping"@.len());
            reveal_strlit("normal_flow_limit");
            assert("head_tolerance"@.len() != "normal_flow_limit"@.len());
            reveal_strlit("skip_steady_state");
            assert("head_tolerance"@.len() != "skip_steady_state"@.len());
            reveal_strlit("rainfall_enabled");
            assert("head_tolerance"@.len() != "rainfall_enabled"@.len());
            reveal_strlit("rdii_enabled");
            assert("head_tolerance"@.len() != "rdii_enabled"@.len());
            reveal_strlit("snowmelt_enabled");
            assert("head_tolerance"@.len() != "snowmelt_enabled"@.len());
            reveal_strlit("groundwater_enabled");
            assert("head_tolerance"@.len() != "groundwater_enabled"@.len());
            reveal_strlit("routing_enabled");
            assert("head_tolerance"@.len() != "routing_enabled"@.len());
            reveal_strlit("quality_enabled");
            assert("head_tolerance"@.len() != "quality_enabled"@.len());
            reveal_strlit("rule_step");
            assert("head_tolerance"@.len() != "rule_step"@.len());
            reveal_strlit("sweep_start");
            assert("head_tolerance"@.len() != "sweep_start"@.len());
            reveal_strlit("sweep_end");
            assert("head_tolerance"@.len() != "sweep_end"@.len());
            reveal_strlit("maximum_trials");
            assert("head_tolerance"@ != "maximum_trials"@) by { assert("head_tolerance"@[0] != "maximum_trials"@[0]); }
            reveal_strlit("requested_threads");
            assert("head_tolerance"@.len() != "requested_threads"@.len());
            reveal_strlit("minimum_routing_step");
            assert("head_tolerance"@.len() != "minimum_routing_step"@.len());
            reveal_strlit("lengthening_step");
            assert("head_tolerance"@.len() != "lengthening_step"@.len());
            reveal_strlit("antecedent_dry_duration");
            assert("head_tolerance"@.len() != "antecedent_dry_duration"@.len());
            reveal_strlit("courant_factor");
            assert("head_tolerance"@ != "courant_factor"@) by { assert("head_tolerance"@[0] != "courant_factor"@[0]); }
            reveal_strlit("minimum_surface_area");
            assert("head_tolerance"@.len() != "minimum_surface_area"@.len());
            reveal_strlit("minimum_conduit_slope");
            assert("head_tolerance"@.len() != "minimum_conduit_slope"@.len());
        },
        SimulationOptionField::SystemFlowTolerance => {
            reveal_strlit("system_flow_tolerance");
            reveal_strlit("routing_step");
            assert("system_flow_tolerance"@.len() != "routing_step"@.len());
            reveal_strlit("report_step");
            assert("system_flow_tolerance"@.len() != "report_step"@.len());
            reveal_strlit("detailed_reporting_enabled");
            assert("system_flow_tolerance"@.len() != "detailed_reporting_enabled"@.len());
            reveal_strlit("custom_ellipse_model");
            assert("system_flow_tolerance"@.len() != "custom_ellipse_model"@.len());
            reveal_strlit("surcharge_method");
            assert("system_flow_tolerance"@.len() != "surcharge_method"@.len());
            reveal_strlit("allow_ponding");
            assert("system_flow_tolerance"@.len() != "allow_ponding"@.len());
            reveal_strlit("inertia_damping");
            assert("system_flow_tolerance"@.len() != "inertia_damping"@.len());
            reveal_strlit("normal_flow_limit");
            assert("system_flow_tolerance"@.len() != "normal_flow_limit"@.len());
            reveal_strlit("skip_steady_state");
            assert("system_flow_tolerance"@.len() != "skip_steady_state"@.len());
            reveal_strlit("rainfall_enabled");
            assert("system_flow_tolerance"@.len() != "rainfall_enabled"@.len());
            reveal_strlit("rdii_enabled");
            assert("system_flow_tolerance"@.len() != "rdii_enabled"@.len());
            reveal_strlit("snowmelt_enabled");
            assert("system_flow_tolerance"@.len() != "snowmelt_enabled"@.len());
            reveal_strlit("groundwater_enabled");
            assert("system_flow_tolerance"@.len() != "groundwater_enabled"@.len());
            reveal_strlit("routing_enabled");
            assert("system_flow_tolerance"@.len() != "routing_enabled"@.len());
            reveal_strlit("quality_enabled");
            assert("system_flow_tolerance"@.len() != "quality_enabled"@.len());
            reveal_strlit("rule_step");
            assert("system_flow_tolerance"@.len() != "rule_step"@.len());
            reveal_strlit("sweep_start");
            assert("system_flow_tolerance"@.len() != "sweep_start"@.len());
            reveal_strlit("sweep_end");
            assert("system_flow_tolerance"@.len() != "sweep_end"@.len());
            reveal_strlit("maximum_trials");
            assert("system_flow_tolerance"@.len() != "maximum_trials"@.len());
            reveal_strlit("requested_threads");
            assert("system_flow_tolerance"@.len() != "requested_threads"@.len());
            reveal_strlit("minimum_routing_step");
            assert("system_flow_tolerance"@.len() != "minimum_routing_step"@.len());
            reveal_strlit("lengthening_step");
            assert("system_flow_tolerance"@.len() != "lengthening_step"@.len());
            reveal_strlit("antecedent_dry_duration");
            assert("system_flow_tolerance"@.len() != "antecedent_dry_duration"@.len());
            reveal_strlit("courant_factor");
            assert("system_flow_tolerance"@.len() != "courant_factor"@.len());
            reveal_strlit("minimum_surface_area");
            assert("system_flow_tolerance"@.len() != "minimum_surface_area"@.len());
            reveal_strlit("minimum_conduit_slope");
            assert("system_flow_tolerance"@ != "minimum_conduit_slope"@) by { assert("system_flow_tolerance"@[0] != "minimum_conduit_slope"@[0]); }
            reveal_strlit("head_tolerance");
            assert("system_flow_tolerance"@.len() != "head_tolerance"@.len());
        },
        SimulationOptionField::LateralFlowTolerance => {
            reveal_strlit("lateral_flow_tolerance");
            reveal_strlit("routing_step");
            assert("lateral_flow_tolerance"@.len() != "routing_step"@.len());
            reveal_strlit("report_step");
            assert("lateral_flow_tolerance"@.len() != "report_step"@.len());
            reveal_strlit("detailed_reporting_enabled");
            assert("lateral_flow_tolerance"@.len() != "detailed_reporting_enabled"@.len());
            reveal_strlit("custom_ellipse_model");
            assert("lateral_flow_tolerance"@.len() != "custom_ellipse_model"@.len());
            reveal_strlit("surcharge_method");
            assert("lateral_flow_tolerance"@.len() != "surcharge_method"@.len());
            reveal_strlit("allow_ponding");
            assert("lateral_flow_tolerance"@.len() != "allow_ponding"@.len());
            reveal_strlit("inertia_damping");
            assert("lateral_flow_tolerance"@.len() != "inertia_damping"@.len());
            reveal_strlit("normal_flow_limit");
            assert("lateral_flow_tolerance"@.len() != "normal_flow_limit"@.len());
            reveal_strlit("skip_steady_state");
            assert("lateral_flow_tolerance"@.len() != "skip_steady_state"@.len());
            reveal_strlit("rainfall_enabled");
            assert("lateral_flow_tolerance"@.len() != "rainfall_enabled"@.len());
            reveal_strlit("rdii_enabled");
            assert("lateral_flow_tolerance"@.len() != "rdii_enabled"@.len());
            reveal_strlit("snowmelt_enabled");
            assert("lateral_flow_tolerance"@.len() != "snowmelt_enabled"@.len());
            reveal_strlit("groundwater_enabled");
            assert("lateral_flow_tolerance"@.len() != "groundwater_enabled"@.len());
            reveal_strlit("routing_enabled");
            assert("lateral_flow_tolerance"@.len() != "routing_enabled"@.len());
            reveal_strlit("quality_enabled");
            assert("lateral_flow_tolerance"@.len() != "quality_enabled"@.len());
            reveal_strlit("rule_step");
            assert("lateral_flow_tolerance"@.len() != "rule_step"@.len());
            reveal_strlit("sweep_start");
            assert("lateral_flow_tolerance"@.len() != "sweep_start"@.len());
            reveal_strlit("sweep_end");
            assert("lateral_flow_tolerance"@.len() != "sweep_end"@.len());
            reveal_strlit("maximum_trials");
            assert("lateral_flow_tolerance"@.len() != "maximum_trials"@.len());
            reveal_strlit("requested_threads");
            assert("lateral_flow_tolerance"@.len() != "requested_threads"@.len());
            reveal_strlit("minimum_routing_step");
            assert("lateral_flow_tolerance"@.len() != "minimum_routing_step"@.len());
            reveal_strlit("lengthening_step");
            assert("lateral_flow_tolerance"@.len() != "lengthening_step"@.len());
            reveal_strlit("antecedent_dry_duration");
            assert("lateral_flow_tolerance"@.len() != "antecedent_dry_duration"@.len());
            reveal_strlit("courant_factor");
            assert("lateral_flow_tolerance"@.len() != "courant_factor"@.len());
            reveal_strlit("minimum_surface_area");
            assert("lateral_flow_tolerance"@.len() != "minimum_surface_area"@.len());
            reveal_strlit("minimum_conduit_slope");
            assert("lateral_flow_tolerance"@.len() != "minimum_conduit_slope"@.len());
            reveal_strlit("head_tolerance");
            assert("lateral_flow_tolerance"@.len() != "head_tolerance"@.len());
            reveal_strlit("system_flow_tolerance");
            assert("lateral_flow_tolerance"@.len() != "system_flow_tolerance"@.len());
        },
    }
}

/// Resolves one private option field name.
pub fn simulation_option_field(name: &str) -> (field: Option<SimulationOptionField>)
    ensures
        field == spec_simulation_option_field(name@),
{
    if str_eq(name, "routing_step") {
        Some(SimulationOptionField::RoutingStep)
    } else if str_eq(name, "report_step") {
        Some(SimulationOptionField::ReportStep)
    } else if str_eq(name, "detailed_reporting_enabled") {
        Some(SimulationOptionField::DetailedReportingEnabled)
    } else if str_eq(name, "custom_ellipse_model") {
        Some(SimulationOptionField::CustomEllipseModel)
    } else if str_eq(name, "surcharge_method") {
        Some(SimulationOptionField::SurchargeMethod)
    } else if str_eq(name, "allow_ponding") {
        Some(SimulationOptionField::AllowPonding)
    } else if str_eq(name, "inertia_damping") {
        Some(SimulationOptionField::InertiaDamping)
    } else if str_eq(name, "normal_flow_limit") {
        Some(SimulationOptionField::NormalFlowLimit)
    } else if str_eq(name, "skip_steady_state") {
        Some(SimulationOptionField::SkipSteadyState)
    } else if str_eq(name, "rainfall_enabled") {
        Some(SimulationOptionField::RainfallEnabled)
    } else if str_eq(name, "rdii_enabled") {
        Some(SimulationOptionField::RdiiEnabled)
    } else if str_eq(name, "snowmelt_enabled") {
        Some(SimulationOptionField::SnowmeltEnabled)
    } else if str_eq(name, "groundwater_enabled") {
        Some(SimulationOptionField::GroundwaterEnabled)
    } else if str_eq(name, "routing_enabled") {
        Some(SimulationOptionField::RoutingEnabled)
    } else if str_eq(name, "quality_enabled") {
        Some(SimulationOptionField::QualityEnabled)
    } else if str_eq(name, "rule_step") {
        Some(SimulationOptionField::RuleStep)
    } else if str_eq(name, "sweep_start") {
        Some(SimulationOptionField::SweepStart)
    } else if str_eq(name, "sweep_end") {
        Some(SimulationOptionField::SweepEnd)
    } else if str_eq(name, "maximum_trials") {
        Some(SimulationOptionField::MaximumTrials)
    } else if str_eq(name, "requested_threads") {
        Some(SimulationOptionField::RequestedThreads)
    } else if str_eq(name, "minimum_routing_step") {
        Some(SimulationOptionField::MinimumRoutingStep)
    } else if str_eq(name, "lengthening_step") {
        Some(SimulationOptionField::LengtheningStep)
    } else if str_eq(name, "antecedent_dry_duration") {
        Some(SimulationOptionField::AntecedentDryDuration)
    } else if str_eq(name, "courant_factor") {
        Some(SimulationOptionField::CourantFactor)
    } else if str_eq(name, "minimum_surface_area") {
        Some(SimulationOptionField::MinimumSurfaceArea)
    } else if str_eq(name, "minimum_conduit_slope") {
        Some(SimulationOptionField::MinimumConduitSlope)
    } else if str_eq(name, "head_tolerance") {
        Some(SimulationOptionField::HeadTolerance)
    } else if str_eq(name, "system_flow_tolerance") {
        Some(SimulationOptionField::SystemFlowTolerance)
    } else if str_eq(name, "lateral_flow_tolerance") {
        Some(SimulationOptionField::LateralFlowTolerance)
    } else {
        None
    }
}

/// How a requested collection position resolves: `None` when it is not an exact non-boolean
/// `int`, `Some(None)` when it is negative or beyond `usize`, else the position.
pub open spec fn spec_collection_position(value: PyValue) -> Option<Option<usize>> {
    match value {
        PyValue::Int(i) => if 0 <= i && i <= usize::MAX {
            Some(Some(i as usize))
        } else {
            Some(None)
        },
        PyValue::BigInt { .. } => Some(None),
        _ => None,
    }
}

/// True when `raised` is a Python `TypeError` with exactly `message`.
pub open spec fn is_type_error(raised: NativeError, message: Seq<char>) -> bool {
    match raised {
        NativeError::Type { message: m } => m@ == message,
        _ => false,
    }
}

/// Creates a Python `TypeError` with the given message.
pub fn type_error(message: &str) -> (raised: NativeError)
    ensures
        is_type_error(raised, message@),
{
    NativeError::Type { message: String::from_str(message) }
}

/// `result` is what a collection read of `operation` gives: the family is resolved first, then
/// the Project Generation is checked, and only then does `read` run for the family, its result
/// passed on with a solver failure attributed to `operation`.
pub open spec fn spec_collection_read<O, T, F: FnOnce(O) -> Result<T, SwmmError>>(
    owner: NativeSimulation,
    operation: &'static str,
    generation: u64,
    object_type: Result<O, NativeError>,
    read: F,
    result: Result<T, NativeError>,
) -> bool {
    match object_type {
        Err(e) => result == Err::<T, NativeError>(e),
        Ok(o) => if !owner.spec_generation_active(generation) {
            result == Err::<T, NativeError>(NativeError::Stale { operation })
        } else {
            exists|r: Result<T, SwmmError>| call_ensures(read, (o,), r) && spec_attached(operation, r, result)
        },
    }
}

/// `result` is what `options_read` gives: the Project Generation is checked, then the solver's
/// whole-options `read` runs, its result passed on.
pub open spec fn spec_options_read<T, F: FnOnce() -> Result<T, SwmmError>>(
    owner: NativeSimulation,
    generation: u64,
    read: F,
    result: Result<T, NativeError>,
) -> bool {
    if !owner.spec_generation_active(generation) {
        result == Err::<T, NativeError>(NativeError::Stale { operation: "options_read" })
    } else {
        exists|r: Result<T, SwmmError>| call_ensures(read, (), r) && spec_attached("options_read", r, result)
    }
}

/// `result` is what `option_value` gives for `field`: the Project Generation is checked, then a
/// known field is read through `read`; an unknown field is refused after `validate` succeeds.
pub open spec fn spec_option_value<
    T,
    V: FnOnce() -> Result<(), SwmmError>,
    R: FnOnce(SimulationOptionField) -> Result<T, SwmmError>,
>(
    owner: NativeSimulation,
    generation: u64,
    field: Seq<char>,
    validate: V,
    read: R,
    result: Result<T, NativeError>,
) -> bool {
    if !owner.spec_generation_active(generation) {
        result == Err::<T, NativeError>(NativeError::Stale { operation: "option_value" })
    } else {
        match spec_simulation_option_field(field) {
            Some(f) => exists|r: Result<T, SwmmError>| call_ensures(read, (f,), r) && spec_attached("option_value", r, result),
            None => exists|v: Result<(), SwmmError>|
                {
                    &&& call_ensures(validate, (), v)
                    &&& v matches Err(e) ==> result == Err::<T, NativeError>(
                        NativeError::Native { operation: "option_value", error: e },
                    )
                    &&& v is Ok ==> result is Err && is_property_error(
                        result->Err_0,
                        "option_value",
                        ErrorCode::System,
                        "invalid private option field"@,
                    )
                },
        }
    }
}

/// What `options_read` and `option_value` give agree: when the solver's read of one option
/// field is that field of its whole-options read (`pick`), `option_value` of a known field gives
/// that field of what `options_read` gave, and so does `option_value` of every key of an options
/// read; an unknown field is refused as an invalid private
/// option field unless the whole-options read itself fails.
pub proof fn lemma_option_value_matches_options_read<
    T,
    U,
    A: FnOnce() -> Result<T, SwmmError>,
    V: FnOnce() -> Result<(), SwmmError>,
    R: FnOnce(SimulationOptionField) -> Result<U, SwmmError>,
>(
    owner: NativeSimulation,
    generation: u64,
    read_all: A,
    options: Result<T, NativeError>,
    field: Seq<char>,
    validate: V,
    read: R,
    value: Result<U, NativeError>,
    pick: spec_fn(T, SimulationOptionField) -> U,
)
    requires
        spec_options_read(owner, generation, read_all, options),
        spec_option_value(owner, generation, field, validate, read, value),
        forall|d: T, f: SimulationOptionField, r: Result<U, SwmmError>|
            #[trigger] call_ensures(read_all, (), Ok::<T, SwmmError>(d)) && #[trigger] call_ensures(read, (f,), r)
                ==> r == Ok::<U, SwmmError>(pick(d, f)),
        forall|d: T, v: Result<(), SwmmError>|
            #[trigger] call_ensures(read_all, (), Ok::<T, SwmmError>(d)) && #[trigger] call_ensures(validate, (), v)
                ==> v is Ok,
    ensures
        options is Ok && spec_simulation_option_field(field) is Some ==> value == Ok::<U, NativeError>(
            pick(options->Ok_0, spec_simulation_option_field(field)->0),
        ),
        options is Ok && spec_simulation_option_field(field) is None ==> value is Err && is_property_error(
            value->Err_0,
            "option_value",
            ErrorCode::System,
            "invalid private option field"@,
        ),
        forall|f: SimulationOptionField|
            options is Ok && field == (#[trigger] spec_option_key(f))@ ==> value == Ok::<U, NativeError>(
                pick(options->Ok_0, f),
            ),
{
    assert forall|f: SimulationOptionField| options is Ok && field == (#[trigger] spec_option_key(f))@ implies spec_simulation_option_field(field) == Some(f) by {
        lemma_option_keys_select_their_fields(f);
    }
    if options is Ok {
        let d = options->Ok_0;
        let all = choose|r: Result<T, SwmmError>| call_ensures(read_all, (), r) && spec_attached("options_read", r, options);
        assert(all == Ok::<T, SwmmError>(d));
        match spec_simulation_option_field(field) {
            Some(f) => {
                let r = choose|r: Result<U, SwmmError>| call_ensures(read, (f,), r) && spec_attached("option_value", r, value);
                assert(call_ensures(read_all, (), Ok::<T, SwmmError>(d)) && call_ensures(read, (f,), r));
            },
            None => {
                let v = choose|v: Result<(), SwmmError>|
                    {
                        &&& call_ensures(validate, (), v)
                        &&& v matches Err(e) ==> value == Err::<U, NativeError>(
                            NativeError::Native { operation: "option_value", error: e },
                        )
                        &&& v is Ok ==> value is Err && is_property_error(
                            value->Err_0,
                            "option_value",
                            ErrorCode::System,
                            "invalid private option field"@,
                        )
                    };
                assert(call_ensures(read_all, (), Ok::<T, SwmmError>(d)) && call_ensures(validate, (), v));
            },
        }
    }
}

/// `result` is what `collection_contains` gives: a refused key is raised, a key that is neither
/// a `str` nor a non-boolean `int` identifies nothing whatever the generation, then the family is
/// resolved, the Project Generation checked, and `lookup` asked for the key.
pub open spec fn spec_collection_contains<O, K, I, F: FnOnce(O, K) -> Result<Option<I>, SwmmError>>(
    owner: NativeSimulation,
    generation: u64,
    key: Result<Option<K>, NativeError>,
    object_type: Result<O, NativeError>,
    lookup: F,
    result: Result<bool, NativeError>,
) -> bool {
    match key {
        Err(e) => result == Err::<bool, NativeError>(e),
        Ok(None) => result == Ok::<bool, NativeError>(false),
        Ok(Some(k)) => match object_type {
            Err(e) => result == Err::<bool, NativeError>(e),
            Ok(o) => if !owner.spec_generation_active(generation) {
                result == Err::<bool, NativeError>(NativeError::Stale { operation: "collection_contains" })
            } else {
                exists|r: Result<Option<I>, SwmmError>|
                    {
                        &&& call_ensures(lookup, (o, k), r)
                        &&& r matches Ok(found) ==> result == Ok::<bool, NativeError>(found is Some)
                        &&& r matches Err(e) ==> result == Err::<bool, NativeError>(
                            NativeError::Native { operation: "collection_contains", error: e },
                        )
                    }
            },
        },
    }
}

/// Every canonical id that `collection_ids` gives is contained according to
/// `collection_contains` for the same family and generation, whenever the solver's lookup finds
/// each id its ids read lists; a key that is neither a `str` nor a non-boolean `int` is never
/// contained, even under a stale generation.
pub proof fn lemma_collection_contains_every_id<
    O,
    I,
    D: FnOnce(O) -> Result<Vec<String>, SwmmError>,
    F: FnOnce(O, String) -> Result<Option<I>, SwmmError>,
>(
    owner: NativeSimulation,
    generation: u64,
    object_type: Result<O, NativeError>,
    ids: D,
    lookup: F,
    listed: Result<Vec<String>, NativeError>,
    id: String,
    contained: Result<bool, NativeError>,
)
    requires
        spec_collection_read(owner, "collection_ids", generation, object_type, ids, listed),
        spec_collection_contains(owner, generation, Ok::<Option<String>, NativeError>(Some(id)), object_type, lookup, contained),
        forall|o: O, v: Vec<String>, k: String, r: Result<Option<I>, SwmmError>|
            #[trigger] call_ensures(ids, (o,), Ok::<Vec<String>, SwmmError>(v)) && v@.contains(k)
                && #[trigger] call_ensures(lookup, (o, k), r) ==> r matches Ok(Some(_)),
    ensures
        listed is Ok && listed->Ok_0@.contains(id) ==> contained == Ok::<bool, NativeError>(true),
        spec_collection_contains(owner, generation, Ok::<Option<String>, NativeError>(None), object_type, lookup, Ok::<bool, NativeError>(false)),
{
    if listed is Ok && listed->Ok_0@.contains(id) {
        let o = object_type->Ok_0;
        let v = choose|r: Result<Vec<String>, SwmmError>| call_ensures(ids, (o,), r) && spec_attached("collection_ids", r, listed);
        let r = choose|r: Result<Option<I>, SwmmError>|
            {
                &&& call_ensures(lookup, (o, id), r)
                &&& r matches Ok(found) ==> contained == Ok::<bool, NativeError>(found is Some)
                &&& r matches Err(e) ==> contained == Err::<bool, NativeError>(
                    NativeError::Native { operation: "collection_contains", error: e },
                )
            };
        assert(call_ensures(ids, (o,), Ok::<Vec<String>, SwmmError>(v->Ok_0)) && call_ensures(lookup, (o, id), r));
    }
}

/// `collection_count` gives the length of what `collection_ids` gives for the same family and
/// generation whenever the solver's count of a family is the number of its canonical ids: both
/// reads are checked the same way and their results passed on unchanged.
pub proof fn lemma_collection_count_matches_ids<
    O,
    C: FnOnce(O) -> Result<usize, SwmmError>,
    D: FnOnce(O) -> Result<Vec<String>, SwmmError>,
>(
    owner: NativeSimulation,
    generation: u64,
    object_type: Result<O, NativeError>,
    count: C,
    ids: D,
    counted: Result<usize, NativeError>,
    listed: Result<Vec<String>, NativeError>,
)
    requires
        spec_collection_read(owner, "collection_count", generation, object_type, count, counted),
        spec_collection_read(owner, "collection_ids", generation, object_type, ids, listed),
        forall|o: O, c: Result<usize, SwmmError>, v: Result<Vec<String>, SwmmError>|
            #[trigger] call_ensures(count, (o,), c) && #[trigger] call_ensures(ids, (o,), v) && v is Ok
                ==> c == Ok::<usize, SwmmError>(v->Ok_0@.len() as usize),
    ensures
        listed is Ok ==> counted == Ok::<usize, NativeError>(listed->Ok_0@.len() as usize),
        object_type is Err || !owner.spec_generation_active(generation) ==> counted is Err && listed is Err,
{
    if listed is Ok {
        let o = object_type->Ok_0;
        let v = choose|r: Result<Vec<String>, SwmmError>| call_ensures(ids, (o,), r) && spec_attached("collection_ids", r, listed);
        let c = choose|r: Result<usize, SwmmError>| call_ensures(count, (o,), r) && spec_attached("collection_count", r, counted);
        assert(call_ensures(count, (o,), c) && call_ensures(ids, (o,), v));
    }
}

impl NativeSimulation {

    /// Reads the maximum routing step of the active Project Generation.
    pub fn maximum_routing_step<T, F: FnOnce() -> Result<T, SwmmError>>(&self, generation: u64, read: F) -> (result:
        Result<T, NativeError>)
        requires
            call_requires(read, ()),
        ensures
            !self.spec_generation_active(generation) ==> result == Err::<T, NativeError>(
                NativeError::Stale { operation: "maximum_routing_step" },
            ),
            self.spec_generation_active(generation) ==> exists|r: Result<T, SwmmError>|
                call_ensures(read, (), r) && spec_attached("maximum_routing_step", r, result),
    {
        if !self.is_active_generation(generation) {
            return Err(NativeError::Stale { operation: "maximum_routing_step" });
        }
        let values = read();
        let ghost r = values;
        let result = self.attached("maximum_routing_step", values);
        assert(call_ensures(read, (), r) && spec_attached("maximum_routing_step", r, result));
        result
    }
    /// Returns lifecycle and progress state from one owner acquisition.
    ///
    /// The current model time is read only in the running, complete, and ended states.
    pub fn status<F: FnOnce() -> Result<DateTimeParts, SwmmError>>(
        &self,
        record: LifecycleRecord,
        current_time: F,
    ) -> (result: Result<Status, NativeError>)
        requires
            call_requires(current_time, ()),
        ensures
            !spec_has_current_time(record.state) ==> result == Ok::<Status, NativeError>(
                spec_status(record, None),
            ),
            spec_has_current_time(record.state) ==> exists|r: Result<DateTimeParts, SwmmError>|
                {
                    &&& call_ensures(current_time, (), r)
                    &&& r matches Ok(t) ==> result == Ok::<Status, NativeError>(
                        spec_status(record, Some(t)),
                    )
                    &&& r matches Err(e) ==> result == Err::<Status, NativeError>(
                        NativeError::Native { operation: "status", error: e },
                    )
                },
    {
        let time = if record.state == SimulationLifecycle::Running || record.state
            == SimulationLifecycle::Complete || record.state == SimulationLifecycle::Ended {
            let read = current_time();
            let ghost r = read;
            assert(call_ensures(current_time, (), r));
            match self.attached("status", read) {
                Ok(t) => Some(t),
                Err(error) => {
                    return Err(error);
                },
            }
        } else {
            None
        };
        Ok(
            Status {
                state: self.lifecycle_name(record.state),
                is_open: record.is_open,
                is_started: record.is_started,
                configuration_dirty: record.configuration_dirty,
                save_results: record.save_results,
                current_time: time,
                step_count: record.total_step_count,
                report_period_count: record.report_period_count,
                warning_count: record.warning_count,
            },
        )
    }

    /// The stable lowercase name of a reported lifecycle state.
    fn lifecycle_name(&self, state: SimulationLifecycle) -> (name: &'static str)
        ensures
            name == crate::lifecycle::spec_lifecycle_name(state),
    {
        match state {
            SimulationLifecycle::Open => "open",
            SimulationLifecycle::Running => "running",
            SimulationLifecycle::Complete => "complete",
            SimulationLifecycle::Ended => "ended",
            SimulationLifecycle::Failed => "failed",
            SimulationLifecycle::Closed => "closed",
        }
    }

    /// Returns whether stepping is active or naturally complete.
    pub fn is_started(&self, record: LifecycleRecord) -> (started: bool)
        ensures
            started == record.is_started,
    {
        record.is_started
    }

    /// Returns whether accepted configuration requires post-open preparation.
    pub fn configuration_dirty(&self, record: LifecycleRecord) -> (dirty: bool)
        ensures
            dirty == record.configuration_dirty,
    {
        record.configuration_dirty
    }

    /// Returns the accumulated solver warning count.
    pub fn warning_count(&self, record: LifecycleRecord) -> (count: i32)
        ensures
            count == record.warning_count,
    {
        record.warning_count
    }

    /// Returns the number of saved report periods.
    pub fn report_period_count(&self, read: Result<i64, SwmmError>) -> (count: Result<i64, NativeError>)
        ensures
            spec_attached("report_period_count", read, count),
    {
        self.attached("report_period_count", read)
    }

    /// Returns the Effective Thread Count retained after project caps.
    pub fn effective_threads(&self, read: Result<i32, SwmmError>) -> (count: Result<i32, NativeError>)
        ensures
            spec_attached("effective_threads", read, count),
    {
        self.attached("effective_threads", read)
    }

    /// Copies the current model time.
    pub fn current_time(&self, read: Result<DateTimeParts, SwmmError>) -> (time: Result<
        DateTimeParts,
        NativeError,
    >)
        ensures
            spec_attached("current_time", read, time),
    {
        self.attached("current_time", read)
    }

    /// Copies current and start model times read under one owner acquisition.
    pub fn elapsed_times(&self, read: Result<(DateTimeParts, DateTimeParts), SwmmError>) -> (times:
        Result<(DateTimeParts, DateTimeParts), NativeError>)
        ensures
            spec_attached("elapsed_time", read, times),
    {
        self.attached("elapsed_time", read)
    }

    /// Copies one selected configured simulation date.
    ///
    /// An unknown field is refused after `validate` (the solver's whole-schedule read) so that
    /// a lifecycle failure keeps its precedence.
    pub fn simulation_time<
        V: FnOnce() -> Result<(), SwmmError>,
        R: FnOnce(SimulationTimeField) -> Result<DateTimeParts, SwmmError>,
    >(&self, field: &str, validate: V, read: R) -> (result: Result<DateTimeParts, NativeError>)
        requires
            call_requires(validate, ()),
            forall|f: SimulationTimeField| call_requires(read, (f,)),
        ensures
            spec_simulation_time_field(field@) matches Some(f) ==> exists|
                r: Result<DateTimeParts, SwmmError>,
            | call_ensures(read, (f,), r) && spec_attached("simulation_time", r, result),
            spec_simulation_time_field(field@) is None ==> exists|v: Result<(), SwmmError>|
                {
                    &&& call_ensures(validate, (), v)
                    &&& v matches Err(e) ==> result == Err::<DateTimeParts, NativeError>(
                        NativeError::Native { operation: "simulation_time", error: e },
                    )
                    &&& v is Ok ==> result is Err && is_property_error(
                        result->Err_0,
                        "simulation_time",
                        ErrorCode::System,
                        "invalid private simulation time field"@,
                    )
                },
    {
        match simulation_time_field(field) {
            Some(selected) => {
                let value = read(selected);
                let ghost r = value;
                let result = self.attached("simulation_time", value);
                assert(call_ensures(read, (selected,), r) && spec_attached("simulation_time", r, result));
                result
            },
            None => {
                let checked = validate();
                let ghost v = checked;
                assert(call_ensures(validate, (), v));
                match checked {
                    Err(error) => Err(native_error("simulation_time", error)),
                    Ok(()) => Err(
                        native_error(
                            "simulation_time",
                            SwmmError::with_str(
                                ErrorCode::System,
                                "invalid private simulation time field",
                            ),
                        ),
                    ),
                }
            },
        }
    }

    /// Copies one selected stable unit label from the solver's `(flow units, unit system)` labels.
    pub fn unit_label(&self, field: &str, labels: Result<(&'static str, &'static str), SwmmError>) -> (label:
        Result<&'static str, NativeError>)
        ensures
            labels matches Err(e) ==> label == Err::<&'static str, NativeError>(
                NativeError::Native { operation: "unit_label", error: e },
            ),
            labels matches Ok(l) ==> match spec_unit_label_field(field@) {
                Some(UnitLabelField::FlowUnits) => label == Ok::<&'static str, NativeError>(l.0),
                Some(UnitLabelField::UnitSystem) => label == Ok::<&'static str, NativeError>(l.1),
                None => label is Err && is_property_error(
                    label->Err_0,
                    "unit_label",
                    ErrorCode::System,
                    "invalid private unit label field"@,
                ),
            },
    {
        let (flow_units, unit_system) = match labels {
            Ok(pair) => pair,
            Err(error) => {
                return Err(native_error("unit_label", error));
            },
        };
        if str_eq(field, "flow_units") {
            Ok(flow_units)
        } else if str_eq(field, "unit_system") {
            Ok(unit_system)
        } else {
            Err(
                native_error(
                    "unit_label",
                    SwmmError::with_str(ErrorCode::System, "invalid private unit label field"),
                ),
            )
        }
    }
}

impl NativeSimulation {
    /// Resolves one collection key to the identity it names in the active Project Generation.
    ///
    /// `object_type` is the resolved object family and `key` the accepted key (`None` when the
    /// Python key is neither a `str` nor a non-boolean `int`). `Ok(None)` means that no object
    /// has the key; the caller raises `KeyError` with the requested key.
    pub fn collection_view<O, K, I, F: FnOnce(O, K) -> Result<Option<I>, SwmmError>>(
        &self,
        generation: u64,
        object_type: Result<O, NativeError>,
        key: Result<Option<K>, NativeError>,
        lookup: F,
    ) -> (result: Result<Option<I>, NativeError>)
        requires
            forall|o: O, k: K| call_requires(lookup, (o, k)),
        ensures
            object_type is Err ==> result == Err::<Option<I>, NativeError>(object_type->Err_0),
            object_type is Ok && key is Err ==> result == Err::<Option<I>, NativeError>(
                key->Err_0,
            ),
            object_type is Ok && key == Ok::<Option<K>, NativeError>(None) ==> result is Err
                && is_type_error(result->Err_0, "collection keys must be str or non-boolean int"@),
            object_type is Ok && key is Ok && key->Ok_0 is Some && !self.spec_generation_active(
                generation,
            ) ==> result == Err::<Option<I>, NativeError>(
                NativeError::Stale { operation: "collection_view" },
            ),
            object_type is Ok && key is Ok && key->Ok_0 is Some && self.spec_generation_active(
                generation,
            ) ==> exists|r: Result<Option<I>, SwmmError>|
                call_ensures(lookup, (object_type->Ok_0, key->Ok_0->0), r) && spec_attached(
                    "collection_view",
                    r,
                    result,
                ),
    {
        let object_type = match object_type {
            Ok(o) => o,
            Err(error) => {
                return Err(error);
            },
        };
        let key = match key {
            Ok(Some(k)) => k,
            Ok(None) => {
                return Err(type_error("collection keys must be str or non-boolean int"));
            },
            Err(error) => {
                return Err(error);
            },
        };
        if !self.generation_active(generation) {
            return Err(NativeError::Stale { operation: "collection_view" });
        }
        let ghost (o, k) = (object_type, key);
        let found = lookup(object_type, key);
        let ghost r = found;
        let result = self.attached("collection_view", found);
        assert(call_ensures(lookup, (o, k), r) && spec_attached("collection_view", r, result));
        result
    }

    /// Whether `generation` is the active Project Generation.
    fn generation_active(&self, generation: u64) -> (active: bool)
        ensures
            active == self.spec_generation_active(generation),
    {
        match self.handle.active_generation {
            Some(active) => active.0 == generation,
            None => false,
        }
    }

    /// Resolves one zero-based collection position to the identity at it in the active
    /// Project Generation.
    ///
    /// `Ok(None)` means that the position is negative, beyond `usize`, or past the last object;
    /// the caller raises `IndexError` with the requested position.
    pub fn collection_view_at<O, I, F: FnOnce(O, usize) -> Result<Option<I>, SwmmError>>(
        &self,
        generation: u64,
        object_type: Result<O, NativeError>,
        position: &PyValue,
        lookup: F,
    ) -> (result: Result<Option<I>, NativeError>)
        requires
            forall|o: O, p: usize| call_requires(lookup, (o, p)),
        ensures
            spec_collection_position(*position) is None ==> result is Err && is_type_error(
                result->Err_0,
                "index must be a non-boolean int"@,
            ),
            spec_collection_position(*position) == Some(None::<usize>) ==> result == Ok::<
                Option<I>,
                NativeError,
            >(None),
            spec_collection_position(*position) is Some
                && spec_collection_position(*position)->0 is Some && object_type is Err
                ==> result == Err::<Option<I>, NativeError>(object_type->Err_0),
            spec_collection_position(*position) is Some
                && spec_collection_position(*position)->0 is Some && object_type is Ok
                && !self.spec_generation_active(generation) ==> result == Err::<
                Option<I>,
                NativeError,
            >(NativeError::Stale { operation: "collection_view_at" }),
            spec_collection_position(*position) is Some
                && spec_collection_position(*position)->0 is Some && object_type is Ok
                && self.spec_generation_active(generation) ==> exists|
                r: Result<Option<I>, SwmmError>,
            |
                call_ensures(
                    lookup,
                    (object_type->Ok_0, spec_collection_position(*position)->0->0),
                    r,
                ) && spec_attached(
                    "collection_view_at",
                    r,
                    result,
                ),
    {
        let at: usize = match position {
            PyValue::Int(i) => {
                if *i < 0 || *i > usize::MAX as i128 {
                    return Ok(None);
                }
                *i as usize
            },
            PyValue::BigInt { .. } => {
                return Ok(None);
            },
            _ => {
                return Err(type_error("index must be a non-boolean int"));
            },
        };
        let object_type = match object_type {
            Ok(o) => o,
            Err(error) => {
                return Err(error);
            },
        };
        if !self.generation_active(generation) {
            return Err(NativeError::Stale { operation: "collection_view_at" });
        }
        let ghost o = object_type;
        let found = lookup(object_type, at);
        let ghost r = found;
        let result = self.attached("collection_view_at", found);
        assert(call_ensures(lookup, (o, at), r) && spec_attached("collection_view_at", r, result));
        result
    }

    /// Returns whether a candidate key identifies a configured object.
    ///
    /// A key that is neither a `str` nor a non-boolean `int` (`Ok(None)`) identifies nothing.
    pub fn collection_contains<O, K, I, F: FnOnce(O, K) -> Result<Option<I>, SwmmError>>(
        &self,
        generation: u64,
        key: Result<Option<K>, NativeError>,
        object_type: Result<O, NativeError>,
        lookup: F,
    ) -> (result: Result<bool, NativeError>)
        requires
            forall|o: O, k: K| call_requires(lookup, (o, k)),
        ensures
            spec_collection_contains(*self, generation, key, object_type, lookup, result),
    {
        let key = match key {
            Ok(Some(k)) => k,
            Ok(None) => {
                return Ok(false);
            },
            Err(error) => {
                return Err(error);
            },
        };
        let object_type = match object_type {
            Ok(o) => o,
            Err(error) => {
                return Err(error);
            },
        };
        if !self.generation_active(generation) {
            return Err(NativeError::Stale { operation: "collection_contains" });
        }
        let ghost (o, k) = (object_type, key);
        let found = lookup(object_type, key);
        let ghost r = found;
        assert(call_ensures(lookup, (o, k), r));
        match found {
            Ok(identity) => Ok(identity.is_some()),
            Err(error) => Err(native_error("collection_contains", error)),
        }
    }

    /// Returns one family's configured logical count.
    pub fn collection_count<O, F: FnOnce(O) -> Result<usize, SwmmError>>(
        &self,
        generation: u64,
        object_type: Result<O, NativeError>,
        count: F,
    ) -> (result: Result<usize, NativeError>)
        requires
            forall|o: O| call_requires(count, (o,)),
        ensures
            spec_collection_read(*self, "collection_count", generation, object_type, count, result),
    {
        let object_type = match object_type {
            Ok(o) => o,
            Err(error) => {
                return Err(error);
            },
        };
        if !self.generation_active(generation) {
            return Err(NativeError::Stale { operation: "collection_count" });
        }
        let ghost o = object_type;
        let counted = count(object_type);
        let ghost r = counted;
        let result = self.attached("collection_count", counted);
        assert(call_ensures(count, (o,), r) && spec_attached("collection_count", r, result));
        result
    }

    /// Copies canonical IDs in configured logical order.
    pub fn collection_ids<O, F: FnOnce(O) -> Result<Vec<String>, SwmmError>>(
        &self,
        generation: u64,
        object_type: Result<O, NativeError>,
        ids: F,
    ) -> (result: Result<Vec<String>, NativeError>)
        requires
            forall|o: O| call_requires(ids, (o,)),
        ensures
            spec_collection_read(*self, "collection_ids", generation, object_type, ids, result),
    {
        let object_type = match object_type {
            Ok(o) => o,
            Err(error) => {
                return Err(error);
            },
        };
        if !self.generation_active(generation) {
            return Err(NativeError::Stale { operation: "collection_ids" });
        }
        let ghost o = object_type;
        let copied = ids(object_type);
        let ghost r = copied;
        let result = self.attached("collection_ids", copied);
        assert(call_ensures(ids, (o,), r) && spec_attached("collection_ids", r, result));
        result
    }

    /// Revalidates one captured Live View identity under the owner lock.
    ///
    /// `subtype` is the captured subtype label resolved for the family (`None` when it is not
    /// one of the family's subtypes).
    pub fn validate_identity<O, S, F: FnOnce(O, S) -> Result<bool, SwmmError>>(
        &self,
        generation: u64,
        object_type: Result<O, NativeError>,
        subtype: Option<S>,
        matches: F,
    ) -> (result: Result<(), NativeError>)
        requires
            forall|o: O, t: S| call_requires(matches, (o, t)),
        ensures
            object_type is Err ==> result == Err::<(), NativeError>(object_type->Err_0),
            object_type is Ok && subtype is None ==> result is Err && is_internal_error(
                result->Err_0,
                "validate_identity",
                "invalid private subtype"@,
            ),
            object_type is Ok && subtype is Some && !self.spec_generation_active(generation)
                ==> result == Err::<(), NativeError>(
                NativeError::Stale { operation: "validate_identity" },
            ),
            object_type is Ok && subtype is Some && self.spec_generation_active(generation)
                ==> exists|r: Result<bool, SwmmError>|
                {
                    &&& call_ensures(matches, (object_type->Ok_0, subtype->0), r)
                    &&& r == Ok::<bool, SwmmError>(true) ==> result == Ok::<(), NativeError>(())
                    &&& r == Ok::<bool, SwmmError>(false) ==> result == Err::<(), NativeError>(
                        NativeError::Stale { operation: "validate_identity" },
                    )
                    &&& r matches Err(e) ==> result == Err::<(), NativeError>(
                        NativeError::Native { operation: "validate_identity", error: e },
                    )
                },
    {
        let object_type = match object_type {
            Ok(o) => o,
            Err(error) => {
                return Err(error);
            },
        };
        let subtype = match subtype {
            Some(t) => t,
            None => {
                return Err(internal_error("validate_identity", "invalid private subtype"));
            },
        };
        if !self.generation_active(generation) {
            return Err(NativeError::Stale { operation: "validate_identity" });
        }
        let ghost (o, t) = (object_type, subtype);
        let matched = matches(object_type, subtype);
        let ghost r = matched;
        assert(call_ensures(matches, (o, t), r));
        match matched {
            Ok(true) => Ok(()),
            Ok(false) => Err(NativeError::Stale { operation: "validate_identity" }),
            Err(error) => Err(native_error("validate_identity", error)),
        }
    }

    /// Copies every supported option of the active Project Generation.
    pub fn options_read<T, F: FnOnce() -> Result<T, SwmmError>>(&self, generation: u64, read: F) -> (result:
        Result<T, NativeError>)
        requires
            call_requires(read, ()),
        ensures
            spec_options_read(*self, generation, read, result),
    {
        if !self.generation_active(generation) {
            return Err(NativeError::Stale { operation: "options_read" });
        }
        let values = read();
        let ghost r = values;
        let result = self.attached("options_read", values);
        assert(call_ensures(read, (), r) && spec_attached("options_read", r, result));
        result
    }

    /// Copies one selected option of the active Project Generation.
    ///
    /// An unknown field is refused after `validate` (the solver's whole-options read) so that
    /// a lifecycle failure keeps its precedence.
    pub fn option_value<
        T,
        V: FnOnce() -> Result<(), SwmmError>,
        R: FnOnce(SimulationOptionField) -> Result<T, SwmmError>,
    >(&self, generation: u64, field: &str, validate: V, read: R) -> (result: Result<
        T,
        NativeError,
    >)
        requires
            call_requires(validate, ()),
            forall|f: SimulationOptionField| call_requires(read, (f,)),
        ensures
            spec_option_value(*self, generation, field@, validate, read, result),
    {
        if !self.generation_active(generation) {
            return Err(NativeError::Stale { operation: "option_value" });
        }
        match simulation_option_field(field) {
            Some(selected) => {
                let value = read(selected);
                let ghost r = value;
                let result = self.attached("option_value", value);
                assert(call_ensures(read, (selected,), r) && spec_attached("option_value", r, result));
                result
            },
            None => {
                let checked = validate();
                let ghost v = checked;
                assert(call_ensures(validate, (), v));
                match checked {
                    Err(error) => Err(native_error("option_value", error)),
                    Ok(()) => Err(
                        native_error(
                            "option_value",
                            SwmmError::with_str(ErrorCode::System, "invalid private option field"),
                        ),
                    ),
                }
            },
        }
    }

    /// Atomically updates the coupled simulation schedule from raw Python values.
    ///
    /// The changes are validated before the owner is touched; `apply` runs only while
    /// `generation` is active.
    pub fn update_schedule<F: FnOnce(SimulationSchedulePatch) -> Reported<()>>(
        &mut self,
        generation: u64,
        changes: &Vec<(Option<String>, PyValue)>,
        apply: F,
    ) -> (result: Result<(), NativeError>)
        requires
            forall|p: SimulationSchedulePatch| call_requires(apply, (p,)),
        ensures
            spec_schedule_patch(changes@, changes@.len() as int) is Err ==> {
                &&& result is Err
                &&& is_property_error(
                    result->Err_0,
                    "update_schedule",
                    ErrorCode::ApiPropertyValue,
                    spec_schedule_patch(changes@, changes@.len() as int)->Err_0,
                )
                &&& *final(self) == *old(self)
            },
            spec_schedule_patch(changes@, changes@.len() as int) is Ok
                && !old(self).spec_generation_active(generation) ==> {
                &&& result == Err::<(), NativeError>(NativeError::Stale { operation: "update_schedule" })
                &&& *final(self) == *old(self)
            },
            spec_schedule_patch(changes@, changes@.len() as int) is Ok
                && old(self).spec_generation_active(generation) ==> exists|r: Reported<()>|
                {
                    &&& call_ensures(
                        apply,
                        (spec_schedule_patch(changes@, changes@.len() as int)->Ok_0,),
                        r,
                    )
                    &&& spec_attached("update_schedule", r.result, result)
                    &&& final(self).handle == (HandleState { lifecycle: r.lifecycle, ..old(self).handle })
                    &&& final(self).iterator_state == old(self).iterator_state
                    &&& final(self).test_concurrency == old(self).test_concurrency
                    &&& final(self).next_phase == old(self).next_phase
                },
            old(self).wf() ==> final(self).wf(),
    {
        let patch = match extract_schedule_patch(changes) {
            Ok(patch) => patch,
            Err(error) => {
                return Err(error);
            },
        };
        if !self.generation_active(generation) {
            return Err(NativeError::Stale { operation: "update_schedule" });
        }
        let ghost p = patch;
        let reported = apply(patch);
        let ghost r = reported;
        assert(call_ensures(apply, (p,), r));
        self.handle.lifecycle = reported.lifecycle;
        let result = self.attached("update_schedule", reported.result);
        assert(spec_attached("update_schedule", r.result, result));
        result
    }

    /// Atomically updates simulation policy from raw Python values.
    ///
    /// The changes are validated before the owner is touched; `apply` runs only while
    /// `generation` is active.
    pub fn update_options<F: FnOnce(SimulationOptionsPatch) -> Reported<()>>(
        &mut self,
        generation: u64,
        changes: &Vec<(Option<String>, PyValue)>,
        apply: F,
    ) -> (result: Result<(), NativeError>)
        requires
            forall|p: SimulationOptionsPatch| call_requires(apply, (p,)),
        ensures
            spec_options_patch(changes@, changes@.len() as int) is Err ==> {
                &&& result is Err
                &&& is_property_error(
                    result->Err_0,
                    "update_options",
                    ErrorCode::ApiPropertyValue,
                    spec_options_patch(changes@, changes@.len() as int)->Err_0,
                )
                &&& *final(self) == *old(self)
            },
            spec_options_patch(changes@, changes@.len() as int) is Ok
                && !old(self).spec_generation_active(generation) ==> {
                &&& result == Err::<(), NativeError>(NativeError::Stale { operation: "update_options" })
                &&& *final(self) == *old(self)
            },
            spec_options_patch(changes@, changes@.len() as int) is Ok
                && old(self).spec_generation_active(generation) ==> exists|r: Reported<()>|
                {
                    &&& call_ensures(
                        apply,
                        (spec_options_patch(changes@, changes@.len() as int)->Ok_0,),
                        r,
                    )
                    &&& spec_attached("update_options", r.result, result)
                    &&& final(self).handle == (HandleState { lifecycle: r.lifecycle, ..old(self).handle })
                    &&& final(self).iterator_state == old(self).iterator_state
                    &&& final(self).test_concurrency == old(self).test_concurrency
                    &&& final(self).next_phase == old(self).next_phase
                },
            old(self).wf() ==> final(self).wf(),
    {
        let patch = match extract_options_patch(changes) {
            Ok(patch) => patch,
            Err(error) => {
                return Err(error);
            },
        };
        if !self.generation_active(generation) {
            return Err(NativeError::Stale { operation: "update_options" });
        }
        let ghost p = patch;
        let reported = apply(patch);
        let ghost r = reported;
        assert(call_ensures(apply, (p,), r));
        self.handle.lifecycle = reported.lifecycle;
        let result = self.attached("update_options", reported.result);
        assert(spec_attached("update_options", r.result, result));
        result
    }

    /// Arranges for the solver's next timestep to fail, recording the lifecycle it reports.
    pub fn _force_timestep_error_for_test<F: FnOnce() -> Reported<()>>(&mut self, force: F) -> (result:
        Result<(), NativeError>)
        requires
            call_requires(force, ()),
        ensures
            exists|r: Reported<()>|
                {
                    &&& call_ensures(force, (), r)
                    &&& result == spec_detached_result(old(self).handle, "force_timestep_error", r)
                    &&& final(self).handle == spec_latched(
                        old(self).handle,
                        "force_timestep_error",
                        r.lifecycle,
                        r.result is Err,
                    )
                    &&& final(self).iterator_state == old(self).iterator_state
                    &&& final(self).test_concurrency == old(self).test_concurrency
                    &&& final(self).next_phase == old(self).next_phase
                },
            old(self).wf() ==> final(self).wf(),
    {
        let reported = force();
        let ghost r = reported;
        assert(call_ensures(force, (), r));
        self.detached("force_timestep_error", reported)
    }

    /// The outcome of a panic contained while the owner is held: a structured panic failure.
    pub fn _panic_for_test(&self) -> (result: Result<(), NativeError>)
        ensures
            result == Err::<(), NativeError>(NativeError::Panicked { operation: "panic_for_test" }),
    {
        Err(NativeError::Panicked { operation: "panic_for_test" })
    }

    /// Arms a deterministic pause inside the next owner-locked operation.
    pub fn _arm_owner_pause_for_test(&mut self)
        ensures
            final(self).test_concurrency == (TestConcurrencyState {
                pause_armed: true,
                paused: false,
                release_pause: false,
                ..old(self).test_concurrency
            }),
            final(self).handle == old(self).handle,
            final(self).iterator_state == old(self).iterator_state,
            final(self).next_phase == old(self).next_phase,
    {
        self.test_concurrency.arm_pause();
    }

    /// Releases the deterministic owner pause.
    pub fn _release_owner_pause_for_test(&mut self)
        ensures
            final(self).test_concurrency == (TestConcurrencyState {
                release_pause: true,
                ..old(self).test_concurrency
            }),
            final(self).handle == old(self).handle,
            final(self).iterator_state == old(self).iterator_state,
            final(self).next_phase == old(self).next_phase,
    {
        self.test_concurrency.release_pause();
    }

    /// Arms deterministic observation of the next owner acquisition.
    pub fn _arm_owner_probe_for_test(&mut self)
        ensures
            final(self).test_concurrency == (TestConcurrencyState {
                probe_armed: true,
                probe_waiting: false,
                probe_acquired: false,
                ..old(self).test_concurrency
            }),
            final(self).handle == old(self).handle,
            final(self).iterator_state == old(self).iterator_state,
            final(self).next_phase == old(self).next_phase,
    {
        self.test_concurrency.arm_probe();
    }

    /// Returns whether the observed operation acquired the owner lock.
    pub fn _owner_probe_acquired_for_test(&self) -> (acquired: bool)
        ensures
            acquired == self.test_concurrency.probe_acquired,
    {
        self.test_concurrency.probe_acquired()
    }
}

} // verus!
