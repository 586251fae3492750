use vstd::prelude::*;
use vstd::string::*;

use crate::error::NativeError;
use crate::fields::is_internal_error;
use crate::policy::{
    spec_empty_options_patch, spec_options_patch, SimulationOptionsPatch, spec_option_bool, spec_option_enum, spec_option_integer, spec_parse_custom_ellipse_model, spec_parse_inertia_damping, spec_parse_normal_flow_limit,
    spec_parse_surcharge_method, CustomEllipseModel, InertialDampingType, NormalFlowType,
    SurchargeMethodType,
};
use crate::text::{spec_ascii_lowercase, str_eq};
use crate::value::{PublicType, PyValue};

verus! {

/// Current link water quality: the pollutant ids and one value series per quantity, in
/// pollutant order.
#[derive(Debug)]
pub struct LinkQualityRead<V> {
    pub pollutant_ids: Vec<String>,
    pub concentrations: V,
    pub reactor_concentrations: V,
    pub total_loads: V,
}

/// The series that a private link quality field selects, if the field is known.
pub open spec fn spec_link_quality_mapping_series<V>(values: LinkQualityRead<V>, field: Seq<char>) -> Option<V> {
    if field == "concentrations"@ {
        Some(values.concentrations)
    } else if field == "reactor_concentrations"@ {
        Some(values.reactor_concentrations)
    } else if field == "total_loads"@ {
        Some(values.total_loads)
    } else {
        None
    }
}

/// Selects one link quality series with its pollutant ids.
pub fn link_quality_mapping<V>(values: LinkQualityRead<V>, field: &str) -> (mapping: Result<(Vec<String>, V), NativeError>)
    ensures
        match spec_link_quality_mapping_series(values, field@) {
            Some(series) => mapping == Ok::<(Vec<String>, V), NativeError>((values.pollutant_ids, series)),
            None => mapping is Err && is_internal_error(
                mapping->Err_0,
                "link_quality_mapping",
                "invalid private link quality field"@,
            ),
        },
{
    let LinkQualityRead { pollutant_ids, concentrations, reactor_concentrations, total_loads } = values;
    if str_eq(field, "concentrations") {
        Ok((pollutant_ids, concentrations))
    } else if str_eq(field, "reactor_concentrations") {
        Ok((pollutant_ids, reactor_concentrations))
    } else if str_eq(field, "total_loads") {
        Ok((pollutant_ids, total_loads))
    } else {
        Err(crate::error::internal_error("link_quality_mapping", "invalid private link quality field"))
    }
}

/// Current node water quality: the pollutant ids and one value series per quantity, in
/// pollutant order.
#[derive(Debug)]
pub struct NodeQualityRead<V> {
    pub pollutant_ids: Vec<String>,
    pub concentrations: V,
    pub inflow_concentrations: V,
    pub reactor_concentrations: V,
}

/// The series that a private node quality field selects, if the field is known.
pub open spec fn spec_node_quality_mapping_series<V>(values: NodeQualityRead<V>, field: Seq<char>) -> Option<V> {
    if field == "concentrations"@ {
        Some(values.concentrations)
    } else if field == "inflow_concentrations"@ {
        Some(values.inflow_concentrations)
    } else if field == "reactor_concentrations"@ {
        Some(values.reactor_concentrations)
    } else {
        None
    }
}

/// Selects one node quality series with its pollutant ids.
pub fn node_quality_mapping<V>(values: NodeQualityRead<V>, field: &str) -> (mapping: Result<(Vec<String>, V), NativeError>)
    ensures
        match spec_node_quality_mapping_series(values, field@) {
            Some(series) => mapping == Ok::<(Vec<String>, V), NativeError>((values.pollutant_ids, series)),
            None => mapping is Err && is_internal_error(
                mapping->Err_0,
                "node_quality_mapping",
                "invalid private node quality field"@,
            ),
        },
{
    let NodeQualityRead { pollutant_ids, concentrations, inflow_concentrations, reactor_concentrations } = values;
    if str_eq(field, "concentrations") {
        Ok((pollutant_ids, concentrations))
    } else if str_eq(field, "inflow_concentrations") {
        Ok((pollutant_ids, inflow_concentrations))
    } else if str_eq(field, "reactor_concentrations") {
        Ok((pollutant_ids, reactor_concentrations))
    } else {
        Err(crate::error::internal_error("node_quality_mapping", "invalid private node quality field"))
    }
}

/// Current subcatchment water quality: the pollutant ids and one value series per quantity, in
/// pollutant order.
#[derive(Debug)]
pub struct SubcatchmentQualityRead<V> {
    pub pollutant_ids: Vec<String>,
    pub runoff_concentrations: V,
    pub ponded_concentrations: V,
    pub buildup_loads: V,
    pub total_washoff_loads: V,
}

/// The series that a private subcatchment quality field selects, if the field is known.
pub open spec fn spec_subcatchment_quality_mapping_series<V>(values: SubcatchmentQualityRead<V>, field: Seq<char>) -> Option<V> {
    if field == "runoff_concentrations"@ {
        Some(values.runoff_concentrations)
    } else if field == "ponded_concentrations"@ {
        Some(values.ponded_concentrations)
    } else if field == "buildup_loads"@ {
        Some(values.buildup_loads)
    } else if field == "total_washoff_loads"@ {
        Some(values.total_washoff_loads)
    } else {
        None
    }
}

/// Selects one subcatchment quality series with its pollutant ids.
pub fn subcatchment_quality_mapping<V>(values: SubcatchmentQualityRead<V>, field: &str) -> (mapping: Result<(Vec<String>, V), NativeError>)
    ensures
        match spec_subcatchment_quality_mapping_series(values, field@) {
            Some(series) => mapping == Ok::<(Vec<String>, V), NativeError>((values.pollutant_ids, series)),
            None => mapping is Err && is_internal_error(
                mapping->Err_0,
                "subcatchment_quality_mapping",
                "invalid private subcatchment quality field"@,
            ),
        },
{
    let SubcatchmentQualityRead { pollutant_ids, runoff_concentrations, ponded_concentrations, buildup_loads, total_washoff_loads } = values;
    if str_eq(field, "runoff_concentrations") {
        Ok((pollutant_ids, runoff_concentrations))
    } else if str_eq(field, "ponded_concentrations") {
        Ok((pollutant_ids, ponded_concentrations))
    } else if str_eq(field, "buildup_loads") {
        Ok((pollutant_ids, buildup_loads))
    } else if str_eq(field, "total_washoff_loads") {
        Ok((pollutant_ids, total_washoff_loads))
    } else {
        Err(crate::error::internal_error("subcatchment_quality_mapping", "invalid private subcatchment quality field"))
    }
}

/// The public spelling of a CustomEllipseModel.
pub open spec fn spec_custom_ellipse_model_name(value: CustomEllipseModel) -> &'static str {
    match value {
        CustomEllipseModel::EpaLegacy => "epa_legacy",
        CustomEllipseModel::TrueEllipse => "true_ellipse",
    }
}

/// Returns the public spelling of a CustomEllipseModel.
pub fn custom_ellipse_model_name(value: CustomEllipseModel) -> (name: &'static str)
    ensures
        name == spec_custom_ellipse_model_name(value),
{
    match value {
        CustomEllipseModel::EpaLegacy => "epa_legacy",
        CustomEllipseModel::TrueEllipse => "true_ellipse",
    }
}

/// The public spelling of a SurchargeMethodType.
pub open spec fn spec_surcharge_method_name(value: SurchargeMethodType) -> &'static str {
    match value {
        SurchargeMethodType::Extran => "extran",
        SurchargeMethodType::Slot => "slot",
    }
}

/// Returns the public spelling of a SurchargeMethodType.
pub fn surcharge_method_name(value: SurchargeMethodType) -> (name: &'static str)
    ensures
        name == spec_surcharge_method_name(value),
{
    match value {
        SurchargeMethodType::Extran => "extran",
        SurchargeMethodType::Slot => "slot",
    }
}

/// The public spelling of a InertialDampingType.
pub open spec fn spec_inertia_damping_name(value: InertialDampingType) -> &'static str {
    match value {
        InertialDampingType::NoDamping => "none",
        InertialDampingType::PartialDamping => "partial",
        InertialDampingType::FullDamping => "full",
    }
}

/// Returns the public spelling of a InertialDampingType.
pub fn inertia_damping_name(value: InertialDampingType) -> (name: &'static str)
    ensures
        name == spec_inertia_damping_name(value),
{
    match value {
        InertialDampingType::NoDamping => "none",
        InertialDampingType::PartialDamping => "partial",
        InertialDampingType::FullDamping => "full",
    }
}

/// The public spelling of a NormalFlowType.
pub open spec fn spec_normal_flow_limit_name(value: NormalFlowType) -> &'static str {
    match value {
        NormalFlowType::Slope => "slope",
        NormalFlowType::Froude => "froude",
        NormalFlowType::Both => "both",
        NormalFlowType::Neither => "neither",
    }
}

/// Returns the public spelling of a NormalFlowType.
pub fn normal_flow_limit_name(value: NormalFlowType) -> (name: &'static str)
    ensures
        name == spec_normal_flow_limit_name(value),
{
    match value {
        NormalFlowType::Slope => "slope",
        NormalFlowType::Froude => "froude",
        NormalFlowType::Both => "both",
        NormalFlowType::Neither => "neither",
    }
}

/// Every categorical option reads back as the spelling that an update of that option accepts
/// for the same value.
pub proof fn lemma_option_spelling_round_trip(
    ellipse: CustomEllipseModel,
    surcharge: SurchargeMethodType,
    damping: InertialDampingType,
    normal: NormalFlowType,
)
    ensures
        spec_parse_custom_ellipse_model(spec_custom_ellipse_model_name(ellipse)@) == Some(ellipse),
        spec_parse_surcharge_method(spec_surcharge_method_name(surcharge)@) == Some(surcharge),
        spec_parse_inertia_damping(spec_inertia_damping_name(damping)@) == Some(damping),
        spec_parse_normal_flow_limit(spec_normal_flow_limit_name(normal)@) == Some(normal),
{
    match ellipse {
        CustomEllipseModel::EpaLegacy => {
            reveal_strlit("epa_legacy");
        },
        CustomEllipseModel::TrueEllipse => {
            reveal_strlit("true_ellipse");
            reveal_strlit("epa_legacy");
            assert("true_ellipse"@.len() != "epa_legacy"@.len());
        },
    }
    match surcharge {
        SurchargeMethodType::Extran => {
            reveal_strlit("extran");
        },
        SurchargeMethodType::Slot => {
            reveal_strlit("slot");
            reveal_strlit("extran");
            assert("slot"@.len() != "extran"@.len());
        },
    }
    match damping {
        InertialDampingType::NoDamping => {
            reveal_strlit("none");
        },
        InertialDampingType::PartialDamping => {
            reveal_strlit("partial");
            reveal_strlit("none");
            assert("partial"@.len() != "none"@.len());
        },
        InertialDampingType::FullDamping => {
            reveal_strlit("full");
            reveal_strlit("none");
            assert("full"@[0] != "none"@[0]);
            reveal_strlit("partial");
            assert("full"@.len() != "partial"@.len());
        },
    }
    match normal {
        NormalFlowType::Slope => {
            reveal_strlit("slope");
        },
        NormalFlowType::Froude => {
            reveal_strlit("froude");
            reveal_strlit("slope");
            assert("froude"@.len() != "slope"@.len());
        },
        NormalFlowType::Both => {
            reveal_strlit("both");
            reveal_strlit("slope");
            assert("both"@.len() != "slope"@.len());
            reveal_strlit("froude");
            assert("both"@.len() != "froude"@.len());
        },
        NormalFlowType::Neither => {
            reveal_strlit("neither");
            reveal_strlit("slope");
            assert("neither"@.len() != "slope"@.len());
            reveal_strlit("froude");
            assert("neither"@.len() != "froude"@.len());
            reveal_strlit("both");
            assert("neither"@.len() != "both"@.len());
        },
    }
}

/// ASCII lowercasing leaves a text with no ASCII uppercase letter unchanged.
pub proof fn lemma_lowercase_text_unchanged(s: Seq<char>)
    requires
        forall|i: int| 0 <= i < s.len() ==> !('A' <= #[trigger] s[i] && s[i] <= 'Z'),
    ensures
        spec_ascii_lowercase(s) == s,
{
    assert(spec_ascii_lowercase(s) =~= s);
}

/// Every categorical option's spelling survives ASCII lowercasing, so an update given the
/// spelling an options read gives (as a string or as the exported enum member) sets the same
/// value; a boolean option and an integer option read back as themselves too.
pub proof fn lemma_option_value_round_trip(
    ellipse: CustomEllipseModel,
    surcharge: SurchargeMethodType,
    damping: InertialDampingType,
    normal: NormalFlowType,
    flag: bool,
    count: i32,
    name: Seq<char>,
)
    ensures
        forall|t: String| t@ == spec_custom_ellipse_model_name(ellipse)@
            ==> #[trigger] spec_option_enum(PyValue::Str(t), name, PublicType::CustomEllipseModel) == Ok::<Seq<char>, Seq<char>>(t@),
        forall|t: String| t@ == spec_surcharge_method_name(surcharge)@
            ==> #[trigger] spec_option_enum(PyValue::Str(t), name, PublicType::SurchargeMethod) == Ok::<Seq<char>, Seq<char>>(t@),
        forall|t: String| t@ == spec_inertia_damping_name(damping)@
            ==> #[trigger] spec_option_enum(PyValue::Str(t), name, PublicType::InertiaDamping) == Ok::<Seq<char>, Seq<char>>(t@),
        forall|t: String| t@ == spec_normal_flow_limit_name(normal)@
            ==> #[trigger] spec_option_enum(PyValue::Str(t), name, PublicType::NormalFlowLimit) == Ok::<Seq<char>, Seq<char>>(t@),
        spec_parse_custom_ellipse_model(spec_ascii_lowercase(spec_custom_ellipse_model_name(ellipse)@)) == Some(ellipse),
        spec_parse_surcharge_method(spec_ascii_lowercase(spec_surcharge_method_name(surcharge)@)) == Some(surcharge),
        spec_parse_inertia_damping(spec_ascii_lowercase(spec_inertia_damping_name(damping)@)) == Some(damping),
        spec_parse_normal_flow_limit(spec_ascii_lowercase(spec_normal_flow_limit_name(normal)@)) == Some(normal),
        spec_option_bool(PyValue::Bool(flag), name) == Ok::<bool, Seq<char>>(flag),
        spec_option_integer(PyValue::Int(count as i128), name) == Ok::<i32, Seq<char>>(count),
{
    lemma_option_spelling_round_trip(ellipse, surcharge, damping, normal);
    reveal_strlit("epa_legacy");
    reveal_strlit("true_ellipse");
    reveal_strlit("extran");
    reveal_strlit("slot");
    reveal_strlit("none");
    reveal_strlit("partial");
    reveal_strlit("full");
    reveal_strlit("slope");
    reveal_strlit("froude");
    reveal_strlit("both");
    reveal_strlit("neither");
    lemma_lowercase_text_unchanged(spec_custom_ellipse_model_name(ellipse)@);
    lemma_lowercase_text_unchanged(spec_surcharge_method_name(surcharge)@);
    lemma_lowercase_text_unchanged(spec_inertia_damping_name(damping)@);
    lemma_lowercase_text_unchanged(spec_normal_flow_limit_name(normal)@);
}

/// An options update of one categorical, boolean or integer option, given the value an options
/// read gives for that option (a categorical option by its spelling), sets exactly that option
/// to that value and leaves every other option unset.
pub proof fn lemma_single_option_update(
    key: String,
    spelling: String,
    ellipse: CustomEllipseModel,
    surcharge: SurchargeMethodType,
    damping: InertialDampingType,
    normal: NormalFlowType,
    flag: bool,
    count: i32,
)
    ensures
        key@ == "detailed_reporting_enabled"@ ==> spec_options_patch(seq![(Some(key), PyValue::Bool(flag))], 1)
            == Ok::<SimulationOptionsPatch, Seq<char>>(SimulationOptionsPatch { detailed_reporting_enabled: Some(flag), ..spec_empty_options_patch() }),
        key@ == "custom_ellipse_model"@ && spelling@ == spec_custom_ellipse_model_name(ellipse)@ ==> spec_options_patch(seq![(Some(key), PyValue::Str(spelling))], 1)
            == Ok::<SimulationOptionsPatch, Seq<char>>(SimulationOptionsPatch { custom_ellipse_model: Some(ellipse), ..spec_empty_options_patch() }),
        key@ == "surcharge_method"@ && spelling@ == spec_surcharge_method_name(surcharge)@ ==> spec_options_patch(seq![(Some(key), PyValue::Str(spelling))], 1)
            == Ok::<SimulationOptionsPatch, Seq<char>>(SimulationOptionsPatch { surcharge_method: Some(surcharge), ..spec_empty_options_patch() }),
        key@ == "allow_ponding"@ ==> spec_options_patch(seq![(Some(key), PyValue::Bool(flag))], 1)
            == Ok::<SimulationOptionsPatch, Seq<char>>(SimulationOptionsPatch { allow_ponding: Some(flag), ..spec_empty_options_patch() }),
        key@ == "inertia_damping"@ && spelling@ == spec_inertia_damping_name(damping)@ ==> spec_options_patch(seq![(Some(key), PyValue::Str(spelling))], 1)
            == Ok::<SimulationOptionsPatch, Seq<char>>(SimulationOptionsPatch { inertia_damping: Some(damping), ..spec_empty_options_patch() }),
        key@ == "normal_flow_limit"@ && spelling@ == spec_normal_flow_limit_name(normal)@ ==> spec_options_patch(seq![(Some(key), PyValue::Str(spelling))], 1)
            == Ok::<SimulationOptionsPatch, Seq<char>>(SimulationOptionsPatch { normal_flow_limit: Some(normal), ..spec_empty_options_patch() }),
        key@ == "skip_steady_state"@ ==> spec_options_patch(seq![(Some(key), PyValue::Bool(flag))], 1)
            == Ok::<SimulationOptionsPatch, Seq<char>>(SimulationOptionsPatch { skip_steady_state: Some(flag), ..spec_empty_options_patch() }),
        key@ == "rainfall_enabled"@ ==> spec_options_patch(seq![(Some(key), PyValue::Bool(flag))], 1)
            == Ok::<SimulationOptionsPatch, Seq<char>>(SimulationOptionsPatch { rainfall_enabled: Some(flag), ..spec_empty_options_patch() }),
        key@ == "rdii_enabled"@ ==> spec_options_patch(seq![(Some(key), PyValue::Bool(flag))], 1)
            == Ok::<SimulationOptionsPatch, Seq<char>>(SimulationOptionsPatch { rdii_enabled: Some(flag), ..spec_empty_options_patch() }),
        key@ == "snowmelt_enabled"@ ==> spec_options_patch(seq![(Some(key), PyValue::Bool(flag))], 1)
            == Ok::<SimulationOptionsPatch, Seq<char>>(SimulationOptionsPatch { snowmelt_enabled: Some(flag), ..spec_empty_options_patch() }),
        key@ == "groundwater_enabled"@ ==> spec_options_patch(seq![(Some(key), PyValue::Bool(flag))], 1)
            == Ok::<SimulationOptionsPatch, Seq<char>>(SimulationOptionsPatch { groundwater_enabled: Some(flag), ..spec_empty_options_patch() }),
        key@ == "routing_enabled"@ ==> spec_options_patch(seq![(Some(key), PyValue::Bool(flag))], 1)
            == Ok::<SimulationOptionsPatch, Seq<char>>(SimulationOptionsPatch { routing_enabled: Some(flag), ..spec_empty_options_patch() }),
        key@ == "quality_enabled"@ ==> spec_options_patch(seq![(Some(key), PyValue::Bool(flag))], 1)
            == Ok::<SimulationOptionsPatch, Seq<char>>(SimulationOptionsPatch { quality_enabled: Some(flag), ..spec_empty_options_patch() }),
        key@ == "maximum_trials"@ ==> spec_options_patch(seq![(Some(key), PyValue::Int(count as i128))], 1)
            == Ok::<SimulationOptionsPatch, Seq<char>>(SimulationOptionsPatch { maximum_trials: Some(count), ..spec_empty_options_patch() }),
        key@ == "requested_threads"@ ==> spec_options_patch(seq![(Some(key), PyValue::Int(count as i128))], 1)
            == Ok::<SimulationOptionsPatch, Seq<char>>(SimulationOptionsPatch { requested_threads: Some(count), ..spec_empty_options_patch() }),
{
    lemma_option_value_round_trip(ellipse, surcharge, damping, normal, flag, count, key@);
    if key@ == "detailed_reporting_enabled"@ {
            let changes = seq![(Some(key), PyValue::Bool(flag))];
            assert(changes[0] == (Some(key), PyValue::Bool(flag)));
            assert(spec_options_patch(changes, 0) == Ok::<SimulationOptionsPatch, Seq<char>>(spec_empty_options_patch()));
            reveal_strlit("detailed_reporting_enabled");
            reveal_strlit("routing_step");
            assert("detailed_reporting_enabled"@.len() != "routing_step"@.len());
            reveal_strlit("report_step");
            assert("detailed_reporting_enabled"@.len() != "report_step"@.len());
    }
    if key@ == "custom_ellipse_model"@ {
            let changes = seq![(Some(key), PyValue::Str(spelling))];
            assert(changes[0] == (Some(key), PyValue::Str(spelling)));
            assert(spec_options_patch(changes, 0) == Ok::<SimulationOptionsPatch, Seq<char>>(spec_empty_options_patch()));
            reveal_strlit("custom_ellipse_model");
            reveal_strlit("routing_step");
            assert("custom_ellipse_model"@.len() != "routing_step"@.len());
            reveal_strlit("report_step");
            assert("custom_ellipse_model"@.len() != "report_step"@.len());
            reveal_strlit("detailed_reporting_enabled");
            assert("custom_ellipse_model"@.len() != "detailed_reporting_enabled"@.len());
    }
    if key@ == "surcharge_method"@ {
            let changes = seq![(Some(key), PyValue::Str(spelling))];
            assert(changes[0] == (Some(key), PyValue::Str(spelling)));
            assert(spec_options_patch(changes, 0) == Ok::<SimulationOptionsPatch, Seq<char>>(spec_empty_options_patch()));
            reveal_strlit("surcharge_method");
            reveal_strlit("routing_step");
            assert("surcharge_method"@.len() != "routing_step"@.len());
            reveal_strlit("report_step");
            assert("surcharge_method"@.len() != "report_step"@.len());
            reveal_strlit("detailed_reporting_enabled");
            assert("surcharge_method"@.len() != "detailed_reporting_enabled"@.len());
            reveal_strlit("custom_ellipse_model");
            assert("surcharge_method"@.len() != "custom_ellipse_model"@.len());
    }
    if key@ == "allow_ponding"@ {
            let changes = seq![(Some(key), PyValue::Bool(flag))];
            assert(changes[0] == (Some(key), PyValue::Bool(flag)));
            assert(spec_options_patch(changes, 0) == Ok::<SimulationOptionsPatch, Seq<char>>(spec_empty_options_patch()));
            reveal_strlit("allow_ponding");
            reveal_strlit("routing_step");
            assert("allow_ponding"@.len() != "routing_step"@.len());
            reveal_strlit("report_step");
            assert("allow_ponding"@.len() != "report_step"@.len());
            reveal_strlit("detailed_reporting_enabled");
            assert("allow_ponding"@.len() != "detailed_reporting_enabled"@.len());
            reveal_strlit("custom_ellipse_model");
            assert("allow_ponding"@.len() != "custom_ellipse_model"@.len());
            reveal_strlit("surcharge_method");
            assert("allow_ponding"@.len() != "surcharge_method"@.len());
    }
    if key@ == "inertia_damping"@ {
            let changes = seq![(Some(key), PyValue::Str(spelling))];
            assert(changes[0] == (Some(key), PyValue::Str(spelling)));
            assert(spec_options_patch(changes, 0) == Ok::<SimulationOptionsPatch, Seq<char>>(spec_empty_options_patch()));
            reveal_strlit("inertia_damping");
            reveal_strlit("routing_step");
            assert("inertia_damping"@.len() != "routing_step"@.len());
            reveal_strlit("report_step");
            assert("inertia_damping"@.len() != "report_step"@.len());
            reveal_strlit("detailed_reporting_enabled");
            assert("inertia_damping"@.len() != "detailed_reporting_enabled"@.len());
            reveal_strlit("custom_ellipse_model");
            assert("inertia_damping"@.len() != "custom_ellipse_model"@.len());
            reveal_strlit("surcharge_method");
            assert("inertia_damping"@.len() != "surcharge_method"@.len());
            reveal_strlit("allow_ponding");
            assert("inertia_damping"@.len() != "allow_ponding"@.len());
    }
    if key@ == "normal_flow_limit"@ {
            let changes = seq![(Some(key), PyValue::Str(spelling))];
            assert(changes[0] == (Some(key), PyValue::Str(spelling)));
            assert(spec_options_patch(changes, 0) == Ok::<SimulationOptionsPatch, Seq<char>>(spec_empty_options_patch()));
            reveal_strlit("normal_flow_limit");
            reveal_strlit("routing_step");
            assert("normal_flow_limit"@.len() != "routing_step"@.len());
            reveal_strlit("report_step");
            assert("normal_flow_limit"@.len() != "report_step"@.len());
            reveal_strlit("detailed_reporting_enabled");
            assert("normal_flow_limit"@.len() != "detailed_reporting_enabled"@.len());
            reveal_strlit("custom_ellipse_model");
            assert("normal_flow_limit"@.len() != "custom_ellipse_model"@.len());
            reveal_strlit("surcharge_method");
            assert("normal_flow_limit"@.len() != "surcharge_method"@.len());
            reveal_strlit("allow_ponding");
            assert("normal_flow_limit"@.len() != "allow_ponding"@.len());
            reveal_strlit("inertia_damping");
            assert("normal_flow_limit"@.len() != "inertia_damping"@.len());
    }
    if key@ == "skip_steady_state"@ {
            let changes = seq![(Some(key), PyValue::Bool(flag))];
            assert(changes[0] == (Some(key), PyValue::Bool(flag)));
            assert(spec_options_patch(changes, 0) == Ok::<SimulationOptionsPatch, Seq<char>>(spec_empty_options_patch()));
            reveal_strlit("skip_steady_state");
            reveal_strlit("routing_step");
            assert("skip_steady_state"@.len() != "routing_step"@.len());
            reveal_strlit("report_step");
            assert("skip_steady_state"@.len() != "report_step"@.len());
            reveal_strlit("detailed_reporting_enabled");
            assert("skip_steady_state"@.len() != "detailed_reporting_enabled"@.len());
            reveal_strlit("custom_ellipse_model");
            assert("skip_steady_state"@.len() != "custom_ellipse_model"@.len());
            reveal_strlit("surcharge_method");
            assert("skip_steady_state"@.len() != "surcharge_method"@.len());
            reveal_strlit("allow_ponding");
            assert("skip_steady_state"@.len() != "allow_ponding"@.len());
            reveal_strlit("inertia_damping");
            assert("skip_steady_state"@.len() != "inertia_damping"@.len());
            reveal_strlit("normal_flow_limit");
            assert("skip_steady_state"@ != "normal_flow_limit"@) by { assert("skip_steady_state"@[0] != "normal_flow_limit"@[0]); }
    }
    if key@ == "rainfall_enabled"@ {
            let changes = seq![(Some(key), PyValue::Bool(flag))];
            assert(changes[0] == (Some(key), PyValue::Bool(flag)));
            assert(spec_options_patch(changes, 0) == Ok::<SimulationOptionsPatch, Seq<char>>(spec_empty_options_patch()));
            reveal_strlit("rainfall_enabled");
            reveal_strlit("routing_step");
            assert("rainfall_enabled"@.len() != "routing_step"@.len());
            reveal_strlit("report_step");
            assert("rainfall_enabled"@.len() != "report_step"@.len());
            reveal_strlit("detailed_reporting_enabled");
            assert("rainfall_enabled"@.len() != "detailed_reporting_enabled"@.len());
            reveal_strlit("custom_ellipse_model");
            assert("rainfall_enabled"@.len() != "custom_ellipse_model"@.len());
            reveal_strlit("surcharge_method");
            assert("rainfall_enabled"@ != "surcharge_method"@) by { assert("rainfall_enabled"@[0] != "surcharge_method"@[0]); }
            reveal_strlit("allow_ponding");
            assert("rainfall_enabled"@.len() != "allow_ponding"@.len());
            reveal_strlit("inertia_damping");
            assert("rainfall_enabled"@.len() != "inertia_damping"@.len());
            reveal_strlit("normal_flow_limit");
            assert("rainfall_enabled"@.len() != "normal_flow_limit"@.len());
            reveal_strlit("skip_steady_state");
            assert("rainfall_enabled"@.len() != "skip_steady_state"@.len());
    }
    if key@ == "rdii_enabled"@ {
            let changes = seq![(Some(key), PyValue::Bool(flag))];
            assert(changes[0] == (Some(key), PyValue::Bool(flag)));
            assert(spec_options_patch(changes, 0) == Ok::<SimulationOptionsPatch, Seq<char>>(spec_empty_options_patch()));
            reveal_strlit("rdii_enabled");
            reveal_strlit("routing_step");
            assert("rdii_enabled"@ != "routing_step"@) by { assert("rdii_enabled"@[1] != "routing_step"@[1]); }
            reveal_strlit("report_step");
            assert("rdii_enabled"@.len() != "report_step"@.len());
            reveal_strlit("detailed_reporting_enabled");
            assert("rdii_enabled"@.len() != "detailed_reporting_enabled"@.len());
            reveal_strlit("custom_ellipse_model");
            assert("rdii_enabled"@.len() != "custom_ellipse_model"@.len());
            reveal_strlit("surcharge_method");
            assert("rdii_enabled"@.len() != "surcharge_method"@.len());
            reveal_strlit("allow_ponding");
            assert("rdii_enabled"@.len() != "allow_ponding"@.len());
            reveal_strlit("inertia_damping");
            assert("rdii_enabled"@.len() != "inertia_damping"@.len());
            reveal_strlit("normal_flow_limit");
            assert("rdii_enabled"@.len() != "normal_flow_limit"@.len());
            reveal_strlit("skip_steady_state");
            assert("rdii_enabled"@.len() != "skip_steady_state"@.len());
            reveal_strlit("rainfall_enabled");
            assert("rdii_enabled"@.len() != "rainfall_enabled"@.len());
    }
    if key@ == "snowmelt_enabled"@ {
            let changes = seq![(Some(key), PyValue::Bool(flag))];
            assert(changes[0] == (Some(key), PyValue::Bool(flag)));
            assert(spec_options_patch(changes, 0) == Ok::<SimulationOptionsPatch, Seq<char>>(spec_empty_options_patch()));
            reveal_strlit("snowmelt_enabled");
            reveal_strlit("routing_step");
            assert("snowmelt_enabled"@.len() != "routing_step"@.len());
            reveal_strlit("report_step");
            assert("snowmelt_enabled"@.len() != "report_step"@.len());
            reveal_strlit("detailed_reporting_enabled");
            assert("snowmelt_enabled"@.len() != "detailed_reporting_enabled"@.len());
            reveal_strlit("custom_ellipse_model");
            assert("snowmelt_enabled"@.len() != "custom_ellipse_model"@.len());
            reveal_strlit("surcharge_method");
            assert("snowmelt_enabled"@ != "surcharge_method"@) by { assert("snowmelt_enabled"@[1] != "surcharge_method"@[1]); }
            reveal_strlit("allow_ponding");
            assert("snowmelt_enabled"@.len() != "allow_ponding"@.len());
            reveal_strlit("inertia_damping");
            assert("snowmelt_enabled"@.len() != "inertia_damping"@.len());
            reveal_strlit("normal_flow_limit");
            assert("snowmelt_enabled"@.len() != "normal_flow_limit"@.len());
            reveal_strlit("skip_steady_state");
            assert("snowmelt_enabled"@.len() != "skip_steady_state"@.len());
            reveal_strlit("rainfall_enabled");
            assert("snowmelt_enabled"@ != "rainfall_enabled"@) by { assert("snowmelt_enabled"@[0] != "rainfall_enabled"@[0]); }
            reveal_strlit("rdii_enabled");
            assert("snowmelt_enabled"@.len() != "rdii_enabled"@.len());
    }
    if key@ == "groundwater_enabled"@ {
            let changes = seq![(Some(key), PyValue::Bool(flag))];
            assert(changes[0] == (Some(key), PyValue::Bool(flag)));
            assert(spec_options_patch(changes, 0) == Ok::<SimulationOptionsPatch, Seq<char>>(spec_empty_options_patch()));
            reveal_strlit("groundwater_enabled");
            reveal_strlit("routing_step");
            assert("groundwater_enabled"@.len() != "routing_step"@.len());
            reveal_strlit("report_step");
            assert("groundwater_enabled"@.len() != "report_step"@.len());
            reveal_strlit("detailed_reporting_enabled");
            assert("groundwater_enabled"@.len() != "detailed_reporting_enabled"@.len());
            reveal_strlit("custom_ellipse_model");
            assert("groundwater_enabled"@.len() != "custom_ellipse_model"@.len());
            reveal_strlit("surcharge_method");
            assert("groundwater_enabled"@.len() != "surcharge_method"@.len());
            reveal_strlit("allow_ponding");
            assert("groundwater_enabled"@.len() != "allow_ponding"@.len());
            reveal_strlit("inertia_damping");
            assert("groundwater_enabled"@.len() != "inertia_damping"@.len());
            reveal_strlit("normal_flow_limit");
            assert("groundwater_enabled"@.len() != "normal_flow_limit"@.len());
            reveal_strlit("skip_steady_state");
            assert("groundwater_enabled"@.len() != "skip_steady_state"@.len());
            reveal_strlit("rainfall_enabled");
            assert("groundwater_enabled"@.len() != "rainfall_enabled"@.len());
            reveal_strlit("rdii_enabled");
            assert("groundwater_enabled"@.len() != "rdii_enabled"@.len());
            reveal_strlit("snowmelt_enabled");
            assert("groundwater_enabled"@.len() != "snowmelt_enabled"@.len());
    }
    if key@ == "routing_enabled"@ {
            let changes = seq![(Some(key), PyValue::Bool(flag))];
            assert(changes[0] == (Some(key), PyValue::Bool(flag)));
            assert(spec_options_patch(changes, 0) == Ok::<SimulationOptionsPatch, Seq<char>>(spec_empty_options_patch()));
            reveal_strlit("routing_enabled");
            reveal_strlit("routing_step");
            assert("routing_enabled"@.len() != "routing_step"@.len());
            reveal_strlit("report_step");
            assert("routing_enabled"@.len() != "report_step"@.len());
            reveal_strlit("detailed_reporting_enabled");
            assert("routing_enabled"@.len() != "detailed_reporting_enabled"@.len());
            reveal_strlit("custom_ellipse_model");
            assert("routing_enabled"@.len() != "custom_ellipse_model"@.len());
            reveal_strlit("surcharge_method");
            assert("routing_enabled"@.len() != "surcharge_method"@.len());
            reveal_strlit("allow_ponding");
            assert("routing_enabled"@.len() != "allow_ponding"@.len());
            reveal_strlit("inertia_damping");
            assert("routing_enabled"@ != "inertia_damping"@) by { assert("routing_enabled"@[0] != "inertia_damping"@[0]); }
            reveal_strlit("normal_flow_limit");
            assert("routing_enabled"@.len() != "normal_flow_limit"@.len());
            reveal_strlit("skip_steady_state");
            assert("routing_enabled"@.len() != "skip_steady_state"@.len());
            reveal_strlit("rainfall_enabled");
            assert("routing_enabled"@.len() != "rainfall_enabled"@.len());
            reveal_strlit("rdii_enabled");
            assert("routing_enabled"@.len() != "rdii_enabled"@.len());
            reveal_strlit("snowmelt_enabled");
            assert("routing_enabled"@.len() != "snowmelt_enabled"@.len());
            reveal_strlit("groundwater_enabled");
            assert("routing_enabled"@.len() != "groundwater_enabled"@.len());
    }
    if key@ == "quality_enabled"@ {
            let changes = seq![(Some(key), PyValue::Bool(flag))];
            assert(changes[0] == (Some(key), PyValue::Bool(flag)));
            assert(spec_options_patch(changes, 0) == Ok::<SimulationOptionsPatch, Seq<char>>(spec_empty_options_patch()));
            reveal_strlit("quality_enabled");
            reveal_strlit("routing_step");
            assert("quality_enabled"@.len() != "routing_step"@.len());
            reveal_strlit("report_step");
            assert("quality_enabled"@.len() != "report_step"@.len());
            reveal_strlit("detailed_reporting_enabled");
            assert("quality_enabled"@.len() != "detailed_reporting_enabled"@.len());
            reveal_strlit("custom_ellipse_model");
            assert("quality_enabled"@.len() != "custom_ellipse_model"@.len());
            reveal_strlit("surcharge_method");
            assert("quality_enabled"@.len() != "surcharge_method"@.len());
            reveal_strlit("allow_ponding");
            assert("quality_enabled"@.len() != "allow_ponding"@.len());
            reveal_strlit("inertia_damping");
            assert("quality_enabled"@ != "inertia_damping"@) by { assert("quality_enabled"@[0] != "inertia_damping"@[0]); }
            reveal_strlit("normal_flow_limit");
            assert("quality_enabled"@.len() != "normal_flow_limit"@.len());
            reveal_strlit("skip_steady_state");
            assert("quality_enabled"@.len() != "skip_steady_state"@.len());
            reveal_strlit("rainfall_enabled");
            assert("quality_enabled"@.len() != "rainfall_enabled"@.len());
            reveal_strlit("rdii_enabled");
            assert("quality_enabled"@.len() != "rdii_enabled"@.len());
            reveal_strlit("snowmelt_enabled");
            assert("quality_enabled"@.len() != "snowmelt_enabled"@.len());
            reveal_strlit("groundwater_enabled");
            assert("quality_enabled"@.len() != "groundwater_enabled"@.len());
            reveal_strlit("routing_enabled");
            assert("quality_enabled"@ != "routing_enabled"@) by { assert("quality_enabled"@[0] != "routing_enabled"@[0]); }
    }
    if key@ == "maximum_trials"@ {
            let changes = seq![(Some(key), PyValue::Int(count as i128))];
            assert(changes[0] == (Some(key), PyValue::Int(count as i128)));
            assert(spec_options_patch(changes, 0) == Ok::<SimulationOptionsPatch, Seq<char>>(spec_empty_options_patch()));
            reveal_strlit("maximum_trials");
            reveal_strlit("routing_step");
            assert("maximum_trials"@.len() != "routing_step"@.len());
            reveal_strlit("report_step");
            assert("maximum_trials"@.len() != "report_step"@.len());
            reveal_strlit("detailed_reporting_enabled");
            assert("maximum_trials"@.len() != "detailed_reporting_enabled"@.len());
            reveal_strlit("custom_ellipse_model");
            assert("maximum_trials"@.len() != "custom_ellipse_model"@.len());
            reveal_strlit("surcharge_method");
            assert("maximum_trials"@.len() != "surcharge_method"@.len());
            reveal_strlit("allow_ponding");
            assert("maximum_trials"@.len() != "allow_ponding"@.len());
            reveal_strlit("inertia_damping");
            assert("maximum_trials"@.len() != "inertia_damping"@.len());
            reveal_strlit("normal_flow_limit");
            assert("maximum_trials"@.len() != "normal_flow_limit"@.len());
            reveal_strlit("skip_steady_state");
            assert("maximum_trials"@.len() != "skip_steady_state"@.len());
            reveal_strlit("rainfall_enabled");
            assert("maximum_trials"@.len() != "rainfall_enabled"@.len());
            reveal_strlit("rdii_enabled");
            assert("maximum_trials"@.len() != "rdii_enabled"@.len());
            reveal_strlit("snowmelt_enabled");
            assert("maximum_trials"@.len() != "snowmelt_enabled"@.len());
            reveal_strlit("groundwater_enabled");
            assert("maximum_trials"@.len() != "groundwater_enabled"@.len());
            reveal_strlit("routing_enabled");
            assert("maximum_trials"@.len() != "routing_enabled"@.len());
            reveal_strlit("quality_enabled");
            assert("maximum_trials"@.len() != "quality_enabled"@.len());
            reveal_strlit("rule_step");
            assert("maximum_trials"@.len() != "rule_step"@.len());
            reveal_strlit("sweep_start");
            assert("maximum_trials"@.len() != "sweep_start"@.len());
            reveal_strlit("sweep_end");
            assert("maximum_trials"@.len() != "sweep_end"@.len());
    }
    if key@ == "requested_threads"@ {
            let changes = seq![(Some(key), PyValue::Int(count as i128))];
            assert(changes[0] == (Some(key), PyValue::Int(count as i128)));
            assert(spec_options_patch(changes, 0) == Ok::<SimulationOptionsPatch, Seq<char>>(spec_empty_options_patch()));
            reveal_strlit("requested_threads");
            reveal_strlit("routing_step");
            assert("requested_threads"@.len() != "routing_step"@.len());
            reveal_strlit("report_step");
            assert("requested_threads"@.len() != "report_step"@.len());
            reveal_strlit("detailed_reporting_enabled");
            assert("requested_threads"@.len() != "detailed_reporting_enabled"@.len());
            reveal_strlit("custom_ellipse_model");
            assert("requested_threads"@.len() != "custom_ellipse_model"@.len());
            reveal_strlit("surcharge_method");
            assert("requested_threads"@.len() != "surcharge_method"@.len());
            reveal_strlit("allow_ponding");
            assert("requested_threads"@.len() != "allow_ponding"@.len());
            reveal_strlit("inertia_damping");
            assert("requested_threads"@.len() != "inertia_damping"@.len());
            reveal_strlit("normal_flow_limit");
            assert("requested_threads"@ != "normal_flow_limit"@) by { assert("requested_threads"@[0] != "normal_flow_limit"@[0]); }
            reveal_strlit("skip_steady_state");
            assert("requested_threads"@ != "skip_steady_state"@) by { assert("requested_threads"@[0] != "skip_steady_state"@[0]); }
            reveal_strlit("rainfall_enabled");
            assert("requested_threads"@.len() != "rainfall_enabled"@.len());
            reveal_strlit("rdii_enabled");
            assert("requested_threads"@.len() != "rdii_enabled"@.len());
            reveal_strlit("snowmelt_enabled");
            assert("requested_threads"@.len() != "snowmelt_enabled"@.len());
            reveal_strlit("groundwater_enabled");
            assert("requested_threads"@.len() != "groundwater_enabled"@.len());
            reveal_strlit("routing_enabled");
            assert("requested_threads"@.len() != "routing_enabled"@.len());
            reveal_strlit("quality_enabled");
            assert("requested_threads"@.len() != "quality_enabled"@.len());
            reveal_strlit("rule_step");
            assert("requested_threads"@.len() != "rule_step"@.len());
            reveal_strlit("sweep_start");
            assert("requested_threads"@.len() != "sweep_start"@.len());
            reveal_strlit("sweep_end");
            assert("requested_threads"@.len() != "sweep_end"@.len());
            reveal_strlit("maximum_trials");
            assert("requested_threads"@.len() != "maximum_trials"@.len());
    }
}

} // verus!
