use vstd::prelude::*;
use vstd::string::*;

use crate::error::{internal_error, is_property_error, property_error, ErrorCode, NativeError};
use crate::text::str_eq;
use crate::value::{PublicType, PyValue};

verus! {

/// True when `raised` is an internal-protocol failure of `operation` with exactly `detail`.
pub open spec fn is_internal_error(raised: NativeError, operation: &'static str, detail: Seq<char>) -> bool {
    match raised {
        NativeError::Internal { operation: o, detail: d } => o == operation && d@ == detail,
        _ => false,
    }
}

/// A link configuration selector.
#[derive(Clone, Copy, Debug, PartialEq, Eq, Structural)]
pub enum LinkConfigurationField {
    Tag,
    InletNode,
    OutletNode,
    FlowDirection,
    FullDepth,
    FullFlow,
    IncludedInReport,
    InletOffset,
    OutletOffset,
    InitialFlow,
    FlowLimit,
    InletLossCoefficient,
    OutletLossCoefficient,
    AverageLossCoefficient,
    SeepageRate,
    HasFlapGate,
    ConduitLength,
    ConduitRoughness,
    ConduitBarrels,
    ConduitCrossSection,
    ConduitSlope,
    PumpCurve,
    PumpInitialSetting,
    PumpStartupDepth,
    PumpShutoffDepth,
    OrificeKind,
    OrificeDischargeCoefficient,
    OrificeOpeningTimeHours,
    WeirKind,
    WeirDischargeCoefficient,
    WeirEndDischargeCoefficient,
    WeirEndContractions,
    WeirCanSurcharge,
    WeirRoadwayWidth,
    WeirRoadwaySurface,
    WeirCoefficientCurve,
    OutletRating,
}

/// The selector named by a private field name, if any.
pub open spec fn spec_link_configuration_field(name: Seq<char>) -> Option<LinkConfigurationField> {
    if name == "tag"@ {
        Some(LinkConfigurationField::Tag)
    } else if name == "inlet_node"@ {
        Some(LinkConfigurationField::InletNode)
    } else if name == "outlet_node"@ {
        Some(LinkConfigurationField::OutletNode)
    } else if name == "flow_direction"@ {
        Some(LinkConfigurationField::FlowDirection)
    } else if name == "full_depth"@ {
        Some(LinkConfigurationField::FullDepth)
    } else if name == "full_flow"@ {
        Some(LinkConfigurationField::FullFlow)
    } else if name == "included_in_report"@ {
        Some(LinkConfigurationField::IncludedInReport)
    } else if name == "inlet_offset"@ {
        Some(LinkConfigurationField::InletOffset)
    } else if name == "outlet_offset"@ {
        Some(LinkConfigurationField::OutletOffset)
    } else if name == "initial_flow"@ {
        Some(LinkConfigurationField::InitialFlow)
    } else if name == "flow_limit"@ {
        Some(LinkConfigurationField::FlowLimit)
    } else if name == "inlet_loss_coefficient"@ {
        Some(LinkConfigurationField::InletLossCoefficient)
    } else if name == "outlet_loss_coefficient"@ {
        Some(LinkConfigurationField::OutletLossCoefficient)
    } else if name == "average_loss_coefficient"@ {
        Some(LinkConfigurationField::AverageLossCoefficient)
    } else if name == "seepage_rate"@ {
        Some(LinkConfigurationField::SeepageRate)
    } else if name == "has_flap_gate"@ {
        Some(LinkConfigurationField::HasFlapGate)
    } else if name == "length"@ {
        Some(LinkConfigurationField::ConduitLength)
    } else if name == "roughness"@ {
        Some(LinkConfigurationField::ConduitRoughness)
    } else if name == "barrels"@ {
        Some(LinkConfigurationField::ConduitBarrels)
    } else if name == "cross_section"@ {
        Some(LinkConfigurationField::ConduitCrossSection)
    } else if name == "slope"@ {
        Some(LinkConfigurationField::ConduitSlope)
    } else if name == "curve"@ {
        Some(LinkConfigurationField::PumpCurve)
    } else if name == "initial_setting"@ {
        Some(LinkConfigurationField::PumpInitialSetting)
    } else if name == "startup_depth"@ {
        Some(LinkConfigurationField::PumpStartupDepth)
    } else if name == "shutoff_depth"@ {
        Some(LinkConfigurationField::PumpShutoffDepth)
    } else if name == "orifice_kind"@ {
        Some(LinkConfigurationField::OrificeKind)
    } else if name == "orifice_discharge_coefficient"@ {
        Some(LinkConfigurationField::OrificeDischargeCoefficient)
    } else if name == "opening_time_hours"@ {
        Some(LinkConfigurationField::OrificeOpeningTimeHours)
    } else if name == "weir_kind"@ {
        Some(LinkConfigurationField::WeirKind)
    } else if name == "weir_discharge_coefficient"@ {
        Some(LinkConfigurationField::WeirDischargeCoefficient)
    } else if name == "end_discharge_coefficient"@ {
        Some(LinkConfigurationField::WeirEndDischargeCoefficient)
    } else if name == "end_contractions"@ {
        Some(LinkConfigurationField::WeirEndContractions)
    } else if name == "can_surcharge"@ {
        Some(LinkConfigurationField::WeirCanSurcharge)
    } else if name == "roadway_width"@ {
        Some(LinkConfigurationField::WeirRoadwayWidth)
    } else if name == "roadway_surface"@ {
        Some(LinkConfigurationField::WeirRoadwaySurface)
    } else if name == "coefficient_curve"@ {
        Some(LinkConfigurationField::WeirCoefficientCurve)
    } else if name == "rating"@ {
        Some(LinkConfigurationField::OutletRating)
    } else {
        None
    }
}

/// Resolves one private link setting name to its typed selector.
pub fn link_configuration_field(name: &str) -> (field: Result<LinkConfigurationField, NativeError>)
    ensures
        match spec_link_configuration_field(name@) {
            Some(f) => field == Ok::<LinkConfigurationField, NativeError>(f),
            None => field is Err && is_internal_error(
                field->Err_0,
                "link_configuration_value",
                "invalid private link configuration field"@,
            ),
        },
{
    if str_eq(name, "tag") {
        Ok(LinkConfigurationField::Tag)
    } else if str_eq(name, "inlet_node") {
        Ok(LinkConfigurationField::InletNode)
    } else if str_eq(name, "outlet_node") {
        Ok(LinkConfigurationField::OutletNode)
    } else if str_eq(name, "flow_direction") {
        Ok(LinkConfigurationField::FlowDirection)
    } else if str_eq(name, "full_depth") {
        Ok(LinkConfigurationField::FullDepth)
    } else if str_eq(name, "full_flow") {
        Ok(LinkConfigurationField::FullFlow)
    } else if str_eq(name, "included_in_report") {
        Ok(LinkConfigurationField::IncludedInReport)
    } else if str_eq(name, "inlet_offset") {
        Ok(LinkConfigurationField::InletOffset)
    } else if str_eq(name, "outlet_offset") {
        Ok(LinkConfigurationField::OutletOffset)
    } else if str_eq(name, "initial_flow") {
        Ok(LinkConfigurationField::InitialFlow)
    } else if str_eq(name, "flow_limit") {
        Ok(LinkConfigurationField::FlowLimit)
    } else if str_eq(name, "inlet_loss_coefficient") {
        Ok(LinkConfigurationField::InletLossCoefficient)
    } else if str_eq(name, "outlet_loss_coefficient") {
        Ok(LinkConfigurationField::OutletLossCoefficient)
    } else if str_eq(name, "average_loss_coefficient") {
        Ok(LinkConfigurationField::AverageLossCoefficient)
    } else if str_eq(name, "seepage_rate") {
        Ok(LinkConfigurationField::SeepageRate)
    } else if str_eq(name, "has_flap_gate") {
        Ok(LinkConfigurationField::HasFlapGate)
    } else if str_eq(name, "length") {
        Ok(LinkConfigurationField::ConduitLength)
    } else if str_eq(name, "roughness") {
        Ok(LinkConfigurationField::ConduitRoughness)
    } else if str_eq(name, "barrels") {
        Ok(LinkConfigurationField::ConduitBarrels)
    } else if str_eq(name, "cross_section") {
        Ok(LinkConfigurationField::ConduitCrossSection)
    } else if str_eq(name, "slope") {
        Ok(LinkConfigurationField::ConduitSlope)
    } else if str_eq(name, "curve") {
        Ok(LinkConfigurationField::PumpCurve)
    } else if str_eq(name, "initial_setting") {
        Ok(LinkConfigurationField::PumpInitialSetting)
    } else if str_eq(name, "startup_depth") {
        Ok(LinkConfigurationField::PumpStartupDepth)
    } else if str_eq(name, "shutoff_depth") {
        Ok(LinkConfigurationField::PumpShutoffDepth)
    } else if str_eq(name, "orifice_kind") {
        Ok(LinkConfigurationField::OrificeKind)
    } else if str_eq(name, "orifice_discharge_coefficient") {
        Ok(LinkConfigurationField::OrificeDischargeCoefficient)
    } else if str_eq(name, "opening_time_hours") {
        Ok(LinkConfigurationField::OrificeOpeningTimeHours)
    } else if str_eq(name, "weir_kind") {
        Ok(LinkConfigurationField::WeirKind)
    } else if str_eq(name, "weir_discharge_coefficient") {
        Ok(LinkConfigurationField::WeirDischargeCoefficient)
    } else if str_eq(name, "end_discharge_coefficient") {
        Ok(LinkConfigurationField::WeirEndDischargeCoefficient)
    } else if str_eq(name, "end_contractions") {
        Ok(LinkConfigurationField::WeirEndContractions)
    } else if str_eq(name, "can_surcharge") {
        Ok(LinkConfigurationField::WeirCanSurcharge)
    } else if str_eq(name, "roadway_width") {
        Ok(LinkConfigurationField::WeirRoadwayWidth)
    } else if str_eq(name, "roadway_surface") {
        Ok(LinkConfigurationField::WeirRoadwaySurface)
    } else if str_eq(name, "coefficient_curve") {
        Ok(LinkConfigurationField::WeirCoefficientCurve)
    } else if str_eq(name, "rating") {
        Ok(LinkConfigurationField::OutletRating)
    } else {
        Err(internal_error("link_configuration_value", "invalid private link configuration field"))
    }
}

/// A current link result selector.
#[derive(Clone, Copy, Debug, PartialEq, Eq, Structural)]
pub enum LinkResultField {
    Setting,
    TargetSetting,
    TimeOpenSeconds,
    TimeClosedSeconds,
    Flow,
    Depth,
    Velocity,
    TopWidth,
    Volume,
    Capacity,
    UpstreamSurfaceArea,
    DownstreamSurfaceArea,
    FroudeNumber,
}

/// The selector named by a private field name, if any.
pub open spec fn spec_link_result_field(name: Seq<char>) -> Option<LinkResultField> {
    if name == "setting"@ {
        Some(LinkResultField::Setting)
    } else if name == "target_setting"@ {
        Some(LinkResultField::TargetSetting)
    } else if name == "time_open_seconds"@ {
        Some(LinkResultField::TimeOpenSeconds)
    } else if name == "time_closed_seconds"@ {
        Some(LinkResultField::TimeClosedSeconds)
    } else if name == "flow"@ {
        Some(LinkResultField::Flow)
    } else if name == "depth"@ {
        Some(LinkResultField::Depth)
    } else if name == "velocity"@ {
        Some(LinkResultField::Velocity)
    } else if name == "top_width"@ {
        Some(LinkResultField::TopWidth)
    } else if name == "volume"@ {
        Some(LinkResultField::Volume)
    } else if name == "capacity"@ {
        Some(LinkResultField::Capacity)
    } else if name == "upstream_surface_area"@ {
        Some(LinkResultField::UpstreamSurfaceArea)
    } else if name == "downstream_surface_area"@ {
        Some(LinkResultField::DownstreamSurfaceArea)
    } else if name == "froude_number"@ {
        Some(LinkResultField::FroudeNumber)
    } else {
        None
    }
}

/// Resolves one private link result name to its typed selector.
pub fn link_result_field(name: &str) -> (field: Result<LinkResultField, NativeError>)
    ensures
        match spec_link_result_field(name@) {
            Some(f) => field == Ok::<LinkResultField, NativeError>(f),
            None => field is Err && is_internal_error(
                field->Err_0,
                "link_result",
                "invalid private link result field"@,
            ),
        },
{
    if str_eq(name, "setting") {
        Ok(LinkResultField::Setting)
    } else if str_eq(name, "target_setting") {
        Ok(LinkResultField::TargetSetting)
    } else if str_eq(name, "time_open_seconds") {
        Ok(LinkResultField::TimeOpenSeconds)
    } else if str_eq(name, "time_closed_seconds") {
        Ok(LinkResultField::TimeClosedSeconds)
    } else if str_eq(name, "flow") {
        Ok(LinkResultField::Flow)
    } else if str_eq(name, "depth") {
        Ok(LinkResultField::Depth)
    } else if str_eq(name, "velocity") {
        Ok(LinkResultField::Velocity)
    } else if str_eq(name, "top_width") {
        Ok(LinkResultField::TopWidth)
    } else if str_eq(name, "volume") {
        Ok(LinkResultField::Volume)
    } else if str_eq(name, "capacity") {
        Ok(LinkResultField::Capacity)
    } else if str_eq(name, "upstream_surface_area") {
        Ok(LinkResultField::UpstreamSurfaceArea)
    } else if str_eq(name, "downstream_surface_area") {
        Ok(LinkResultField::DownstreamSurfaceArea)
    } else if str_eq(name, "froude_number") {
        Ok(LinkResultField::FroudeNumber)
    } else {
        Err(internal_error("link_result", "invalid private link result field"))
    }
}

/// An inlet configuration selector.
#[derive(Clone, Copy, Debug, PartialEq, Eq, Structural)]
pub enum InletConfigurationField {
    Count,
    PercentClogged,
    FlowLimit,
    LocalDepression,
    LocalWidth,
    Design,
}

/// The selector named by a private field name, if any.
pub open spec fn spec_inlet_configuration_field(name: Seq<char>) -> Option<InletConfigurationField> {
    if name == "count"@ {
        Some(InletConfigurationField::Count)
    } else if name == "percent_clogged"@ {
        Some(InletConfigurationField::PercentClogged)
    } else if name == "flow_limit"@ {
        Some(InletConfigurationField::FlowLimit)
    } else if name == "local_depression"@ {
        Some(InletConfigurationField::LocalDepression)
    } else if name == "local_width"@ {
        Some(InletConfigurationField::LocalWidth)
    } else if name == "design"@ {
        Some(InletConfigurationField::Design)
    } else {
        None
    }
}

/// Resolves one private inlet setting name to its typed selector.
pub fn inlet_configuration_field(name: &str) -> (field: Result<InletConfigurationField, NativeError>)
    ensures
        match spec_inlet_configuration_field(name@) {
            Some(f) => field == Ok::<InletConfigurationField, NativeError>(f),
            None => field is Err && is_internal_error(
                field->Err_0,
                "inlet_configuration_value",
                "invalid private inlet configuration field"@,
            ),
        },
{
    if str_eq(name, "count") {
        Ok(InletConfigurationField::Count)
    } else if str_eq(name, "percent_clogged") {
        Ok(InletConfigurationField::PercentClogged)
    } else if str_eq(name, "flow_limit") {
        Ok(InletConfigurationField::FlowLimit)
    } else if str_eq(name, "local_depression") {
        Ok(InletConfigurationField::LocalDepression)
    } else if str_eq(name, "local_width") {
        Ok(InletConfigurationField::LocalWidth)
    } else if str_eq(name, "design") {
        Ok(InletConfigurationField::Design)
    } else {
        Err(internal_error("inlet_configuration_value", "invalid private inlet configuration field"))
    }
}

/// A current inlet result selector.
#[derive(Clone, Copy, Debug, PartialEq, Eq, Structural)]
pub enum InletResultField {
    FlowFactor,
    CapturedFlow,
    Backflow,
    BackflowRatio,
}

/// The selector named by a private field name, if any.
pub open spec fn spec_inlet_result_field(name: Seq<char>) -> Option<InletResultField> {
    if name == "flow_factor"@ {
        Some(InletResultField::FlowFactor)
    } else if name == "captured_flow"@ {
        Some(InletResultField::CapturedFlow)
    } else if name == "backflow"@ {
        Some(InletResultField::Backflow)
    } else if name == "backflow_ratio"@ {
        Some(InletResultField::BackflowRatio)
    } else {
        None
    }
}

/// Resolves one private inlet result name to its typed selector.
pub fn inlet_result_field(name: &str) -> (field: Result<InletResultField, NativeError>)
    ensures
        match spec_inlet_result_field(name@) {
            Some(f) => field == Ok::<InletResultField, NativeError>(f),
            None => field is Err && is_internal_error(
                field->Err_0,
                "inlet_result",
                "invalid private inlet result field"@,
            ),
        },
{
    if str_eq(name, "flow_factor") {
        Ok(InletResultField::FlowFactor)
    } else if str_eq(name, "captured_flow") {
        Ok(InletResultField::CapturedFlow)
    } else if str_eq(name, "backflow") {
        Ok(InletResultField::Backflow)
    } else if str_eq(name, "backflow_ratio") {
        Ok(InletResultField::BackflowRatio)
    } else {
        Err(internal_error("inlet_result", "invalid private inlet result field"))
    }
}

/// A node configuration selector.
#[derive(Clone, Copy, Debug, PartialEq, Eq, Structural)]
pub enum NodeConfigurationField {
    Tag,
    InvertElevation,
    FullDepth,
    SurchargeDepth,
    PondedArea,
    InitialDepth,
    IncludedInReport,
    StorageShape,
    StorageEvaporationFraction,
    StorageExfiltration,
    OutfallBoundary,
    OutfallHasFlapGate,
    OutfallRouteToSubcatchment,
    DividerRule,
    DividerDivertedLink,
}

/// The selector named by a private field name, if any.
pub open spec fn spec_node_configuration_field(name: Seq<char>) -> Option<NodeConfigurationField> {
    if name == "tag"@ {
        Some(NodeConfigurationField::Tag)
    } else if name == "invert_elevation"@ {
        Some(NodeConfigurationField::InvertElevation)
    } else if name == "full_depth"@ {
        Some(NodeConfigurationField::FullDepth)
    } else if name == "surcharge_depth"@ {
        Some(NodeConfigurationField::SurchargeDepth)
    } else if name == "ponded_area"@ {
        Some(NodeConfigurationField::PondedArea)
    } else if name == "initial_depth"@ {
        Some(NodeConfigurationField::InitialDepth)
    } else if name == "included_in_report"@ {
        Some(NodeConfigurationField::IncludedInReport)
    } else if name == "shape"@ {
        Some(NodeConfigurationField::StorageShape)
    } else if name == "evaporation_fraction"@ {
        Some(NodeConfigurationField::StorageEvaporationFraction)
    } else if name == "exfiltration"@ {
        Some(NodeConfigurationField::StorageExfiltration)
    } else if name == "boundary"@ {
        Some(NodeConfigurationField::OutfallBoundary)
    } else if name == "has_flap_gate"@ {
        Some(NodeConfigurationField::OutfallHasFlapGate)
    } else if name == "route_to_subcatchment"@ {
        Some(NodeConfigurationField::OutfallRouteToSubcatchment)
    } else if name == "rule"@ {
        Some(NodeConfigurationField::DividerRule)
    } else if name == "diverted_link"@ {
        Some(NodeConfigurationField::DividerDivertedLink)
    } else {
        None
    }
}

/// Maps one private stable-field name to its targeted solver selector.
pub fn node_configuration_field(name: &str) -> (field: Result<NodeConfigurationField, NativeError>)
    ensures
        match spec_node_configuration_field(name@) {
            Some(f) => field == Ok::<NodeConfigurationField, NativeError>(f),
            None => field is Err && is_internal_error(
                field->Err_0,
                "node_configuration_value",
                "invalid private node configuration field"@,
            ),
        },
{
    if str_eq(name, "tag") {
        Ok(NodeConfigurationField::Tag)
    } else if str_eq(name, "invert_elevation") {
        Ok(NodeConfigurationField::InvertElevation)
    } else if str_eq(name, "full_depth") {
        Ok(NodeConfigurationField::FullDepth)
    } else if str_eq(name, "surcharge_depth") {
        Ok(NodeConfigurationField::SurchargeDepth)
    } else if str_eq(name, "ponded_area") {
        Ok(NodeConfigurationField::PondedArea)
    } else if str_eq(name, "initial_depth") {
        Ok(NodeConfigurationField::InitialDepth)
    } else if str_eq(name, "included_in_report") {
        Ok(NodeConfigurationField::IncludedInReport)
    } else if str_eq(name, "shape") {
        Ok(NodeConfigurationField::StorageShape)
    } else if str_eq(name, "evaporation_fraction") {
        Ok(NodeConfigurationField::StorageEvaporationFraction)
    } else if str_eq(name, "exfiltration") {
        Ok(NodeConfigurationField::StorageExfiltration)
    } else if str_eq(name, "boundary") {
        Ok(NodeConfigurationField::OutfallBoundary)
    } else if str_eq(name, "has_flap_gate") {
        Ok(NodeConfigurationField::OutfallHasFlapGate)
    } else if str_eq(name, "route_to_subcatchment") {
        Ok(NodeConfigurationField::OutfallRouteToSubcatchment)
    } else if str_eq(name, "rule") {
        Ok(NodeConfigurationField::DividerRule)
    } else if str_eq(name, "diverted_link") {
        Ok(NodeConfigurationField::DividerDivertedLink)
    } else {
        Err(internal_error("node_configuration_value", "invalid private node configuration field"))
    }
}

/// A current node result selector.
#[derive(Clone, Copy, Debug, PartialEq, Eq, Structural)]
pub enum NodeResultField {
    Depth,
    Head,
    Volume,
    LateralInflow,
    TotalInflow,
    TotalOutflow,
    Losses,
    Flooding,
    HydraulicRetentionSeconds,
}

/// The selector named by a private field name, if any.
pub open spec fn spec_node_result_field(name: Seq<char>) -> Option<NodeResultField> {
    if name == "depth"@ {
        Some(NodeResultField::Depth)
    } else if name == "head"@ {
        Some(NodeResultField::Head)
    } else if name == "volume"@ {
        Some(NodeResultField::Volume)
    } else if name == "lateral_inflow"@ {
        Some(NodeResultField::LateralInflow)
    } else if name == "total_inflow"@ {
        Some(NodeResultField::TotalInflow)
    } else if name == "total_outflow"@ {
        Some(NodeResultField::TotalOutflow)
    } else if name == "losses"@ {
        Some(NodeResultField::Losses)
    } else if name == "flooding"@ {
        Some(NodeResultField::Flooding)
    } else if name == "hydraulic_retention_seconds"@ {
        Some(NodeResultField::HydraulicRetentionSeconds)
    } else {
        None
    }
}

/// Maps one private current-result name to its targeted solver selector.
pub fn node_result_field(name: &str) -> (field: Result<NodeResultField, NativeError>)
    ensures
        match spec_node_result_field(name@) {
            Some(f) => field == Ok::<NodeResultField, NativeError>(f),
            None => field is Err && is_internal_error(
                field->Err_0,
                "node_result",
                "invalid private node result field"@,
            ),
        },
{
    if str_eq(name, "depth") {
        Ok(NodeResultField::Depth)
    } else if str_eq(name, "head") {
        Ok(NodeResultField::Head)
    } else if str_eq(name, "volume") {
        Ok(NodeResultField::Volume)
    } else if str_eq(name, "lateral_inflow") {
        Ok(NodeResultField::LateralInflow)
    } else if str_eq(name, "total_inflow") {
        Ok(NodeResultField::TotalInflow)
    } else if str_eq(name, "total_outflow") {
        Ok(NodeResultField::TotalOutflow)
    } else if str_eq(name, "losses") {
        Ok(NodeResultField::Losses)
    } else if str_eq(name, "flooding") {
        Ok(NodeResultField::Flooding)
    } else if str_eq(name, "hydraulic_retention_seconds") {
        Ok(NodeResultField::HydraulicRetentionSeconds)
    } else {
        Err(internal_error("node_result", "invalid private node result field"))
    }
}

/// A LID-unit selector.
#[derive(Clone, Copy, Debug, PartialEq, Eq, Structural)]
pub enum LidUnitField {
    Area,
    FullWidth,
    BottomWidth,
    InitialSaturation,
    ImperviousRunoffTreated,
    PerviousRunoffTreated,
    Control,
    Count,
    RoutesToPervious,
    DrainDestination,
}

/// The selector named by a private field name, if any.
pub open spec fn spec_lid_unit_field(name: Seq<char>) -> Option<LidUnitField> {
    if name == "area"@ {
        Some(LidUnitField::Area)
    } else if name == "full_width"@ {
        Some(LidUnitField::FullWidth)
    } else if name == "bottom_width"@ {
        Some(LidUnitField::BottomWidth)
    } else if name == "initial_saturation"@ {
        Some(LidUnitField::InitialSaturation)
    } else if name == "impervious_runoff_treated"@ {
        Some(LidUnitField::ImperviousRunoffTreated)
    } else if name == "pervious_runoff_treated"@ {
        Some(LidUnitField::PerviousRunoffTreated)
    } else if name == "control_identity"@ {
        Some(LidUnitField::Control)
    } else if name == "count"@ {
        Some(LidUnitField::Count)
    } else if name == "routes_to_pervious"@ {
        Some(LidUnitField::RoutesToPervious)
    } else if name == "drain_destination"@ {
        Some(LidUnitField::DrainDestination)
    } else {
        None
    }
}

/// Maps one private LID-unit field to its targeted solver selector.
pub fn lid_unit_field(name: &str) -> (field: Result<LidUnitField, NativeError>)
    ensures
        match spec_lid_unit_field(name@) {
            Some(f) => field == Ok::<LidUnitField, NativeError>(f),
            None => field is Err && is_internal_error(
                field->Err_0,
                "lid_unit_value",
                "invalid private LID-unit field"@,
            ),
        },
{
    if str_eq(name, "area") {
        Ok(LidUnitField::Area)
    } else if str_eq(name, "full_width") {
        Ok(LidUnitField::FullWidth)
    } else if str_eq(name, "bottom_width") {
        Ok(LidUnitField::BottomWidth)
    } else if str_eq(name, "initial_saturation") {
        Ok(LidUnitField::InitialSaturation)
    } else if str_eq(name, "impervious_runoff_treated") {
        Ok(LidUnitField::ImperviousRunoffTreated)
    } else if str_eq(name, "pervious_runoff_treated") {
        Ok(LidUnitField::PerviousRunoffTreated)
    } else if str_eq(name, "control_identity") {
        Ok(LidUnitField::Control)
    } else if str_eq(name, "count") {
        Ok(LidUnitField::Count)
    } else if str_eq(name, "routes_to_pervious") {
        Ok(LidUnitField::RoutesToPervious)
    } else if str_eq(name, "drain_destination") {
        Ok(LidUnitField::DrainDestination)
    } else {
        Err(internal_error("lid_unit_value", "invalid private LID-unit field"))
    }
}

/// A snowmelt surface class.
#[derive(Clone, Copy, Debug, PartialEq, Eq, Structural)]
pub enum SnowmeltSurface {
    Plowable,
    Impervious,
    Pervious,
}

/// The selector named by a private field name, if any.
pub open spec fn spec_snowmelt_surface(name: Seq<char>) -> Option<SnowmeltSurface> {
    if name == "plowable"@ {
        Some(SnowmeltSurface::Plowable)
    } else if name == "impervious"@ {
        Some(SnowmeltSurface::Impervious)
    } else if name == "pervious"@ {
        Some(SnowmeltSurface::Pervious)
    } else {
        None
    }
}

/// Resolves one private snowmelt surface name.
pub fn snowmelt_surface(name: &str) -> (field: Result<SnowmeltSurface, NativeError>)
    ensures
        match spec_snowmelt_surface(name@) {
            Some(f) => field == Ok::<SnowmeltSurface, NativeError>(f),
            None => field is Err && is_internal_error(
                field->Err_0,
                "snowmelt_surface",
                "invalid private snowmelt surface"@,
            ),
        },
{
    if str_eq(name, "plowable") {
        Ok(SnowmeltSurface::Plowable)
    } else if str_eq(name, "impervious") {
        Ok(SnowmeltSurface::Impervious)
    } else if str_eq(name, "pervious") {
        Ok(SnowmeltSurface::Pervious)
    } else {
        Err(internal_error("snowmelt_surface", "invalid private snowmelt surface"))
    }
}

/// A LID-control layer field selector.
#[derive(Clone, Copy, Debug, PartialEq, Eq, Structural)]
pub enum LidControlField {
    SurfaceThickness,
    SurfaceVegetationVolumeFraction,
    SurfaceRoughness,
    SurfaceSlope,
    SurfaceSideSlope,
    SurfaceAlpha,
    SurfaceImmediateOverflow,
    SoilThickness,
    SoilPorosity,
    SoilFieldCapacity,
    SoilWiltingPoint,
    SoilSaturatedConductivity,
    SoilConductivitySlope,
    SoilSuctionHead,
    StorageThickness,
    StorageVoidRatio,
    StorageSaturatedConductivity,
    StorageCloggingFactor,
    PavementThickness,
    PavementVoidRatio,
    PavementImperviousFraction,
    PavementSaturatedConductivity,
    PavementCloggingFactor,
    PavementRegenerationInterval,
    PavementRegenerationFraction,
    DrainCoefficient,
    DrainExponent,
    DrainOffset,
    DrainDelay,
    DrainOpenHead,
    DrainCloseHead,
    DrainControlCurve,
    DrainageMatThickness,
    DrainageMatVoidFraction,
    DrainageMatRoughness,
    DrainageMatAlpha,
}

/// The selector named by a private `(layer, field)` pair, if any.
pub open spec fn spec_lid_control_field(layer: Seq<char>, field: Seq<char>) -> Option<LidControlField> {
    if layer == "surface"@ && field == "thickness"@ {
        Some(LidControlField::SurfaceThickness)
    } else if layer == "surface"@ && field == "vegetation_volume_fraction"@ {
        Some(LidControlField::SurfaceVegetationVolumeFraction)
    } else if layer == "surface"@ && field == "roughness"@ {
        Some(LidControlField::SurfaceRoughness)
    } else if layer == "surface"@ && field == "slope"@ {
        Some(LidControlField::SurfaceSlope)
    } else if layer == "surface"@ && field == "side_slope"@ {
        Some(LidControlField::SurfaceSideSlope)
    } else if layer == "surface"@ && field == "alpha"@ {
        Some(LidControlField::SurfaceAlpha)
    } else if layer == "surface"@ && field == "immediate_overflow"@ {
        Some(LidControlField::SurfaceImmediateOverflow)
    } else if layer == "soil"@ && field == "thickness"@ {
        Some(LidControlField::SoilThickness)
    } else if layer == "soil"@ && field == "porosity"@ {
        Some(LidControlField::SoilPorosity)
    } else if layer == "soil"@ && field == "field_capacity"@ {
        Some(LidControlField::SoilFieldCapacity)
    } else if layer == "soil"@ && field == "wilting_point"@ {
        Some(LidControlField::SoilWiltingPoint)
    } else if layer == "soil"@ && field == "saturated_conductivity"@ {
        Some(LidControlField::SoilSaturatedConductivity)
    } else if layer == "soil"@ && field == "conductivity_slope"@ {
        Some(LidControlField::SoilConductivitySlope)
    } else if layer == "soil"@ && field == "suction_head"@ {
        Some(LidControlField::SoilSuctionHead)
    } else if layer == "storage"@ && field == "thickness"@ {
        Some(LidControlField::StorageThickness)
    } else if layer == "storage"@ && field == "void_ratio"@ {
        Some(LidControlField::StorageVoidRatio)
    } else if layer == "storage"@ && field == "saturated_conductivity"@ {
        Some(LidControlField::StorageSaturatedConductivity)
    } else if layer == "storage"@ && field == "clogging_factor"@ {
        Some(LidControlField::StorageCloggingFactor)
    } else if layer == "pavement"@ && field == "thickness"@ {
        Some(LidControlField::PavementThickness)
    } else if layer == "pavement"@ && field == "void_ratio"@ {
        Some(LidControlField::PavementVoidRatio)
    } else if layer == "pavement"@ && field == "impervious_fraction"@ {
        Some(LidControlField::PavementImperviousFraction)
    } else if layer == "pavement"@ && field == "saturated_conductivity"@ {
        Some(LidControlField::PavementSaturatedConductivity)
    } else if layer == "pavement"@ && field == "clogging_factor"@ {
        Some(LidControlField::PavementCloggingFactor)
    } else if layer == "pavement"@ && field == "regeneration_interval"@ {
        Some(LidControlField::PavementRegenerationInterval)
    } else if layer == "pavement"@ && field == "regeneration_fraction"@ {
        Some(LidControlField::PavementRegenerationFraction)
    } else if layer == "drain"@ && field == "coefficient"@ {
        Some(LidControlField::DrainCoefficient)
    } else if layer == "drain"@ && field == "exponent"@ {
        Some(LidControlField::DrainExponent)
    } else if layer == "drain"@ && field == "offset"@ {
        Some(LidControlField::DrainOffset)
    } else if layer == "drain"@ && field == "delay"@ {
        Some(LidControlField::DrainDelay)
    } else if layer == "drain"@ && field == "open_head"@ {
        Some(LidControlField::DrainOpenHead)
    } else if layer == "drain"@ && field == "close_head"@ {
        Some(LidControlField::DrainCloseHead)
    } else if layer == "drain"@ && field == "control_curve_identity"@ {
        Some(LidControlField::DrainControlCurve)
    } else if layer == "drainage_mat"@ && field == "thickness"@ {
        Some(LidControlField::DrainageMatThickness)
    } else if layer == "drainage_mat"@ && field == "void_fraction"@ {
        Some(LidControlField::DrainageMatVoidFraction)
    } else if layer == "drainage_mat"@ && field == "roughness"@ {
        Some(LidControlField::DrainageMatRoughness)
    } else if layer == "drainage_mat"@ && field == "alpha"@ {
        Some(LidControlField::DrainageMatAlpha)
    } else {
        None
    }
}

/// Maps one private LID-control layer field to its targeted solver selector.
pub fn lid_control_field(layer: &str, field: &str) -> (selector: Result<LidControlField, NativeError>)
    ensures
        match spec_lid_control_field(layer@, field@) {
            Some(f) => selector == Ok::<LidControlField, NativeError>(f),
            None => selector is Err && is_internal_error(
                selector->Err_0,
                "lid_control_value",
                "invalid private LID-control field"@,
            ),
        },
{
    if str_eq(layer, "surface") && str_eq(field, "thickness") {
        Ok(LidControlField::SurfaceThickness)
    } else if str_eq(layer, "surface") && str_eq(field, "vegetation_volume_fraction") {
        Ok(LidControlField::SurfaceVegetationVolumeFraction)
    } else if str_eq(layer, "surface") && str_eq(field, "roughness") {
        Ok(LidControlField::SurfaceRoughness)
    } else if str_eq(layer, "surface") && str_eq(field, "slope") {
        Ok(LidControlField::SurfaceSlope)
    } else if str_eq(layer, "surface") && str_eq(field, "side_slope") {
        Ok(LidControlField::SurfaceSideSlope)
    } else if str_eq(layer, "surface") && str_eq(field, "alpha") {
        Ok(LidControlField::SurfaceAlpha)
    } else if str_eq(layer, "surface") && str_eq(field, "immediate_overflow") {
        Ok(LidControlField::SurfaceImmediateOverflow)
    } else if str_eq(layer, "soil") && str_eq(field, "thickness") {
        Ok(LidControlField::SoilThickness)
    } else if str_eq(layer, "soil") && str_eq(field, "porosity") {
        Ok(LidControlField::SoilPorosity)
    } else if str_eq(layer, "soil") && str_eq(field, "field_capacity") {
        Ok(LidControlField::SoilFieldCapacity)
    } else if str_eq(layer, "soil") && str_eq(field, "wilting_point") {
        Ok(LidControlField::SoilWiltingPoint)
    } else if str_eq(layer, "soil") && str_eq(field, "saturated_conductivity") {
        Ok(LidControlField::SoilSaturatedConductivity)
    } else if str_eq(layer, "soil") && str_eq(field, "conductivity_slope") {
        Ok(LidControlField::SoilConductivitySlope)
    } else if str_eq(layer, "soil") && str_eq(field, "suction_head") {
        Ok(LidControlField::SoilSuctionHead)
    } else if str_eq(layer, "storage") && str_eq(field, "thickness") {
        Ok(LidControlField::StorageThickness)
    } else if str_eq(layer, "storage") && str_eq(field, "void_ratio") {
        Ok(LidControlField::StorageVoidRatio)
    } else if str_eq(layer, "storage") && str_eq(field, "saturated_conductivity") {
        Ok(LidControlField::StorageSaturatedConductivity)
    } else if str_eq(layer, "storage") && str_eq(field, "clogging_factor") {
        Ok(LidControlField::StorageCloggingFactor)
    } else if str_eq(layer, "pavement") && str_eq(field, "thickness") {
        Ok(LidControlField::PavementThickness)
    } else if str_eq(layer, "pavement") && str_eq(field, "void_ratio") {
        Ok(LidControlField::PavementVoidRatio)
    } else if str_eq(layer, "pavement") && str_eq(field, "impervious_fraction") {
        Ok(LidControlField::PavementImperviousFraction)
    } else if str_eq(layer, "pavement") && str_eq(field, "saturated_conductivity") {
        Ok(LidControlField::PavementSaturatedConductivity)
    } else if str_eq(layer, "pavement") && str_eq(field, "clogging_factor") {
        Ok(LidControlField::PavementCloggingFactor)
    } else if str_eq(layer, "pavement") && str_eq(field, "regeneration_interval") {
        Ok(LidControlField::PavementRegenerationInterval)
    } else if str_eq(layer, "pavement") && str_eq(field, "regeneration_fraction") {
        Ok(LidControlField::PavementRegenerationFraction)
    } else if str_eq(layer, "drain") && str_eq(field, "coefficient") {
        Ok(LidControlField::DrainCoefficient)
    } else if str_eq(layer, "drain") && str_eq(field, "exponent") {
        Ok(LidControlField::DrainExponent)
    } else if str_eq(layer, "drain") && str_eq(field, "offset") {
        Ok(LidControlField::DrainOffset)
    } else if str_eq(layer, "drain") && str_eq(field, "delay") {
        Ok(LidControlField::DrainDelay)
    } else if str_eq(layer, "drain") && str_eq(field, "open_head") {
        Ok(LidControlField::DrainOpenHead)
    } else if str_eq(layer, "drain") && str_eq(field, "close_head") {
        Ok(LidControlField::DrainCloseHead)
    } else if str_eq(layer, "drain") && str_eq(field, "control_curve_identity") {
        Ok(LidControlField::DrainControlCurve)
    } else if str_eq(layer, "drainage_mat") && str_eq(field, "thickness") {
        Ok(LidControlField::DrainageMatThickness)
    } else if str_eq(layer, "drainage_mat") && str_eq(field, "void_fraction") {
        Ok(LidControlField::DrainageMatVoidFraction)
    } else if str_eq(layer, "drainage_mat") && str_eq(field, "roughness") {
        Ok(LidControlField::DrainageMatRoughness)
    } else if str_eq(layer, "drainage_mat") && str_eq(field, "alpha") {
        Ok(LidControlField::DrainageMatAlpha)
    } else {
        Err(internal_error("lid_control_value", "invalid private LID-control field"))
    }
}

/// The representative field of an optional LID layer, if the layer name is known.
pub open spec fn spec_lid_layer_presence_field(layer: Seq<char>) -> Option<LidControlField> {
    if layer == "surface"@ {
        Some(LidControlField::SurfaceThickness)
    } else if layer == "soil"@ {
        Some(LidControlField::SoilThickness)
    } else if layer == "storage"@ {
        Some(LidControlField::StorageThickness)
    } else if layer == "pavement"@ {
        Some(LidControlField::PavementThickness)
    } else if layer == "drain"@ {
        Some(LidControlField::DrainCoefficient)
    } else if layer == "drainage_mat"@ {
        Some(LidControlField::DrainageMatThickness)
    } else {
        None
    }
}

/// Returns one representative targeted field for an optional LID layer.
pub fn lid_layer_presence_field(layer: &str) -> (field: Result<LidControlField, NativeError>)
    ensures
        match spec_lid_layer_presence_field(layer@) {
            Some(f) => field == Ok::<LidControlField, NativeError>(f),
            None => field is Err && is_internal_error(
                field->Err_0,
                "lid_control_layer_exists",
                "invalid private LID layer"@,
            ),
        },
{
    if str_eq(layer, "surface") {
        Ok(LidControlField::SurfaceThickness)
    } else if str_eq(layer, "soil") {
        Ok(LidControlField::SoilThickness)
    } else if str_eq(layer, "storage") {
        Ok(LidControlField::StorageThickness)
    } else if str_eq(layer, "pavement") {
        Ok(LidControlField::PavementThickness)
    } else if str_eq(layer, "drain") {
        Ok(LidControlField::DrainCoefficient)
    } else if str_eq(layer, "drainage_mat") {
        Ok(LidControlField::DrainageMatThickness)
    } else {
        Err(internal_error("lid_control_layer_exists", "invalid private LID layer"))
    }
}

/// The class name of an exported string-enum type, as used in validation messages.
pub open spec fn spec_enum_type_name(kind: PublicType) -> Seq<char> {
    match kind {
        PublicType::OrificeKind => "OrificeKind"@,
        PublicType::WeirKind => "WeirKind"@,
        PublicType::RoadSurface => "RoadSurface"@,
        PublicType::OutletHeadBasis => "OutletHeadBasis"@,
        PublicType::StandardCrossSectionShape => "StandardCrossSectionShape"@,
        _ => crate::policy::spec_public_type_name(kind),
    }
}

/// Returns the class name of an exported string-enum type.
pub fn enum_type_name(kind: PublicType) -> (name: &'static str)
    ensures
        name@ == spec_enum_type_name(kind),
{
    match kind {
        PublicType::OrificeKind => "OrificeKind",
        PublicType::WeirKind => "WeirKind",
        PublicType::RoadSurface => "RoadSurface",
        PublicType::OutletHeadBasis => "OutletHeadBasis",
        PublicType::StandardCrossSectionShape => "StandardCrossSectionShape",
        _ => crate::policy::public_type_name(kind),
    }
}

/// The stable spelling of a member of the exact exported string enum `expected`.
pub open spec fn spec_link_enum_name(
    value: PyValue,
    name: Seq<char>,
    expected: PublicType,
) -> Result<Seq<char>, Seq<char>> {
    match value {
        PyValue::Enum { class, value: v } => if class == expected {
            Ok(v@)
        } else {
            Err(name + " must be "@ + spec_enum_type_name(expected))
        },
        _ => Err(name + " must be "@ + spec_enum_type_name(expected)),
    }
}

/// Extracts the stable spelling of a member of the exact exported string enum `expected`.
pub fn link_enum_name(value: &PyValue, name: &str, expected: PublicType) -> (result: Result<
    String,
    NativeError,
>)
    ensures
        match spec_link_enum_name(*value, name@, expected) {
            Ok(v) => result is Ok && result->Ok_0@ == v,
            Err(d) => result is Err && is_property_error(
                result->Err_0,
                "update_link_settings",
                ErrorCode::ApiPropertyValue,
                d,
            ),
        },
{
    if let PyValue::Enum { class, value: v } = value {
        if *class == expected {
            return Ok(v.clone());
        }
    }
    let detail = String::from_str(name).concat(" must be ").concat(enum_type_name(expected));
    Err(crate::error::policy_py_error("update_link_settings", detail))
}

/// An orifice opening kind.
#[derive(Clone, Copy, Debug, PartialEq, Eq, Structural)]
pub enum OrificeType {
    SideOrifice,
    BottomOrifice,
}

/// The OrificeType with a stable spelling, if any.
pub open spec fn spec_orifice_type_named(name: Seq<char>) -> Option<OrificeType> {
    if name == "side"@ {
        Some(OrificeType::SideOrifice)
    } else if name == "bottom"@ {
        Some(OrificeType::BottomOrifice)
    } else {
        None
    }
}

/// The OrificeType of a public enum member, or the detail of its refusal.
pub open spec fn spec_extract_orifice_kind(value: PyValue) -> Result<OrificeType, Seq<char>> {
    match spec_link_enum_name(value, "kind"@, PublicType::OrificeKind) {
        Err(d) => Err(d),
        Ok(spelling) => match spec_orifice_type_named(spelling) {
            Some(kind) => Ok(kind),
            None => Err("invalid orifice kind"@),
        },
    }
}

/// Extracts one public orifice-kind enum.
pub fn extract_orifice_kind(value: &PyValue) -> (result: Result<OrificeType, NativeError>)
    ensures
        match spec_extract_orifice_kind(*value) {
            Ok(kind) => result == Ok::<OrificeType, NativeError>(kind),
            Err(d) => result is Err && is_property_error(
                result->Err_0,
                "update_link_settings",
                ErrorCode::ApiPropertyValue,
                d,
            ),
        },
{
    let spelling = match link_enum_name(value, "kind", PublicType::OrificeKind) {
        Ok(spelling) => spelling,
        Err(error) => {
            return Err(error);
        },
    };
    let s = spelling.as_str();
    if str_eq(s, "side") {
        Ok(OrificeType::SideOrifice)
    } else if str_eq(s, "bottom") {
        Ok(OrificeType::BottomOrifice)
    } else {
        Err(property_error("update_link_settings", "invalid orifice kind"))
    }
}

/// A weir kind.
#[derive(Clone, Copy, Debug, PartialEq, Eq, Structural)]
pub enum WeirType {
    TransverseWeir,
    SideflowWeir,
    VnotchWeir,
    TrapezoidalWeir,
    RoadwayWeir,
}

/// The WeirType with a stable spelling, if any.
pub open spec fn spec_weir_type_named(name: Seq<char>) -> Option<WeirType> {
    if name == "transverse"@ {
        Some(WeirType::TransverseWeir)
    } else if name == "sideflow"@ {
        Some(WeirType::SideflowWeir)
    } else if name == "v_notch"@ {
        Some(WeirType::VnotchWeir)
    } else if name == "trapezoidal"@ {
        Some(WeirType::TrapezoidalWeir)
    } else if name == "roadway"@ {
        Some(WeirType::RoadwayWeir)
    } else {
        None
    }
}

/// The WeirType of a public enum member, or the detail of its refusal.
pub open spec fn spec_extract_weir_kind(value: PyValue) -> Result<WeirType, Seq<char>> {
    match spec_link_enum_name(value, "kind"@, PublicType::WeirKind) {
        Err(d) => Err(d),
        Ok(spelling) => match spec_weir_type_named(spelling) {
            Some(kind) => Ok(kind),
            None => Err("invalid weir kind"@),
        },
    }
}

/// Extracts one public weir-kind enum.
pub fn extract_weir_kind(value: &PyValue) -> (result: Result<WeirType, NativeError>)
    ensures
        match spec_extract_weir_kind(*value) {
            Ok(kind) => result == Ok::<WeirType, NativeError>(kind),
            Err(d) => result is Err && is_property_error(
                result->Err_0,
                "update_link_settings",
                ErrorCode::ApiPropertyValue,
                d,
            ),
        },
{
    let spelling = match link_enum_name(value, "kind", PublicType::WeirKind) {
        Ok(spelling) => spelling,
        Err(error) => {
            return Err(error);
        },
    };
    let s = spelling.as_str();
    if str_eq(s, "transverse") {
        Ok(WeirType::TransverseWeir)
    } else if str_eq(s, "sideflow") {
        Ok(WeirType::SideflowWeir)
    } else if str_eq(s, "v_notch") {
        Ok(WeirType::VnotchWeir)
    } else if str_eq(s, "trapezoidal") {
        Ok(WeirType::TrapezoidalWeir)
    } else if str_eq(s, "roadway") {
        Ok(WeirType::RoadwayWeir)
    } else {
        Err(property_error("update_link_settings", "invalid weir kind"))
    }
}

/// A roadway weir surface.
#[derive(Clone, Copy, Debug, PartialEq, Eq, Structural)]
pub enum RoadSurface {
    Unspecified,
    Paved,
    Gravel,
}

/// The RoadSurface with a stable spelling, if any.
pub open spec fn spec_road_surface_named(name: Seq<char>) -> Option<RoadSurface> {
    if name == "unspecified"@ {
        Some(RoadSurface::Unspecified)
    } else if name == "paved"@ {
        Some(RoadSurface::Paved)
    } else if name == "gravel"@ {
        Some(RoadSurface::Gravel)
    } else {
        None
    }
}

/// The RoadSurface of a public enum member, or the detail of its refusal.
pub open spec fn spec_extract_road_surface(value: PyValue) -> Result<RoadSurface, Seq<char>> {
    match spec_link_enum_name(value, "roadway_surface"@, PublicType::RoadSurface) {
        Err(d) => Err(d),
        Ok(spelling) => match spec_road_surface_named(spelling) {
            Some(kind) => Ok(kind),
            None => Err("invalid roadway surface"@),
        },
    }
}

/// Extracts one public roadway-surface enum.
pub fn extract_road_surface(value: &PyValue) -> (result: Result<RoadSurface, NativeError>)
    ensures
        match spec_extract_road_surface(*value) {
            Ok(kind) => result == Ok::<RoadSurface, NativeError>(kind),
            Err(d) => result is Err && is_property_error(
                result->Err_0,
                "update_link_settings",
                ErrorCode::ApiPropertyValue,
                d,
            ),
        },
{
    let spelling = match link_enum_name(value, "roadway_surface", PublicType::RoadSurface) {
        Ok(spelling) => spelling,
        Err(error) => {
            return Err(error);
        },
    };
    let s = spelling.as_str();
    if str_eq(s, "unspecified") {
        Ok(RoadSurface::Unspecified)
    } else if str_eq(s, "paved") {
        Ok(RoadSurface::Paved)
    } else if str_eq(s, "gravel") {
        Ok(RoadSurface::Gravel)
    } else {
        Err(property_error("update_link_settings", "invalid roadway surface"))
    }
}

/// The head an outlet rating is expressed against.
#[derive(Clone, Copy, Debug, PartialEq, Eq, Structural)]
pub enum OutletHeadBasis {
    Depth,
    Head,
}

/// The OutletHeadBasis with a stable spelling, if any.
pub open spec fn spec_outlet_head_basis_named(name: Seq<char>) -> Option<OutletHeadBasis> {
    if name == "depth"@ {
        Some(OutletHeadBasis::Depth)
    } else if name == "head"@ {
        Some(OutletHeadBasis::Head)
    } else {
        None
    }
}

/// The OutletHeadBasis of a public enum member, or the detail of its refusal.
pub open spec fn spec_extract_outlet_head_basis(value: PyValue) -> Result<OutletHeadBasis, Seq<char>> {
    match spec_link_enum_name(value, "head_basis"@, PublicType::OutletHeadBasis) {
        Err(d) => Err(d),
        Ok(spelling) => match spec_outlet_head_basis_named(spelling) {
            Some(kind) => Ok(kind),
            None => Err("invalid outlet head basis"@),
        },
    }
}

/// Extracts one public outlet-head-basis enum.
pub fn extract_outlet_head_basis(value: &PyValue) -> (result: Result<OutletHeadBasis, NativeError>)
    ensures
        match spec_extract_outlet_head_basis(*value) {
            Ok(kind) => result == Ok::<OutletHeadBasis, NativeError>(kind),
            Err(d) => result is Err && is_property_error(
                result->Err_0,
                "update_link_settings",
                ErrorCode::ApiPropertyValue,
                d,
            ),
        },
{
    let spelling = match link_enum_name(value, "head_basis", PublicType::OutletHeadBasis) {
        Ok(spelling) => spelling,
        Err(error) => {
            return Err(error);
        },
    };
    let s = spelling.as_str();
    if str_eq(s, "depth") {
        Ok(OutletHeadBasis::Depth)
    } else if str_eq(s, "head") {
        Ok(OutletHeadBasis::Head)
    } else {
        Err(property_error("update_link_settings", "invalid outlet head basis"))
    }
}

/// A standard cross-section shape.
#[derive(Clone, Copy, Debug, PartialEq, Eq, Structural)]
pub enum XsectType {
    Dummy,
    Circular,
    FilledCircular,
    RectClosed,
    RectOpen,
    Trapezoidal,
    Triangular,
    Parabolic,
    Powerfunc,
    RectTriang,
    RectRound,
    ModBasket,
    HorizEllipse,
    VertEllipse,
    Arch,
    Eggshaped,
    Horseshoe,
    Gothic,
    Catenary,
    Semielliptical,
    Baskethandle,
    Semicircular,
    ForceMain,
}

/// The XsectType with a stable spelling, if any.
pub open spec fn spec_xsect_type_named(name: Seq<char>) -> Option<XsectType> {
    if name == "dummy"@ {
        Some(XsectType::Dummy)
    } else if name == "circular"@ {
        Some(XsectType::Circular)
    } else if name == "filled_circular"@ {
        Some(XsectType::FilledCircular)
    } else if name == "rect_closed"@ {
        Some(XsectType::RectClosed)
    } else if name == "rect_open"@ {
        Some(XsectType::RectOpen)
    } else if name == "trapezoidal"@ {
        Some(XsectType::Trapezoidal)
    } else if name == "triangular"@ {
        Some(XsectType::Triangular)
    } else if name == "parabolic"@ {
        Some(XsectType::Parabolic)
    } else if name == "power_function"@ {
        Some(XsectType::Powerfunc)
    } else if name == "rect_triangular"@ {
        Some(XsectType::RectTriang)
    } else if name == "rect_round"@ {
        Some(XsectType::RectRound)
    } else if name == "modified_basket"@ {
        Some(XsectType::ModBasket)
    } else if name == "horizontal_ellipse"@ {
        Some(XsectType::HorizEllipse)
    } else if name == "vertical_ellipse"@ {
        Some(XsectType::VertEllipse)
    } else if name == "arch"@ {
        Some(XsectType::Arch)
    } else if name == "egg_shaped"@ {
        Some(XsectType::Eggshaped)
    } else if name == "horseshoe"@ {
        Some(XsectType::Horseshoe)
    } else if name == "gothic"@ {
        Some(XsectType::Gothic)
    } else if name == "catenary"@ {
        Some(XsectType::Catenary)
    } else if name == "semi_elliptical"@ {
        Some(XsectType::Semielliptical)
    } else if name == "basket_handle"@ {
        Some(XsectType::Baskethandle)
    } else if name == "semi_circular"@ {
        Some(XsectType::Semicircular)
    } else if name == "force_main"@ {
        Some(XsectType::ForceMain)
    } else {
        None
    }
}

/// The XsectType of a public enum member, or the detail of its refusal.
pub open spec fn spec_extract_xsect_type(value: PyValue) -> Result<XsectType, Seq<char>> {
    match spec_link_enum_name(value, "shape"@, PublicType::StandardCrossSectionShape) {
        Err(d) => Err(d),
        Ok(spelling) => match spec_xsect_type_named(spelling) {
            Some(kind) => Ok(kind),
            None => Err("invalid standard cross-section shape"@),
        },
    }
}

/// Extracts one public standard cross-section shape enum.
pub fn extract_xsect_type(value: &PyValue) -> (result: Result<XsectType, NativeError>)
    ensures
        match spec_extract_xsect_type(*value) {
            Ok(kind) => result == Ok::<XsectType, NativeError>(kind),
            Err(d) => result is Err && is_property_error(
                result->Err_0,
                "update_link_settings",
                ErrorCode::ApiPropertyValue,
                d,
            ),
        },
{
    let spelling = match link_enum_name(value, "shape", PublicType::StandardCrossSectionShape) {
        Ok(spelling) => spelling,
        Err(error) => {
            return Err(error);
        },
    };
    let s = spelling.as_str();
    if str_eq(s, "dummy") {
        Ok(XsectType::Dummy)
    } else if str_eq(s, "circular") {
        Ok(XsectType::Circular)
    } else if str_eq(s, "filled_circular") {
        Ok(XsectType::FilledCircular)
    } else if str_eq(s, "rect_closed") {
        Ok(XsectType::RectClosed)
    } else if str_eq(s, "rect_open") {
        Ok(XsectType::RectOpen)
    } else if str_eq(s, "trapezoidal") {
        Ok(XsectType::Trapezoidal)
    } else if str_eq(s, "triangular") {
        Ok(XsectType::Triangular)
    } else if str_eq(s, "parabolic") {
        Ok(XsectType::Parabolic)
    } else if str_eq(s, "power_function") {
        Ok(XsectType::Powerfunc)
    } else if str_eq(s, "rect_triangular") {
        Ok(XsectType::RectTriang)
    } else if str_eq(s, "rect_round") {
        Ok(XsectType::RectRound)
    } else if str_eq(s, "modified_basket") {
        Ok(XsectType::ModBasket)
    } else if str_eq(s, "horizontal_ellipse") {
        Ok(XsectType::HorizEllipse)
    } else if str_eq(s, "vertical_ellipse") {
        Ok(XsectType::VertEllipse)
    } else if str_eq(s, "arch") {
        Ok(XsectType::Arch)
    } else if str_eq(s, "egg_shaped") {
        Ok(XsectType::Eggshaped)
    } else if str_eq(s, "horseshoe") {
        Ok(XsectType::Horseshoe)
    } else if str_eq(s, "gothic") {
        Ok(XsectType::Gothic)
    } else if str_eq(s, "catenary") {
        Ok(XsectType::Catenary)
    } else if str_eq(s, "semi_elliptical") {
        Ok(XsectType::Semielliptical)
    } else if str_eq(s, "basket_handle") {
        Ok(XsectType::Baskethandle)
    } else if str_eq(s, "semi_circular") {
        Ok(XsectType::Semicircular)
    } else if str_eq(s, "force_main") {
        Ok(XsectType::ForceMain)
    } else {
        Err(property_error("update_link_settings", "invalid standard cross-section shape"))
    }
}

/// A storage-unit shape discriminator.
#[derive(Clone, Copy, Debug, PartialEq, Eq, Structural)]
pub enum StorageType {
    Functional,
    Tabular,
    Cylindrical,
    Conical,
    Paraboloid,
    Pyramidal,
}

/// The stable private name of a storage shape discriminator.
pub open spec fn spec_storage_type_name(kind: StorageType) -> &'static str {
    match kind {
        StorageType::Functional => "functional",
        StorageType::Tabular => "tabular",
        StorageType::Cylindrical => "cylindrical",
        StorageType::Conical => "conical",
        StorageType::Paraboloid => "paraboloid",
        StorageType::Pyramidal => "pyramidal",
    }
}

/// Returns the stable private name for one storage shape discriminator.
pub fn storage_type_name(kind: StorageType) -> (name: &'static str)
    ensures
        name == spec_storage_type_name(kind),
{
    match kind {
        StorageType::Functional => "functional",
        StorageType::Tabular => "tabular",
        StorageType::Cylindrical => "cylindrical",
        StorageType::Conical => "conical",
        StorageType::Paraboloid => "paraboloid",
        StorageType::Pyramidal => "pyramidal",
    }
}

/// The stable spelling of an outlet head basis.
pub open spec fn spec_outlet_head_basis_name(value: OutletHeadBasis) -> &'static str {
    match value {
        OutletHeadBasis::Depth => "depth",
        OutletHeadBasis::Head => "head",
    }
}

/// Returns the stable spelling of an outlet head basis.
pub fn outlet_head_basis_name(value: OutletHeadBasis) -> (name: &'static str)
    ensures
        name == spec_outlet_head_basis_name(value),
{
    match value {
        OutletHeadBasis::Depth => "depth",
        OutletHeadBasis::Head => "head",
    }
}

/// Reading a spelling back gives the outlet head basis it names.
pub proof fn lemma_outlet_head_basis_round_trip(basis: OutletHeadBasis)
    ensures
        spec_outlet_head_basis_named(spec_outlet_head_basis_name(basis)@) == Some(basis),
{
    reveal_strlit("depth");
    reveal_strlit("head");
    assert("depth"@.len() == 5);
    assert("head"@.len() == 4);
    assert("depth"@ != "head"@);
}

} // verus!
