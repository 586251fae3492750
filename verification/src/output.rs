use vstd::prelude::*;
use vstd::string::*;

use crate::text::{debug_str, spec_debug_str, str_eq};

verus! {

/// How a binary output file was closed.
#[derive(Clone, Copy, Debug, PartialEq, Eq, Structural)]
pub enum RunStatus {
    Unfinalized,
    Success,
    Warning(i32),
}

/// The stored run-status code: `None` while the file was not finalized.
pub open spec fn spec_run_status_code(status: RunStatus) -> Option<i32> {
    match status {
        RunStatus::Unfinalized => None,
        RunStatus::Success => Some(0),
        RunStatus::Warning(code) => Some(code),
    }
}

/// Returns the stored run-status code when the file was finalized.
pub fn run_status_code(status: RunStatus) -> (code: Option<i32>)
    ensures
        code == spec_run_status_code(status),
{
    match status {
        RunStatus::Unfinalized => None,
        RunStatus::Success => Some(0),
        RunStatus::Warning(code) => Some(code),
    }
}

/// Flow units recorded in an output file.
#[derive(Clone, Copy, Debug, PartialEq, Eq, Structural)]
pub enum FlowUnits {
    Cfs,
    Gpm,
    Mgd,
    Cms,
    Lps,
    Mld,
    Unknown(i32),
}

/// The exact stored flow-unit code.
pub open spec fn spec_flow_units_code(value: FlowUnits) -> int {
    match value {
        FlowUnits::Cfs => 0,
        FlowUnits::Gpm => 1,
        FlowUnits::Mgd => 2,
        FlowUnits::Cms => 3,
        FlowUnits::Lps => 4,
        FlowUnits::Mld => 5,
        FlowUnits::Unknown(code) => code as int,
    }
}

/// The exact stored flow-unit code.
pub fn flow_units_code(value: FlowUnits) -> (code: i32)
    ensures
        code == spec_flow_units_code(value),
{
    match value {
        FlowUnits::Cfs => 0,
        FlowUnits::Gpm => 1,
        FlowUnits::Mgd => 2,
        FlowUnits::Cms => 3,
        FlowUnits::Lps => 4,
        FlowUnits::Mld => 5,
        FlowUnits::Unknown(code) => code,
    }
}

/// Concentration units of a pollutant in an output file.
#[derive(Clone, Copy, Debug, PartialEq, Eq, Structural)]
pub enum ConcentrationUnits {
    MilligramsPerLiter,
    MicrogramsPerLiter,
    CountsPerLiter,
    Unknown(i32),
}

/// The exact stored concentration-unit code.
pub open spec fn spec_concentration_units_code(value: ConcentrationUnits) -> int {
    match value {
        ConcentrationUnits::MilligramsPerLiter => 0,
        ConcentrationUnits::MicrogramsPerLiter => 1,
        ConcentrationUnits::CountsPerLiter => 2,
        ConcentrationUnits::Unknown(code) => code as int,
    }
}

/// The exact stored concentration-unit code.
pub fn concentration_units_code(value: ConcentrationUnits) -> (code: i32)
    ensures
        code == spec_concentration_units_code(value),
{
    match value {
        ConcentrationUnits::MilligramsPerLiter => 0,
        ConcentrationUnits::MicrogramsPerLiter => 1,
        ConcentrationUnits::CountsPerLiter => 2,
        ConcentrationUnits::Unknown(code) => code,
    }
}

/// The kind of a node in an output file.
#[derive(Clone, Copy, Debug, PartialEq, Eq, Structural)]
pub enum NodeKind {
    Junction,
    Outfall,
    Storage,
    Divider,
    Unknown(i32),
}

/// The exact stored node-kind code.
pub open spec fn spec_node_kind_code(value: NodeKind) -> int {
    match value {
        NodeKind::Junction => 0,
        NodeKind::Outfall => 1,
        NodeKind::Storage => 2,
        NodeKind::Divider => 3,
        NodeKind::Unknown(code) => code as int,
    }
}

/// The exact stored node-kind code.
pub fn node_kind_code(value: NodeKind) -> (code: i32)
    ensures
        code == spec_node_kind_code(value),
{
    match value {
        NodeKind::Junction => 0,
        NodeKind::Outfall => 1,
        NodeKind::Storage => 2,
        NodeKind::Divider => 3,
        NodeKind::Unknown(code) => code,
    }
}

/// The kind of a link in an output file.
#[derive(Clone, Copy, Debug, PartialEq, Eq, Structural)]
pub enum LinkKind {
    Conduit,
    Pump,
    Orifice,
    Weir,
    Outlet,
    Unknown(i32),
}

/// The exact stored link-kind code.
pub open spec fn spec_link_kind_code(value: LinkKind) -> int {
    match value {
        LinkKind::Conduit => 0,
        LinkKind::Pump => 1,
        LinkKind::Orifice => 2,
        LinkKind::Weir => 3,
        LinkKind::Outlet => 4,
        LinkKind::Unknown(code) => code as int,
    }
}

/// The exact stored link-kind code.
pub fn link_kind_code(value: LinkKind) -> (code: i32)
    ensures
        code == spec_link_kind_code(value),
{
    match value {
        LinkKind::Conduit => 0,
        LinkKind::Pump => 1,
        LinkKind::Orifice => 2,
        LinkKind::Weir => 3,
        LinkKind::Outlet => 4,
        LinkKind::Unknown(code) => code,
    }
}

/// A stored subcatchment result variable.
#[derive(Clone, Copy, Debug, PartialEq, Eq, Structural)]
pub enum SubcatchmentResultAttribute {
    Rainfall,
    SnowDepth,
    EvaporationLoss,
    InfiltrationLoss,
    RunoffFlow,
    GroundwaterFlow,
    GroundwaterElevation,
    SoilMoisture,
    Pollutant(usize),
    Unknown(i32),
}

/// The exact stored subcatchment result code.
pub open spec fn spec_subcatchment_result_code(value: SubcatchmentResultAttribute) -> int {
    match value {
        SubcatchmentResultAttribute::Rainfall => 0,
        SubcatchmentResultAttribute::SnowDepth => 1,
        SubcatchmentResultAttribute::EvaporationLoss => 2,
        SubcatchmentResultAttribute::InfiltrationLoss => 3,
        SubcatchmentResultAttribute::RunoffFlow => 4,
        SubcatchmentResultAttribute::GroundwaterFlow => 5,
        SubcatchmentResultAttribute::GroundwaterElevation => 6,
        SubcatchmentResultAttribute::SoilMoisture => 7,
        SubcatchmentResultAttribute::Pollutant(index) => 8 + index,
        SubcatchmentResultAttribute::Unknown(code) => code as int,
    }
}

/// The exact stored subcatchment result code.
pub fn subcatchment_result_code(value: SubcatchmentResultAttribute) -> (code: i32)
    requires
        value matches SubcatchmentResultAttribute::Pollutant(index) ==> index + 8 <= i32::MAX,
    ensures
        code == spec_subcatchment_result_code(value),
{
    match value {
        SubcatchmentResultAttribute::Rainfall => 0,
        SubcatchmentResultAttribute::SnowDepth => 1,
        SubcatchmentResultAttribute::EvaporationLoss => 2,
        SubcatchmentResultAttribute::InfiltrationLoss => 3,
        SubcatchmentResultAttribute::RunoffFlow => 4,
        SubcatchmentResultAttribute::GroundwaterFlow => 5,
        SubcatchmentResultAttribute::GroundwaterElevation => 6,
        SubcatchmentResultAttribute::SoilMoisture => 7,
        SubcatchmentResultAttribute::Pollutant(index) => 8 + index as i32,
        SubcatchmentResultAttribute::Unknown(code) => code,
    }
}

/// A stored node result variable.
#[derive(Clone, Copy, Debug, PartialEq, Eq, Structural)]
pub enum NodeResultAttribute {
    Depth,
    HydraulicHead,
    StoredVolume,
    LateralInflow,
    TotalInflow,
    Overflow,
    Pollutant(usize),
    Unknown(i32),
}

/// The exact stored node result code.
pub open spec fn spec_node_result_code(value: NodeResultAttribute) -> int {
    match value {
        NodeResultAttribute::Depth => 0,
        NodeResultAttribute::HydraulicHead => 1,
        NodeResultAttribute::StoredVolume => 2,
        NodeResultAttribute::LateralInflow => 3,
        NodeResultAttribute::TotalInflow => 4,
        NodeResultAttribute::Overflow => 5,
        NodeResultAttribute::Pollutant(index) => 6 + index,
        NodeResultAttribute::Unknown(code) => code as int,
    }
}

/// The exact stored node result code.
pub fn node_result_code(value: NodeResultAttribute) -> (code: i32)
    requires
        value matches NodeResultAttribute::Pollutant(index) ==> index + 6 <= i32::MAX,
    ensures
        code == spec_node_result_code(value),
{
    match value {
        NodeResultAttribute::Depth => 0,
        NodeResultAttribute::HydraulicHead => 1,
        NodeResultAttribute::StoredVolume => 2,
        NodeResultAttribute::LateralInflow => 3,
        NodeResultAttribute::TotalInflow => 4,
        NodeResultAttribute::Overflow => 5,
        NodeResultAttribute::Pollutant(index) => 6 + index as i32,
        NodeResultAttribute::Unknown(code) => code,
    }
}

/// A stored link result variable.
#[derive(Clone, Copy, Debug, PartialEq, Eq, Structural)]
pub enum LinkResultAttribute {
    Flow,
    Depth,
    Velocity,
    Volume,
    Capacity,
    Pollutant(usize),
    Unknown(i32),
}

/// The exact stored link result code.
pub open spec fn spec_link_result_code(value: LinkResultAttribute) -> int {
    match value {
        LinkResultAttribute::Flow => 0,
        LinkResultAttribute::Depth => 1,
        LinkResultAttribute::Velocity => 2,
        LinkResultAttribute::Volume => 3,
        LinkResultAttribute::Capacity => 4,
        LinkResultAttribute::Pollutant(index) => 5 + index,
        LinkResultAttribute::Unknown(code) => code as int,
    }
}

/// The exact stored link result code.
pub fn link_result_code(value: LinkResultAttribute) -> (code: i32)
    requires
        value matches LinkResultAttribute::Pollutant(index) ==> index + 5 <= i32::MAX,
    ensures
        code == spec_link_result_code(value),
{
    match value {
        LinkResultAttribute::Flow => 0,
        LinkResultAttribute::Depth => 1,
        LinkResultAttribute::Velocity => 2,
        LinkResultAttribute::Volume => 3,
        LinkResultAttribute::Capacity => 4,
        LinkResultAttribute::Pollutant(index) => 5 + index as i32,
        LinkResultAttribute::Unknown(code) => code,
    }
}

/// A stored system result variable.
#[derive(Clone, Copy, Debug, PartialEq, Eq, Structural)]
pub enum SystemResultAttribute {
    AirTemperature,
    Rainfall,
    SnowDepth,
    InfiltrationLoss,
    RunoffFlow,
    DryWeatherInflow,
    GroundwaterInflow,
    RdiiInflow,
    ExternalInflow,
    TotalLateralInflow,
    FloodingOutflow,
    OutfallFlow,
    StorageVolume,
    Evaporation,
    PotentialEvapotranspiration,
    Unknown(i32),
}

/// The exact stored system result code.
pub open spec fn spec_system_result_code(value: SystemResultAttribute) -> int {
    match value {
        SystemResultAttribute::AirTemperature => 0,
        SystemResultAttribute::Rainfall => 1,
        SystemResultAttribute::SnowDepth => 2,
        SystemResultAttribute::InfiltrationLoss => 3,
        SystemResultAttribute::RunoffFlow => 4,
        SystemResultAttribute::DryWeatherInflow => 5,
        SystemResultAttribute::GroundwaterInflow => 6,
        SystemResultAttribute::RdiiInflow => 7,
        SystemResultAttribute::ExternalInflow => 8,
        SystemResultAttribute::TotalLateralInflow => 9,
        SystemResultAttribute::FloodingOutflow => 10,
        SystemResultAttribute::OutfallFlow => 11,
        SystemResultAttribute::StorageVolume => 12,
        SystemResultAttribute::Evaporation => 13,
        SystemResultAttribute::PotentialEvapotranspiration => 14,
        SystemResultAttribute::Unknown(code) => code as int,
    }
}

/// The exact stored system result code.
pub fn system_result_code(value: SystemResultAttribute) -> (code: i32)
    ensures
        code == spec_system_result_code(value),
{
    match value {
        SystemResultAttribute::AirTemperature => 0,
        SystemResultAttribute::Rainfall => 1,
        SystemResultAttribute::SnowDepth => 2,
        SystemResultAttribute::InfiltrationLoss => 3,
        SystemResultAttribute::RunoffFlow => 4,
        SystemResultAttribute::DryWeatherInflow => 5,
        SystemResultAttribute::GroundwaterInflow => 6,
        SystemResultAttribute::RdiiInflow => 7,
        SystemResultAttribute::ExternalInflow => 8,
        SystemResultAttribute::TotalLateralInflow => 9,
        SystemResultAttribute::FloodingOutflow => 10,
        SystemResultAttribute::OutfallFlow => 11,
        SystemResultAttribute::StorageVolume => 12,
        SystemResultAttribute::Evaporation => 13,
        SystemResultAttribute::PotentialEvapotranspiration => 14,
        SystemResultAttribute::Unknown(code) => code,
    }
}


/// An output element family.
#[derive(Clone, Copy, Debug, PartialEq, Eq, Structural)]
pub enum OutputElementType {
    Subcatchment,
    Node,
    Link,
    System,
}

/// One typed result-series selection: an element's stored id and one of its result variables.
#[derive(Clone, Copy, Debug, PartialEq, Eq, Structural)]
pub enum OutputSeriesSelection {
    Subcatchment { id: usize, attribute: SubcatchmentResultAttribute },
    Node { id: usize, attribute: NodeResultAttribute },
    Link { id: usize, attribute: LinkResultAttribute },
    System { attribute: SystemResultAttribute },
}

/// Validated output metadata that selections are compiled against: each family's element ids
/// in stored order and each family's stored result schema.
pub struct OutputCatalog {
    pub subcatchment_ids: Vec<usize>,
    pub node_ids: Vec<usize>,
    pub link_ids: Vec<usize>,
    pub subcatchment_schema: Vec<SubcatchmentResultAttribute>,
    pub node_schema: Vec<NodeResultAttribute>,
    pub link_schema: Vec<LinkResultAttribute>,
    pub system_schema: Vec<SystemResultAttribute>,
}

/// Why one requested selection was refused.
#[derive(Clone, Debug)]
pub enum SelectionFailure {
    /// The element index is past the end of its family.
    InvalidElement { element_type: OutputElementType, index: usize, count: usize },
    /// The selection cannot be expressed.
    InvalidSelection(String),
}

impl OutputCatalog {
    /// Every stored pollutant result code fits the 32-bit code space.
    pub open spec fn wf(&self) -> bool {
        &&& forall|i: int|
            0 <= i < self.subcatchment_schema@.len() && #[trigger] self.subcatchment_schema@[i] is Pollutant ==> self.subcatchment_schema@[i]->Pollutant_0 + 8 <= i32::MAX
        &&& forall|i: int|
            0 <= i < self.node_schema@.len() && #[trigger] self.node_schema@[i] is Pollutant ==> self.node_schema@[i]->Pollutant_0 + 6 <= i32::MAX
        &&& forall|i: int|
            0 <= i < self.link_schema@.len() && #[trigger] self.link_schema@[i] is Pollutant ==> self.link_schema@[i]->Pollutant_0 + 5 <= i32::MAX
    }
}

/// The first attribute of `schema` at or after `from` whose stored code is `code`, or the
/// unknown attribute with that code.
pub open spec fn spec_find_subcatchment_attribute(schema: Seq<SubcatchmentResultAttribute>, code: i32, from: int) -> SubcatchmentResultAttribute
    decreases schema.len() - from,
{
    if 0 <= from < schema.len() {
        if spec_subcatchment_result_code(schema[from]) == code as int {
            schema[from]
        } else {
            spec_find_subcatchment_attribute(schema, code, from + 1)
        }
    } else {
        SubcatchmentResultAttribute::Unknown(code)
    }
}

/// The attribute found for `code` keeps that code and, when it is a pollutant, comes from `schema`.
pub proof fn lemma_find_subcatchment_attribute(schema: Seq<SubcatchmentResultAttribute>, code: i32, from: int)
    ensures
        spec_subcatchment_result_code(spec_find_subcatchment_attribute(schema, code, from)) == code as int,
        spec_find_subcatchment_attribute(schema, code, from) is Unknown || exists|i: int|
            from <= i < schema.len() && #[trigger] schema[i] == spec_find_subcatchment_attribute(
                schema,
                code,
                from,
            ),
    decreases schema.len() - from,
{
    if 0 <= from < schema.len() {
        if spec_subcatchment_result_code(schema[from]) != code as int {
            lemma_find_subcatchment_attribute(schema, code, from + 1);
        }
    }
}

/// Finds the stored attribute whose code is `code`, or the unknown attribute with that code.
fn find_subcatchment_attribute(schema: &Vec<SubcatchmentResultAttribute>, code: i32) -> (attribute: SubcatchmentResultAttribute)
    requires
        forall|i: int| 0 <= i < schema@.len() ==> { let attribute = #[trigger] schema@[i]; attribute matches SubcatchmentResultAttribute::Pollutant(index) ==> index + 8 <= i32::MAX },
    ensures
        attribute == spec_find_subcatchment_attribute(schema@, code, 0),
{
    let mut i: usize = 0;
    while i < schema.len()
        invariant
            i <= schema@.len(),
            forall|j: int| 0 <= j < schema@.len() ==> { let attribute = #[trigger] schema@[j]; attribute matches SubcatchmentResultAttribute::Pollutant(index) ==> index + 8 <= i32::MAX },
            spec_find_subcatchment_attribute(schema@, code, 0) == spec_find_subcatchment_attribute(schema@, code, i as int),
        decreases schema@.len() - i,
    {
        let candidate = schema[i];
        if subcatchment_result_code(candidate) == code {
            return candidate;
        }
        i = i + 1;
    }
    SubcatchmentResultAttribute::Unknown(code)
}

/// The first attribute of `schema` at or after `from` whose stored code is `code`, or the
/// unknown attribute with that code.
pub open spec fn spec_find_node_attribute(schema: Seq<NodeResultAttribute>, code: i32, from: int) -> NodeResultAttribute
    decreases schema.len() - from,
{
    if 0 <= from < schema.len() {
        if spec_node_result_code(schema[from]) == code as int {
            schema[from]
        } else {
            spec_find_node_attribute(schema, code, from + 1)
        }
    } else {
        NodeResultAttribute::Unknown(code)
    }
}

/// The attribute found for `code` keeps that code and, when it is a pollutant, comes from `schema`.
pub proof fn lemma_find_node_attribute(schema: Seq<NodeResultAttribute>, code: i32, from: int)
    ensures
        spec_node_result_code(spec_find_node_attribute(schema, code, from)) == code as int,
        spec_find_node_attribute(schema, code, from) is Unknown || exists|i: int|
            from <= i < schema.len() && #[trigger] schema[i] == spec_find_node_attribute(
                schema,
                code,
                from,
            ),
    decreases schema.len() - from,
{
    if 0 <= from < schema.len() {
        if spec_node_result_code(schema[from]) != code as int {
            lemma_find_node_attribute(schema, code, from + 1);
        }
    }
}

/// Finds the stored attribute whose code is `code`, or the unknown attribute with that code.
fn find_node_attribute(schema: &Vec<NodeResultAttribute>, code: i32) -> (attribute: NodeResultAttribute)
    requires
        forall|i: int| 0 <= i < schema@.len() ==> { let attribute = #[trigger] schema@[i]; attribute matches NodeResultAttribute::Pollutant(index) ==> index + 6 <= i32::MAX },
    ensures
        attribute == spec_find_node_attribute(schema@, code, 0),
{
    let mut i: usize = 0;
    while i < schema.len()
        invariant
            i <= schema@.len(),
            forall|j: int| 0 <= j < schema@.len() ==> { let attribute = #[trigger] schema@[j]; attribute matches NodeResultAttribute::Pollutant(index) ==> index + 6 <= i32::MAX },
            spec_find_node_attribute(schema@, code, 0) == spec_find_node_attribute(schema@, code, i as int),
        decreases schema@.len() - i,
    {
        let candidate = schema[i];
        if node_result_code(candidate) == code {
            return candidate;
        }
        i = i + 1;
    }
    NodeResultAttribute::Unknown(code)
}

/// The first attribute of `schema` at or after `from` whose stored code is `code`, or the
/// unknown attribute with that code.
pub open spec fn spec_find_link_attribute(schema: Seq<LinkResultAttribute>, code: i32, from: int) -> LinkResultAttribute
    decreases schema.len() - from,
{
    if 0 <= from < schema.len() {
        if spec_link_result_code(schema[from]) == code as int {
            schema[from]
        } else {
            spec_find_link_attribute(schema, code, from + 1)
        }
    } else {
        LinkResultAttribute::Unknown(code)
    }
}

/// The attribute found for `code` keeps that code and, when it is a pollutant, comes from `schema`.
pub proof fn lemma_find_link_attribute(schema: Seq<LinkResultAttribute>, code: i32, from: int)
    ensures
        spec_link_result_code(spec_find_link_attribute(schema, code, from)) == code as int,
        spec_find_link_attribute(schema, code, from) is Unknown || exists|i: int|
            from <= i < schema.len() && #[trigger] schema[i] == spec_find_link_attribute(
                schema,
                code,
                from,
            ),
    decreases schema.len() - from,
{
    if 0 <= from < schema.len() {
        if spec_link_result_code(schema[from]) != code as int {
            lemma_find_link_attribute(schema, code, from + 1);
        }
    }
}

/// Finds the stored attribute whose code is `code`, or the unknown attribute with that code.
fn find_link_attribute(schema: &Vec<LinkResultAttribute>, code: i32) -> (attribute: LinkResultAttribute)
    requires
        forall|i: int| 0 <= i < schema@.len() ==> { let attribute = #[trigger] schema@[i]; attribute matches LinkResultAttribute::Pollutant(index) ==> index + 5 <= i32::MAX },
    ensures
        attribute == spec_find_link_attribute(schema@, code, 0),
{
    let mut i: usize = 0;
    while i < schema.len()
        invariant
            i <= schema@.len(),
            forall|j: int| 0 <= j < schema@.len() ==> { let attribute = #[trigger] schema@[j]; attribute matches LinkResultAttribute::Pollutant(index) ==> index + 5 <= i32::MAX },
            spec_find_link_attribute(schema@, code, 0) == spec_find_link_attribute(schema@, code, i as int),
        decreases schema@.len() - i,
    {
        let candidate = schema[i];
        if link_result_code(candidate) == code {
            return candidate;
        }
        i = i + 1;
    }
    LinkResultAttribute::Unknown(code)
}

/// The first attribute of `schema` at or after `from` whose stored code is `code`, or the
/// unknown attribute with that code.
pub open spec fn spec_find_system_attribute(schema: Seq<SystemResultAttribute>, code: i32, from: int) -> SystemResultAttribute
    decreases schema.len() - from,
{
    if 0 <= from < schema.len() {
        if spec_system_result_code(schema[from]) == code as int {
            schema[from]
        } else {
            spec_find_system_attribute(schema, code, from + 1)
        }
    } else {
        SystemResultAttribute::Unknown(code)
    }
}

/// The attribute found for `code` keeps that code and, when it is a pollutant, comes from `schema`.
pub proof fn lemma_find_system_attribute(schema: Seq<SystemResultAttribute>, code: i32, from: int)
    ensures
        spec_system_result_code(spec_find_system_attribute(schema, code, from)) == code as int,
        spec_find_system_attribute(schema, code, from) is Unknown || exists|i: int|
            from <= i < schema.len() && #[trigger] schema[i] == spec_find_system_attribute(
                schema,
                code,
                from,
            ),
    decreases schema.len() - from,
{
    if 0 <= from < schema.len() {
        if spec_system_result_code(schema[from]) != code as int {
            lemma_find_system_attribute(schema, code, from + 1);
        }
    }
}

/// Finds the stored attribute whose code is `code`, or the unknown attribute with that code.
fn find_system_attribute(schema: &Vec<SystemResultAttribute>, code: i32) -> (attribute: SystemResultAttribute)
    requires
        forall|i: int| 0 <= i < schema@.len() ==> { let attribute = #[trigger] schema@[i]; true },
    ensures
        attribute == spec_find_system_attribute(schema@, code, 0),
{
    let mut i: usize = 0;
    while i < schema.len()
        invariant
            i <= schema@.len(),
            forall|j: int| 0 <= j < schema@.len() ==> { let attribute = #[trigger] schema@[j]; true },
            spec_find_system_attribute(schema@, code, 0) == spec_find_system_attribute(schema@, code, i as int),
        decreases schema@.len() - i,
    {
        let candidate = schema[i];
        if system_result_code(candidate) == code {
            return candidate;
        }
        i = i + 1;
    }
    SystemResultAttribute::Unknown(code)
}


/// The selection that one requested `(family, index, code)` compiles to, if it compiles.
pub open spec fn spec_compile_one(
    catalog: OutputCatalog,
    family: Seq<char>,
    index: usize,
    code: i32,
) -> Option<OutputSeriesSelection> {
    if family == "subcatchment"@ {
        if index < catalog.subcatchment_ids@.len() {
            Some(
                OutputSeriesSelection::Subcatchment {
                    id: catalog.subcatchment_ids@[index as int],
                    attribute: spec_find_subcatchment_attribute(catalog.subcatchment_schema@, code, 0),
                },
            )
        } else {
            None
        }
    } else if family == "node"@ {
        if index < catalog.node_ids@.len() {
            Some(
                OutputSeriesSelection::Node {
                    id: catalog.node_ids@[index as int],
                    attribute: spec_find_node_attribute(catalog.node_schema@, code, 0),
                },
            )
        } else {
            None
        }
    } else if family == "link"@ {
        if index < catalog.link_ids@.len() {
            Some(
                OutputSeriesSelection::Link {
                    id: catalog.link_ids@[index as int],
                    attribute: spec_find_link_attribute(catalog.link_schema@, code, 0),
                },
            )
        } else {
            None
        }
    } else if family == "system"@ && index == 0 {
        Some(
            OutputSeriesSelection::System {
                attribute: spec_find_system_attribute(catalog.system_schema@, code, 0),
            },
        )
    } else {
        None
    }
}

/// True when `failure` is the refusal of a requested `(family, index)` that does not compile.
pub open spec fn spec_selection_failure(
    catalog: OutputCatalog,
    family: Seq<char>,
    index: usize,
    failure: SelectionFailure,
) -> bool {
    if family == "subcatchment"@ {
        failure == (SelectionFailure::InvalidElement {
            element_type: OutputElementType::Subcatchment,
            index,
            count: catalog.subcatchment_ids@.len() as usize,
        })
    } else if family == "node"@ {
        failure == (SelectionFailure::InvalidElement {
            element_type: OutputElementType::Node,
            index,
            count: catalog.node_ids@.len() as usize,
        })
    } else if family == "link"@ {
        failure == (SelectionFailure::InvalidElement {
            element_type: OutputElementType::Link,
            index,
            count: catalog.link_ids@.len() as usize,
        })
    } else if family == "system"@ {
        failure matches SelectionFailure::InvalidSelection(m) && m@
            == "system selections must use element index 0"@
    } else {
        failure matches SelectionFailure::InvalidSelection(m) && m@ == "unknown output element type "@
            + spec_debug_str(family)
    }
}

/// Compiles one requested selection through the stored ids and schemas.
fn compile_selection(catalog: &OutputCatalog, family: &str, index: usize, code: i32) -> (result:
    Result<OutputSeriesSelection, SelectionFailure>)
    requires
        catalog.wf(),
    ensures
        spec_compile_one(*catalog, family@, index, code) is Some ==> result == Ok::<
            OutputSeriesSelection,
            SelectionFailure,
        >(spec_compile_one(*catalog, family@, index, code)->0),
        spec_compile_one(*catalog, family@, index, code) is None ==> result is Err
            && spec_selection_failure(*catalog, family@, index, result->Err_0),
{
    if str_eq(family, "subcatchment") {
        if index < catalog.subcatchment_ids.len() {
            let id = catalog.subcatchment_ids[index];
            let attribute = find_subcatchment_attribute(&catalog.subcatchment_schema, code);
            Ok(OutputSeriesSelection::Subcatchment { id, attribute })
        } else {
            Err(
                SelectionFailure::InvalidElement {
                    element_type: OutputElementType::Subcatchment,
                    index,
                    count: catalog.subcatchment_ids.len(),
                },
            )
        }
    } else if str_eq(family, "node") {
        if index < catalog.node_ids.len() {
            let id = catalog.node_ids[index];
            let attribute = find_node_attribute(&catalog.node_schema, code);
            Ok(OutputSeriesSelection::Node { id, attribute })
        } else {
            Err(
                SelectionFailure::InvalidElement {
                    element_type: OutputElementType::Node,
                    index,
                    count: catalog.node_ids.len(),
                },
            )
        }
    } else if str_eq(family, "link") {
        if index < catalog.link_ids.len() {
            let id = catalog.link_ids[index];
            let attribute = find_link_attribute(&catalog.link_schema, code);
            Ok(OutputSeriesSelection::Link { id, attribute })
        } else {
            Err(
                SelectionFailure::InvalidElement {
                    element_type: OutputElementType::Link,
                    index,
                    count: catalog.link_ids.len(),
                },
            )
        }
    } else if str_eq(family, "system") {
        if index == 0 {
            let attribute = find_system_attribute(&catalog.system_schema, code);
            Ok(OutputSeriesSelection::System { attribute })
        } else {
            Err(
                SelectionFailure::InvalidSelection(
                    String::from_str("system selections must use element index 0"),
                ),
            )
        }
    } else {
        let message = String::from_str("unknown output element type ").concat(debug_str(family).as_str());
        Err(SelectionFailure::InvalidSelection(message))
    }
}

/// The selection that the `i`th requested tuple compiles to, if it compiles.
pub open spec fn spec_compiled(
    catalog: OutputCatalog,
    raw: Seq<(String, usize, i32)>,
    i: int,
) -> Option<OutputSeriesSelection> {
    spec_compile_one(catalog, raw[i].0@, raw[i].1, raw[i].2)
}

/// Compiles requested `(family, index, code)` selections, in order, through the stored ids and
/// schemas; the first selection that does not compile is refused.
///
/// A code that no stored attribute of the family has selects the unknown attribute with that code.
pub fn compile_selections(catalog: &OutputCatalog, raw_selections: Vec<(String, usize, i32)>) -> (result:
    Result<Vec<OutputSeriesSelection>, SelectionFailure>)
    requires
        catalog.wf(),
    ensures
        (forall|i: int| 0 <= i < raw_selections@.len() ==> #[trigger] spec_compiled(*catalog, raw_selections@, i) is Some)
            <==> result is Ok,
        result is Ok ==> {
            &&& result->Ok_0@.len() == raw_selections@.len()
            &&& forall|i: int|
                0 <= i < raw_selections@.len() ==> #[trigger] result->Ok_0@[i] == spec_compiled(
                    *catalog,
                    raw_selections@,
                    i,
                )->0
        },
        result is Err ==> exists|k: int|
            {
                &&& 0 <= k < raw_selections@.len()
                &&& forall|i: int| 0 <= i < k ==> #[trigger] spec_compiled(*catalog, raw_selections@, i) is Some
                &&& spec_compiled(*catalog, raw_selections@, k) is None
                &&& spec_selection_failure(
                    *catalog,
                    raw_selections@[k].0@,
                    raw_selections@[k].1,
                    result->Err_0,
                )
            },
{
    let mut compiled: Vec<OutputSeriesSelection> = Vec::new();
    let mut i: usize = 0;
    while i < raw_selections.len()
        invariant
            catalog.wf(),
            i <= raw_selections@.len(),
            compiled@.len() == i,
            forall|j: int| 0 <= j < i ==> #[trigger] spec_compiled(*catalog, raw_selections@, j) is Some,
            forall|j: int|
                0 <= j < i ==> #[trigger] compiled@[j] == spec_compiled(*catalog, raw_selections@, j)->0,
        decreases raw_selections@.len() - i,
    {
        let (family, index, code) = &raw_selections[i];
        match compile_selection(catalog, family.as_str(), *index, *code) {
            Ok(selection) => {
                compiled.push(selection);
            },
            Err(failure) => {
                assert(spec_compiled(*catalog, raw_selections@, i as int) is None);
                return Err(failure);
            },
        }
        i = i + 1;
    }
    Ok(compiled)
}

/// Every pollutant of a selection has a result code that fits the 32-bit code space.
pub open spec fn spec_selection_codes_fit(selection: OutputSeriesSelection) -> bool {
    match selection {
        OutputSeriesSelection::Subcatchment { attribute, .. } => attribute matches SubcatchmentResultAttribute::Pollutant(index) ==> index + 8 <= i32::MAX,
        OutputSeriesSelection::Node { attribute, .. } => attribute matches NodeResultAttribute::Pollutant(index) ==> index + 6 <= i32::MAX,
        OutputSeriesSelection::Link { attribute, .. } => attribute matches LinkResultAttribute::Pollutant(index) ==> index + 5 <= i32::MAX,
        OutputSeriesSelection::System { .. } => true,
    }
}

/// The `(family, id, code)` payload that encodes a selection.
pub open spec fn spec_selection_payload(selection: OutputSeriesSelection) -> (Seq<char>, usize, int) {
    match selection {
        OutputSeriesSelection::Subcatchment { id, attribute } => ("subcatchment"@, id, spec_subcatchment_result_code(attribute)),
        OutputSeriesSelection::Node { id, attribute } => ("node"@, id, spec_node_result_code(attribute)),
        OutputSeriesSelection::Link { id, attribute } => ("link"@, id, spec_link_result_code(attribute)),
        OutputSeriesSelection::System { attribute } => ("system"@, 0, spec_system_result_code(attribute)),
    }
}

/// Encodes one selection as its `(family, id, code)` payload.
pub fn selection_payload(selection: OutputSeriesSelection) -> (payload: (String, usize, i32))
    requires
        spec_selection_codes_fit(selection),
    ensures
        (payload.0@, payload.1, payload.2 as int) == spec_selection_payload(selection),
{
    match selection {
        OutputSeriesSelection::Subcatchment { id, attribute } => (String::from_str("subcatchment"), id, subcatchment_result_code(attribute)),
        OutputSeriesSelection::Node { id, attribute } => (String::from_str("node"), id, node_result_code(attribute)),
        OutputSeriesSelection::Link { id, attribute } => (String::from_str("link"), id, link_result_code(attribute)),
        OutputSeriesSelection::System { attribute } => (String::from_str("system"), 0, system_result_code(attribute)),
    }
}

/// The stored id that a compiled selection names: the element's id, or `0` for the system.
pub open spec fn spec_requested_id(catalog: OutputCatalog, family: Seq<char>, index: usize) -> usize {
    if family == "subcatchment"@ {
        catalog.subcatchment_ids@[index as int]
    } else if family == "node"@ {
        catalog.node_ids@[index as int]
    } else if family == "link"@ {
        catalog.link_ids@[index as int]
    } else {
        0
    }
}

/// A compiled selection encodes back to the family and result code it was requested with and
/// to the stored id of the requested element; its codes fit, so it can always be encoded.
pub proof fn lemma_selection_payload_round_trip(
    catalog: OutputCatalog,
    family: Seq<char>,
    index: usize,
    code: i32,
)
    requires
        catalog.wf(),
        spec_compile_one(catalog, family, index, code) is Some,
    ensures
        spec_selection_codes_fit(spec_compile_one(catalog, family, index, code)->0),
        spec_selection_payload(spec_compile_one(catalog, family, index, code)->0) == (
            family,
            spec_requested_id(catalog, family, index),
            code as int,
        ),
{
    lemma_find_subcatchment_attribute(catalog.subcatchment_schema@, code, 0);
    lemma_find_node_attribute(catalog.node_schema@, code, 0);
    lemma_find_link_attribute(catalog.link_schema@, code, 0);
    lemma_find_system_attribute(catalog.system_schema@, code, 0);
}

/// The pollutant index of a stored subcatchment attribute, if it is a pollutant.
pub open spec fn spec_subcatchment_pollutant(attribute: SubcatchmentResultAttribute) -> Option<usize> {
    match attribute {
        SubcatchmentResultAttribute::Pollutant(index) => Some(index),
        _ => None,
    }
}

/// The `(code, pollutant)` schema payload of the subcatchment family, in stored order.
pub fn subcatchment_schema_payload(schema: &Vec<SubcatchmentResultAttribute>) -> (payload: Vec<(i32, Option<usize>)>)
    requires
        forall|i: int| 0 <= i < schema@.len() ==> { let attribute = #[trigger] schema@[i]; attribute matches SubcatchmentResultAttribute::Pollutant(index) ==> index + 8 <= i32::MAX },
    ensures
        payload@.len() == schema@.len(),
        forall|i: int|
            0 <= i < schema@.len() ==> #[trigger] payload@[i] == (
                spec_subcatchment_result_code(schema@[i]) as i32,
                spec_subcatchment_pollutant(schema@[i]),
            ),
{
    let mut payload: Vec<(i32, Option<usize>)> = Vec::new();
    let mut i: usize = 0;
    while i < schema.len()
        invariant
            i <= schema@.len(),
            payload@.len() == i,
            forall|j: int| 0 <= j < schema@.len() ==> { let attribute = #[trigger] schema@[j]; attribute matches SubcatchmentResultAttribute::Pollutant(index) ==> index + 8 <= i32::MAX },
            forall|j: int|
                0 <= j < i ==> #[trigger] payload@[j] == (
                    spec_subcatchment_result_code(schema@[j]) as i32,
                    spec_subcatchment_pollutant(schema@[j]),
                ),
        decreases schema@.len() - i,
    {
        let attribute = schema[i];
        let pollutant = match attribute {
            SubcatchmentResultAttribute::Pollutant(index) => Some(index),
            _ => None,
        };
        payload.push((subcatchment_result_code(attribute), pollutant));
        i = i + 1;
    }
    payload
}

/// The pollutant index of a stored node attribute, if it is a pollutant.
pub open spec fn spec_node_pollutant(attribute: NodeResultAttribute) -> Option<usize> {
    match attribute {
        NodeResultAttribute::Pollutant(index) => Some(index),
        _ => None,
    }
}

/// The `(code, pollutant)` schema payload of the node family, in stored order.
pub fn node_schema_payload(schema: &Vec<NodeResultAttribute>) -> (payload: Vec<(i32, Option<usize>)>)
    requires
        forall|i: int| 0 <= i < schema@.len() ==> { let attribute = #[trigger] schema@[i]; attribute matches NodeResultAttribute::Pollutant(index) ==> index + 6 <= i32::MAX },
    ensures
        payload@.len() == schema@.len(),
        forall|i: int|
            0 <= i < schema@.len() ==> #[trigger] payload@[i] == (
                spec_node_result_code(schema@[i]) as i32,
                spec_node_pollutant(schema@[i]),
            ),
{
    let mut payload: Vec<(i32, Option<usize>)> = Vec::new();
    let mut i: usize = 0;
    while i < schema.len()
        invariant
            i <= schema@.len(),
            payload@.len() == i,
            forall|j: int| 0 <= j < schema@.len() ==> { let attribute = #[trigger] schema@[j]; attribute matches NodeResultAttribute::Pollutant(index) ==> index + 6 <= i32::MAX },
            forall|j: int|
                0 <= j < i ==> #[trigger] payload@[j] == (
                    spec_node_result_code(schema@[j]) as i32,
                    spec_node_pollutant(schema@[j]),
                ),
        decreases schema@.len() - i,
    {
        let attribute = schema[i];
        let pollutant = match attribute {
            NodeResultAttribute::Pollutant(index) => Some(index),
            _ => None,
        };
        payload.push((node_result_code(attribute), pollutant));
        i = i + 1;
    }
    payload
}

/// The pollutant index of a stored link attribute, if it is a pollutant.
pub open spec fn spec_link_pollutant(attribute: LinkResultAttribute) -> Option<usize> {
    match attribute {
        LinkResultAttribute::Pollutant(index) => Some(index),
        _ => None,
    }
}

/// The `(code, pollutant)` schema payload of the link family, in stored order.
pub fn link_schema_payload(schema: &Vec<LinkResultAttribute>) -> (payload: Vec<(i32, Option<usize>)>)
    requires
        forall|i: int| 0 <= i < schema@.len() ==> { let attribute = #[trigger] schema@[i]; attribute matches LinkResultAttribute::Pollutant(index) ==> index + 5 <= i32::MAX },
    ensures
        payload@.len() == schema@.len(),
        forall|i: int|
            0 <= i < schema@.len() ==> #[trigger] payload@[i] == (
                spec_link_result_code(schema@[i]) as i32,
                spec_link_pollutant(schema@[i]),
            ),
{
    let mut payload: Vec<(i32, Option<usize>)> = Vec::new();
    let mut i: usize = 0;
    while i < schema.len()
        invariant
            i <= schema@.len(),
            payload@.len() == i,
            forall|j: int| 0 <= j < schema@.len() ==> { let attribute = #[trigger] schema@[j]; attribute matches LinkResultAttribute::Pollutant(index) ==> index + 5 <= i32::MAX },
            forall|j: int|
                0 <= j < i ==> #[trigger] payload@[j] == (
                    spec_link_result_code(schema@[j]) as i32,
                    spec_link_pollutant(schema@[j]),
                ),
        decreases schema@.len() - i,
    {
        let attribute = schema[i];
        let pollutant = match attribute {
            LinkResultAttribute::Pollutant(index) => Some(index),
            _ => None,
        };
        payload.push((link_result_code(attribute), pollutant));
        i = i + 1;
    }
    payload
}

/// The `(code, pollutant)` schema payload of the system family: codes only.
pub fn system_schema_payload(schema: &Vec<SystemResultAttribute>) -> (payload: Vec<(i32, Option<usize>)>)
    ensures
        payload@.len() == schema@.len(),
        forall|i: int|
            0 <= i < schema@.len() ==> #[trigger] payload@[i] == (spec_system_result_code(schema@[i]) as i32, None::<usize>),
{
    let mut payload: Vec<(i32, Option<usize>)> = Vec::new();
    let mut i: usize = 0;
    while i < schema.len()
        invariant
            i <= schema@.len(),
            payload@.len() == i,
            forall|j: int|
                0 <= j < i ==> #[trigger] payload@[j] == (spec_system_result_code(schema@[j]) as i32, None::<usize>),
        decreases schema@.len() - i,
    {
        payload.push((system_result_code(schema[i]), None));
        i = i + 1;
    }
    payload
}

/// The kind of a failure reported by the output reader.
#[derive(Clone, Copy, Debug, PartialEq, Eq, Structural)]
pub enum OutputErrorKind {
    Io,
    InvalidFormat,
    UnsupportedPropertySchema,
    InvalidPeriodRange,
    InvalidDateRange,
    InvalidElementId,
    AttributeNotFound,
    AmbiguousAttribute,
    ElementNameNotFound,
    AmbiguousElementName,
    ResultSizeOverflow,
    AllocationFailed,
    /// Any other failure.
    Other,
}

/// The stable category of an output-reader failure.
pub open spec fn spec_output_error_category(kind: OutputErrorKind) -> &'static str {
    match kind {
        OutputErrorKind::Io => "io",
        OutputErrorKind::InvalidFormat => "invalid_format",
        OutputErrorKind::UnsupportedPropertySchema => "unsupported_property_schema",
        OutputErrorKind::InvalidPeriodRange => "invalid_period_range",
        OutputErrorKind::InvalidDateRange => "invalid_date_range",
        OutputErrorKind::InvalidElementId => "invalid_element_id",
        OutputErrorKind::AttributeNotFound => "attribute_not_found",
        OutputErrorKind::AmbiguousAttribute => "ambiguous_attribute",
        OutputErrorKind::ElementNameNotFound => "element_not_found",
        OutputErrorKind::AmbiguousElementName => "ambiguous_element",
        OutputErrorKind::ResultSizeOverflow => "result_size_overflow",
        OutputErrorKind::AllocationFailed => "allocation_failed",
        OutputErrorKind::Other => "output",
    }
}

/// Returns the stable category under which an output-reader failure is raised.
pub fn output_error_category(kind: OutputErrorKind) -> (category: &'static str)
    ensures
        category == spec_output_error_category(kind),
{
    match kind {
        OutputErrorKind::Io => "io",
        OutputErrorKind::InvalidFormat => "invalid_format",
        OutputErrorKind::UnsupportedPropertySchema => "unsupported_property_schema",
        OutputErrorKind::InvalidPeriodRange => "invalid_period_range",
        OutputErrorKind::InvalidDateRange => "invalid_date_range",
        OutputErrorKind::InvalidElementId => "invalid_element_id",
        OutputErrorKind::AttributeNotFound => "attribute_not_found",
        OutputErrorKind::AmbiguousAttribute => "ambiguous_attribute",
        OutputErrorKind::ElementNameNotFound => "element_not_found",
        OutputErrorKind::AmbiguousElementName => "ambiguous_element",
        OutputErrorKind::ResultSizeOverflow => "result_size_overflow",
        OutputErrorKind::AllocationFailed => "allocation_failed",
        OutputErrorKind::Other => "output",
    }
}

/// The flow units of an output file in the file's own order.
pub open spec fn spec_flow_units_layout() -> Seq<FlowUnits> {
    seq![FlowUnits::Cfs, FlowUnits::Gpm, FlowUnits::Mgd, FlowUnits::Cms, FlowUnits::Lps, FlowUnits::Mld]
}

/// Each stored flow unit has the fixed code of the output file layout: its position in the
/// file's order; an unrecognized code is kept as stored.
pub proof fn lemma_flow_units_codes_follow_the_file_layout()
    ensures
        forall|i: int| 0 <= i < spec_flow_units_layout().len() ==> spec_flow_units_code(#[trigger] spec_flow_units_layout()[i]) == i,
        forall|c: i32| #[trigger] spec_flow_units_code(FlowUnits::Unknown(c)) == c,
{
    assert forall|i: int| 0 <= i < spec_flow_units_layout().len() implies spec_flow_units_code(#[trigger] spec_flow_units_layout()[i]) == i by {
        if i == 0 { assert(spec_flow_units_layout()[i] == FlowUnits::Cfs); } if i == 1 { assert(spec_flow_units_layout()[i] == FlowUnits::Gpm); } if i == 2 { assert(spec_flow_units_layout()[i] == FlowUnits::Mgd); } if i == 3 { assert(spec_flow_units_layout()[i] == FlowUnits::Cms); } if i == 4 { assert(spec_flow_units_layout()[i] == FlowUnits::Lps); } if i == 5 { assert(spec_flow_units_layout()[i] == FlowUnits::Mld); }
    }
}

/// The concentration units of an output file in the file's own order.
pub open spec fn spec_concentration_units_layout() -> Seq<ConcentrationUnits> {
    seq![ConcentrationUnits::MilligramsPerLiter, ConcentrationUnits::MicrogramsPerLiter, ConcentrationUnits::CountsPerLiter]
}

/// Each stored concentration unit has the fixed code of the output file layout: its position in the
/// file's order; an unrecognized code is kept as stored.
pub proof fn lemma_concentration_units_codes_follow_the_file_layout()
    ensures
        forall|i: int| 0 <= i < spec_concentration_units_layout().len() ==> spec_concentration_units_code(#[trigger] spec_concentration_units_layout()[i]) == i,
        forall|c: i32| #[trigger] spec_concentration_units_code(ConcentrationUnits::Unknown(c)) == c,
{
    assert forall|i: int| 0 <= i < spec_concentration_units_layout().len() implies spec_concentration_units_code(#[trigger] spec_concentration_units_layout()[i]) == i by {
        if i == 0 { assert(spec_concentration_units_layout()[i] == ConcentrationUnits::MilligramsPerLiter); } if i == 1 { assert(spec_concentration_units_layout()[i] == ConcentrationUnits::MicrogramsPerLiter); } if i == 2 { assert(spec_concentration_units_layout()[i] == ConcentrationUnits::CountsPerLiter); }
    }
}

/// The node kinds of an output file in the file's own order.
pub open spec fn spec_node_kind_layout() -> Seq<NodeKind> {
    seq![NodeKind::Junction, NodeKind::Outfall, NodeKind::Storage, NodeKind::Divider]
}

/// Each stored node kind has the fixed code of the output file layout: its position in the
/// file's order; an unrecognized code is kept as stored.
pub proof fn lemma_node_kind_codes_follow_the_file_layout()
    ensures
        forall|i: int| 0 <= i < spec_node_kind_layout().len() ==> spec_node_kind_code(#[trigger] spec_node_kind_layout()[i]) == i,
        forall|c: i32| #[trigger] spec_node_kind_code(NodeKind::Unknown(c)) == c,
{
    assert forall|i: int| 0 <= i < spec_node_kind_layout().len() implies spec_node_kind_code(#[trigger] spec_node_kind_layout()[i]) == i by {
        if i == 0 { assert(spec_node_kind_layout()[i] == NodeKind::Junction); } if i == 1 { assert(spec_node_kind_layout()[i] == NodeKind::Outfall); } if i == 2 { assert(spec_node_kind_layout()[i] == NodeKind::Storage); } if i == 3 { assert(spec_node_kind_layout()[i] == NodeKind::Divider); }
    }
}

/// The link kinds of an output file in the file's own order.
pub open spec fn spec_link_kind_layout() -> Seq<LinkKind> {
    seq![LinkKind::Conduit, LinkKind::Pump, LinkKind::Orifice, LinkKind::Weir, LinkKind::Outlet]
}

/// Each stored link kind has the fixed code of the output file layout: its position in the
/// file's order; an unrecognized code is kept as stored.
pub proof fn lemma_link_kind_codes_follow_the_file_layout()
    ensures
        forall|i: int| 0 <= i < spec_link_kind_layout().len() ==> spec_link_kind_code(#[trigger] spec_link_kind_layout()[i]) == i,
        forall|c: i32| #[trigger] spec_link_kind_code(LinkKind::Unknown(c)) == c,
{
    assert forall|i: int| 0 <= i < spec_link_kind_layout().len() implies spec_link_kind_code(#[trigger] spec_link_kind_layout()[i]) == i by {
        if i == 0 { assert(spec_link_kind_layout()[i] == LinkKind::Conduit); } if i == 1 { assert(spec_link_kind_layout()[i] == LinkKind::Pump); } if i == 2 { assert(spec_link_kind_layout()[i] == LinkKind::Orifice); } if i == 3 { assert(spec_link_kind_layout()[i] == LinkKind::Weir); } if i == 4 { assert(spec_link_kind_layout()[i] == LinkKind::Outlet); }
    }
}

/// The subcatchment result variables of an output file in the file's own order.
pub open spec fn spec_subcatchment_result_layout() -> Seq<SubcatchmentResultAttribute> {
    seq![SubcatchmentResultAttribute::Rainfall, SubcatchmentResultAttribute::SnowDepth, SubcatchmentResultAttribute::EvaporationLoss, SubcatchmentResultAttribute::InfiltrationLoss, SubcatchmentResultAttribute::RunoffFlow, SubcatchmentResultAttribute::GroundwaterFlow, SubcatchmentResultAttribute::GroundwaterElevation, SubcatchmentResultAttribute::SoilMoisture]
}

/// Each stored subcatchment result variable has the fixed code of the output file layout: its position in the
/// file's order, each pollutant's variable following them at the count of those variables plus its index; an unrecognized code is kept as stored.
pub proof fn lemma_subcatchment_result_codes_follow_the_file_layout()
    ensures
        forall|i: int| 0 <= i < spec_subcatchment_result_layout().len() ==> spec_subcatchment_result_code(#[trigger] spec_subcatchment_result_layout()[i]) == i,
        forall|c: i32| #[trigger] spec_subcatchment_result_code(SubcatchmentResultAttribute::Unknown(c)) == c,
        forall|k: usize| #[trigger] spec_subcatchment_result_code(SubcatchmentResultAttribute::Pollutant(k)) == spec_subcatchment_result_layout().len() + k,
{
    assert forall|i: int| 0 <= i < spec_subcatchment_result_layout().len() implies spec_subcatchment_result_code(#[trigger] spec_subcatchment_result_layout()[i]) == i by {
        if i == 0 { assert(spec_subcatchment_result_layout()[i] == SubcatchmentResultAttribute::Rainfall); } if i == 1 { assert(spec_subcatchment_result_layout()[i] == SubcatchmentResultAttribute::SnowDepth); } if i == 2 { assert(spec_subcatchment_result_layout()[i] == SubcatchmentResultAttribute::EvaporationLoss); } if i == 3 { assert(spec_subcatchment_result_layout()[i] == SubcatchmentResultAttribute::InfiltrationLoss); } if i == 4 { assert(spec_subcatchment_result_layout()[i] == SubcatchmentResultAttribute::RunoffFlow); } if i == 5 { assert(spec_subcatchment_result_layout()[i] == SubcatchmentResultAttribute::GroundwaterFlow); } if i == 6 { assert(spec_subcatchment_result_layout()[i] == SubcatchmentResultAttribute::GroundwaterElevation); } if i == 7 { assert(spec_subcatchment_result_layout()[i] == SubcatchmentResultAttribute::SoilMoisture); }
    }
}

/// The node result variables of an output file in the file's own order.
pub open spec fn spec_node_result_layout() -> Seq<NodeResultAttribute> {
    seq![NodeResultAttribute::Depth, NodeResultAttribute::HydraulicHead, NodeResultAttribute::StoredVolume, NodeResultAttribute::LateralInflow, NodeResultAttribute::TotalInflow, NodeResultAttribute::Overflow]
}

/// Each stored node result variable has the fixed code of the output file layout: its position in the
/// file's order, each pollutant's variable following them at the count of those variables plus its index; an unrecognized code is kept as stored.
pub proof fn lemma_node_result_codes_follow_the_file_layout()
    ensures
        forall|i: int| 0 <= i < spec_node_result_layout().len() ==> spec_node_result_code(#[trigger] spec_node_result_layout()[i]) == i,
        forall|c: i32| #[trigger] spec_node_result_code(NodeResultAttribute::Unknown(c)) == c,
        forall|k: usize| #[trigger] spec_node_result_code(NodeResultAttribute::Pollutant(k)) == spec_node_result_layout().len() + k,
{
    assert forall|i: int| 0 <= i < spec_node_result_layout().len() implies spec_node_result_code(#[trigger] spec_node_result_layout()[i]) == i by {
        if i == 0 { assert(spec_node_result_layout()[i] == NodeResultAttribute::Depth); } if i == 1 { assert(spec_node_result_layout()[i] == NodeResultAttribute::HydraulicHead); } if i == 2 { assert(spec_node_result_layout()[i] == NodeResultAttribute::StoredVolume); } if i == 3 { assert(spec_node_result_layout()[i] == NodeResultAttribute::LateralInflow); } if i == 4 { assert(spec_node_result_layout()[i] == NodeResultAttribute::TotalInflow); } if i == 5 { assert(spec_node_result_layout()[i] == NodeResultAttribute::Overflow); }
    }
}

/// The link result variables of an output file in the file's own order.
pub open spec fn spec_link_result_layout() -> Seq<LinkResultAttribute> {
    seq![LinkResultAttribute::Flow, LinkResultAttribute::Depth, LinkResultAttribute::Velocity, LinkResultAttribute::Volume, LinkResultAttribute::Capacity]
}

/// Each stored link result variable has the fixed code of the output file layout: its position in the
/// file's order, each pollutant's variable following them at the count of those variables plus its index; an unrecognized code is kept as stored.
pub proof fn lemma_link_result_codes_follow_the_file_layout()
    ensures
        forall|i: int| 0 <= i < spec_link_result_layout().len() ==> spec_link_result_code(#[trigger] spec_link_result_layout()[i]) == i,
        forall|c: i32| #[trigger] spec_link_result_code(LinkResultAttribute::Unknown(c)) == c,
        forall|k: usize| #[trigger] spec_link_result_code(LinkResultAttribute::Pollutant(k)) == spec_link_result_layout().len() + k,
{
    assert forall|i: int| 0 <= i < spec_link_result_layout().len() implies spec_link_result_code(#[trigger] spec_link_result_layout()[i]) == i by {
        if i == 0 { assert(spec_link_result_layout()[i] == LinkResultAttribute::Flow); } if i == 1 { assert(spec_link_result_layout()[i] == LinkResultAttribute::Depth); } if i == 2 { assert(spec_link_result_layout()[i] == LinkResultAttribute::Velocity); } if i == 3 { assert(spec_link_result_layout()[i] == LinkResultAttribute::Volume); } if i == 4 { assert(spec_link_result_layout()[i] == LinkResultAttribute::Capacity); }
    }
}

/// The system result variables of an output file in the file's own order.
pub open spec fn spec_system_result_layout() -> Seq<SystemResultAttribute> {
    seq![SystemResultAttribute::AirTemperature, SystemResultAttribute::Rainfall, SystemResultAttribute::SnowDepth, SystemResultAttribute::InfiltrationLoss, SystemResultAttribute::RunoffFlow, SystemResultAttribute::DryWeatherInflow, SystemResultAttribute::GroundwaterInflow, SystemResultAttribute::RdiiInflow, SystemResultAttribute::ExternalInflow, SystemResultAttribute::TotalLateralInflow, SystemResultAttribute::FloodingOutflow, SystemResultAttribute::OutfallFlow, SystemResultAttribute::StorageVolume, SystemResultAttribute::Evaporation, SystemResultAttribute::PotentialEvapotranspiration]
}

/// Each stored system result variable has the fixed code of the output file layout: its position in the
/// file's order; an unrecognized code is kept as stored.
pub proof fn lemma_system_result_codes_follow_the_file_layout()
    ensures
        forall|i: int| 0 <= i < spec_system_result_layout().len() ==> spec_system_result_code(#[trigger] spec_system_result_layout()[i]) == i,
        forall|c: i32| #[trigger] spec_system_result_code(SystemResultAttribute::Unknown(c)) == c,
{
    assert forall|i: int| 0 <= i < spec_system_result_layout().len() implies spec_system_result_code(#[trigger] spec_system_result_layout()[i]) == i by {
        if i == 0 { assert(spec_system_result_layout()[i] == SystemResultAttribute::AirTemperature); } if i == 1 { assert(spec_system_result_layout()[i] == SystemResultAttribute::Rainfall); } if i == 2 { assert(spec_system_result_layout()[i] == SystemResultAttribute::SnowDepth); } if i == 3 { assert(spec_system_result_layout()[i] == SystemResultAttribute::InfiltrationLoss); } if i == 4 { assert(spec_system_result_layout()[i] == SystemResultAttribute::RunoffFlow); } if i == 5 { assert(spec_system_result_layout()[i] == SystemResultAttribute::DryWeatherInflow); } if i == 6 { assert(spec_system_result_layout()[i] == SystemResultAttribute::GroundwaterInflow); } if i == 7 { assert(spec_system_result_layout()[i] == SystemResultAttribute::RdiiInflow); } if i == 8 { assert(spec_system_result_layout()[i] == SystemResultAttribute::ExternalInflow); } if i == 9 { assert(spec_system_result_layout()[i] == SystemResultAttribute::TotalLateralInflow); } if i == 10 { assert(spec_system_result_layout()[i] == SystemResultAttribute::FloodingOutflow); } if i == 11 { assert(spec_system_result_layout()[i] == SystemResultAttribute::OutfallFlow); } if i == 12 { assert(spec_system_result_layout()[i] == SystemResultAttribute::StorageVolume); } if i == 13 { assert(spec_system_result_layout()[i] == SystemResultAttribute::Evaporation); } if i == 14 { assert(spec_system_result_layout()[i] == SystemResultAttribute::PotentialEvapotranspiration); }
    }
}

} // verus!
