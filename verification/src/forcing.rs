use vstd::prelude::*;
use vstd::string::*;

use crate::aquifers::{configured_relationship, spec_configured_relationship};
use crate::convert::{spec_strict_number, spec_text, strict_number, text_of};
use crate::error::{internal_error, swmm_error_is, ErrorCode, NativeError, SwmmError};
use crate::fields::is_internal_error;
use crate::inspect::type_error;
use crate::owner::{NativeSimulation, Reported};
use crate::policy::spec_policy_outcome;
use crate::subcatchments::{SettingsIdentity, SubcatchmentOutlet};
use crate::text::{ascii_lowercase, spec_ascii_lowercase, str_eq};
use crate::value::{Number, ObjectType, PyValue};
use crate::views::{spec_field_update, spec_field_view};

verus! {

/// The precipitation a rain gage currently reports, in project rainfall units.
#[derive(Clone, Copy, Debug, PartialEq, Eq, Structural)]
pub struct RainGagePrecipitation {
    pub total_precip: Number,
    pub rainfall: Number,
    pub snowfall: Number,
}

/// The value of a rain gage's precipitation field `field`, if it has one.
pub open spec fn spec_precipitation_field(values: RainGagePrecipitation, field: Seq<char>) -> Option<Number> {
    if field == "total_precip"@ {
        Some(values.total_precip)
    } else if field == "rainfall"@ {
        Some(values.rainfall)
    } else if field == "snowfall"@ {
        Some(values.snowfall)
    } else {
        None
    }
}

/// Selects one precipitation field of a rain gage.
pub fn precipitation_field(values: RainGagePrecipitation, field: &str) -> (result: Result<Number, NativeError>)
    ensures
        match spec_precipitation_field(values, field@) {
            Some(n) => result == Ok::<Number, NativeError>(n),
            None => result is Err && is_internal_error(
                result->Err_0,
                "rain_gage_precipitation_value",
                "invalid private rain-gage precipitation field"@,
            ),
        },
{
    if str_eq(field, "total_precip") {
        Ok(values.total_precip)
    } else if str_eq(field, "rainfall") {
        Ok(values.rainfall)
    } else if str_eq(field, "snowfall") {
        Ok(values.snowfall)
    } else {
        Err(internal_error("rain_gage_precipitation_value", "invalid private rain-gage precipitation field"))
    }
}

/// The external precipitation a subcatchment currently receives, in project rainfall units.
#[derive(Clone, Copy, Debug, PartialEq, Eq, Structural)]
pub struct ExternalForcing {
    pub rainfall: Number,
    pub snowfall: Number,
}

/// The value of an external forcing field `field`, if it has one.
pub open spec fn spec_forcing_field(values: ExternalForcing, field: Seq<char>) -> Option<Number> {
    if field == "rainfall"@ {
        Some(values.rainfall)
    } else if field == "snowfall"@ {
        Some(values.snowfall)
    } else {
        None
    }
}

/// Selects one external forcing field of a subcatchment.
pub fn forcing_field(values: ExternalForcing, field: &str) -> (result: Result<Number, NativeError>)
    ensures
        match spec_forcing_field(values, field@) {
            Some(n) => result == Ok::<Number, NativeError>(n),
            None => result is Err && is_internal_error(
                result->Err_0,
                "subcatchment_external_forcing_value",
                "invalid private subcatchment forcing field"@,
            ),
        },
{
    if str_eq(field, "rainfall") {
        Ok(values.rainfall)
    } else if str_eq(field, "snowfall") {
        Ok(values.snowfall)
    } else {
        Err(internal_error("subcatchment_external_forcing_value", "invalid private subcatchment forcing field"))
    }
}

/// A subcatchment configuration selector.
#[derive(Clone, Copy, Debug, PartialEq, Eq, Structural)]
pub enum SubcatchmentConfigurationField {
    Tag,
    Area,
    RainGage,
    IncludedInReport,
    Width,
    Slope,
    CurbLength,
    ImperviousFraction,
    ZeroImperviousFraction,
    ImperviousRoughness,
    PerviousRoughness,
    ImperviousDepressionStorage,
    PerviousDepressionStorage,
    Outlet,
    RainScaleFactor,
    SnowScaleFactor,
}

/// The selector a private subcatchment field name reads, and whether it asks for the outlet's
/// family rather than the outlet.
pub open spec fn spec_subcatchment_configuration_field(name: Seq<char>) -> Option<(SubcatchmentConfigurationField, bool)> {
    if name == "tag"@ {
        Some((SubcatchmentConfigurationField::Tag, false))
    } else if name == "area"@ {
        Some((SubcatchmentConfigurationField::Area, false))
    } else if name == "rain_gage"@ {
        Some((SubcatchmentConfigurationField::RainGage, false))
    } else if name == "included_in_report"@ {
        Some((SubcatchmentConfigurationField::IncludedInReport, false))
    } else if name == "width"@ {
        Some((SubcatchmentConfigurationField::Width, false))
    } else if name == "slope"@ {
        Some((SubcatchmentConfigurationField::Slope, false))
    } else if name == "curb_length"@ {
        Some((SubcatchmentConfigurationField::CurbLength, false))
    } else if name == "impervious_fraction"@ {
        Some((SubcatchmentConfigurationField::ImperviousFraction, false))
    } else if name == "zero_impervious_fraction"@ {
        Some((SubcatchmentConfigurationField::ZeroImperviousFraction, false))
    } else if name == "impervious_roughness"@ {
        Some((SubcatchmentConfigurationField::ImperviousRoughness, false))
    } else if name == "pervious_roughness"@ {
        Some((SubcatchmentConfigurationField::PerviousRoughness, false))
    } else if name == "impervious_depression_storage"@ {
        Some((SubcatchmentConfigurationField::ImperviousDepressionStorage, false))
    } else if name == "pervious_depression_storage"@ {
        Some((SubcatchmentConfigurationField::PerviousDepressionStorage, false))
    } else if name == "outlet"@ {
        Some((SubcatchmentConfigurationField::Outlet, false))
    } else if name == "outlet_kind"@ {
        Some((SubcatchmentConfigurationField::Outlet, true))
    } else {
        None
    }
}

/// Resolves a private subcatchment field name.
pub fn subcatchment_configuration_field(name: &str) -> (result: Result<(SubcatchmentConfigurationField, bool), NativeError>)
    ensures
        match spec_subcatchment_configuration_field(name@) {
            Some(x) => result == Ok::<(SubcatchmentConfigurationField, bool), NativeError>(x),
            None => result is Err && is_internal_error(
                result->Err_0,
                "subcatchment_configuration_value",
                "invalid private subcatchment configuration field"@,
            ),
        },
{
    if str_eq(name, "tag") {
        Ok((SubcatchmentConfigurationField::Tag, false))
    } else if str_eq(name, "area") {
        Ok((SubcatchmentConfigurationField::Area, false))
    } else if str_eq(name, "rain_gage") {
        Ok((SubcatchmentConfigurationField::RainGage, false))
    } else if str_eq(name, "included_in_report") {
        Ok((SubcatchmentConfigurationField::IncludedInReport, false))
    } else if str_eq(name, "width") {
        Ok((SubcatchmentConfigurationField::Width, false))
    } else if str_eq(name, "slope") {
        Ok((SubcatchmentConfigurationField::Slope, false))
    } else if str_eq(name, "curb_length") {
        Ok((SubcatchmentConfigurationField::CurbLength, false))
    } else if str_eq(name, "impervious_fraction") {
        Ok((SubcatchmentConfigurationField::ImperviousFraction, false))
    } else if str_eq(name, "zero_impervious_fraction") {
        Ok((SubcatchmentConfigurationField::ZeroImperviousFraction, false))
    } else if str_eq(name, "impervious_roughness") {
        Ok((SubcatchmentConfigurationField::ImperviousRoughness, false))
    } else if str_eq(name, "pervious_roughness") {
        Ok((SubcatchmentConfigurationField::PerviousRoughness, false))
    } else if str_eq(name, "impervious_depression_storage") {
        Ok((SubcatchmentConfigurationField::ImperviousDepressionStorage, false))
    } else if str_eq(name, "pervious_depression_storage") {
        Ok((SubcatchmentConfigurationField::PerviousDepressionStorage, false))
    } else if str_eq(name, "outlet") {
        Ok((SubcatchmentConfigurationField::Outlet, false))
    } else if str_eq(name, "outlet_kind") {
        Ok((SubcatchmentConfigurationField::Outlet, true))
    } else {
        Err(internal_error("subcatchment_configuration_value", "invalid private subcatchment configuration field"))
    }
}

/// One subcatchment configuration value as the solver reads it.
#[derive(Debug)]
pub enum SubcatchmentConfigurationValue {
    Text(String),
    Number(Number),
    Flag(bool),
    RainGage(usize),
    Outlet(SubcatchmentOutlet),
}

/// The family name of an outlet value.
pub fn outlet_kind(value: SubcatchmentConfigurationValue) -> (result: Result<&'static str, NativeError>)
    ensures
        value matches SubcatchmentConfigurationValue::Outlet(SubcatchmentOutlet::Node(_)) ==> result == Ok::<&'static str, NativeError>("node"),
        value matches SubcatchmentConfigurationValue::Outlet(SubcatchmentOutlet::Subcatchment(_)) ==> result == Ok::<&'static str, NativeError>("subcatchment"),
        !(value is Outlet) ==> result is Err && is_internal_error(
            result->Err_0,
            "subcatchment_configuration_value",
            "outlet discriminator selector returned wrong value kind"@,
        ),
{
    match value {
        SubcatchmentConfigurationValue::Outlet(SubcatchmentOutlet::Node(_)) => Ok("node"),
        SubcatchmentConfigurationValue::Outlet(SubcatchmentOutlet::Subcatchment(_)) => Ok("subcatchment"),
        _ => Err(internal_error("subcatchment_configuration_value", "outlet discriminator selector returned wrong value kind")),
    }
}

/// The related object that a relationship value names, looked up by `lookup`; an unavailable
/// identity is a `System` failure with `unavailable`.
pub open spec fn spec_related_identity<I, L: FnOnce(ObjectType, usize) -> Result<Option<I>, SwmmError>>(
    family: ObjectType,
    index: usize,
    lookup: L,
    unavailable: Seq<char>,
    result: Result<(ObjectType, I), SwmmError>,
) -> bool {
    exists|o: Result<Option<I>, SwmmError>|
        {
            &&& call_ensures(lookup, (family, index), o)
            &&& o matches Err(e) ==> result == Err::<(ObjectType, I), SwmmError>(e)
            &&& o == Ok::<Option<I>, SwmmError>(None) ==> result is Err && swmm_error_is(result->Err_0, ErrorCode::System, unavailable)
            &&& o matches Ok(Some(x)) ==> result == Ok::<(ObjectType, I), SwmmError>((family, x))
        }
}

/// Looks up one related object by family and index.
fn related_identity<I, L: FnOnce(ObjectType, usize) -> Result<Option<I>, SwmmError>>(
    family: ObjectType,
    index: usize,
    lookup: L,
    unavailable: &str,
) -> (result: Result<(ObjectType, I), SwmmError>)
    requires
        call_requires(lookup, (family, index)),
    ensures
        spec_related_identity(family, index, lookup, unavailable@, result),
{
    let o = lookup(family, index);
    let ghost g = o;
    assert(call_ensures(lookup, (family, index), g));
    match o {
        Err(e) => Err(e),
        Ok(None) => Err(SwmmError::with_str(ErrorCode::System, unavailable)),
        Ok(Some(x)) => Ok((family, x)),
    }
}

/// `result` is the related object a subcatchment relationship value names.
pub open spec fn spec_subcatchment_relationship<I, L: FnOnce(ObjectType, usize) -> Result<Option<I>, SwmmError>>(
    value: SubcatchmentConfigurationValue,
    lookup: L,
    result: Result<(ObjectType, I), SwmmError>,
) -> bool {
    match value {
        SubcatchmentConfigurationValue::RainGage(i) => spec_related_identity(
            ObjectType::Gage,
            i,
            lookup,
            "rain gage identity is unavailable"@,
            result,
        ),
        SubcatchmentConfigurationValue::Outlet(SubcatchmentOutlet::Node(i)) => spec_related_identity(
            ObjectType::Node,
            i,
            lookup,
            "outlet node identity is unavailable"@,
            result,
        ),
        SubcatchmentConfigurationValue::Outlet(SubcatchmentOutlet::Subcatchment(i)) => spec_related_identity(
            ObjectType::Subcatch,
            i,
            lookup,
            "outlet subcatchment identity is unavailable"@,
            result,
        ),
        _ => result is Err && swmm_error_is(
            result->Err_0,
            ErrorCode::System,
            "subcatchment relationship selector returned wrong value kind"@,
        ),
    }
}

/// Looks up the related object a subcatchment relationship value (rain gage or outlet) names.
pub fn subcatchment_relationship<I, L: FnOnce(ObjectType, usize) -> Result<Option<I>, SwmmError>>(
    value: SubcatchmentConfigurationValue,
    lookup: L,
) -> (result: Result<(ObjectType, I), SwmmError>)
    requires
        forall|t: ObjectType, i: usize| call_requires(lookup, (t, i)),
    ensures
        spec_subcatchment_relationship(value, lookup, result),
{
    match value {
        SubcatchmentConfigurationValue::RainGage(i) => related_identity(ObjectType::Gage, i, lookup, "rain gage identity is unavailable"),
        SubcatchmentConfigurationValue::Outlet(SubcatchmentOutlet::Node(i)) => related_identity(
            ObjectType::Node,
            i,
            lookup,
            "outlet node identity is unavailable",
        ),
        SubcatchmentConfigurationValue::Outlet(SubcatchmentOutlet::Subcatchment(i)) => related_identity(
            ObjectType::Subcatch,
            i,
            lookup,
            "outlet subcatchment identity is unavailable",
        ),
        _ => Err(SwmmError::with_str(ErrorCode::System, "subcatchment relationship selector returned wrong value kind")),
    }
}

/// A text, number or flag subcatchment value; a relationship must be marshalled as a Live View.
pub fn subcatchment_plain_value(value: SubcatchmentConfigurationValue) -> (result: Result<
    SubcatchmentConfigurationValue,
    NativeError,
>)
    ensures
        (value is Text || value is Number || value is Flag) ==> result == Ok::<SubcatchmentConfigurationValue, NativeError>(value),
        (value is RainGage || value is Outlet) ==> result is Err && is_internal_error(
            result->Err_0,
            "subcatchment_configuration_value",
            "relationship escaped native relationship marshalling"@,
        ),
{
    match value {
        SubcatchmentConfigurationValue::RainGage(_) | SubcatchmentConfigurationValue::Outlet(_) => Err(
            internal_error("subcatchment_configuration_value", "relationship escaped native relationship marshalling"),
        ),
        _ => Ok(value),
    }
}

/// The forcing selector a private scale-factor name reads.
pub open spec fn spec_scale_factor_field(name: Seq<char>) -> Option<SubcatchmentConfigurationField> {
    if name == "rain_scale_factor"@ {
        Some(SubcatchmentConfigurationField::RainScaleFactor)
    } else if name == "snow_scale_factor"@ {
        Some(SubcatchmentConfigurationField::SnowScaleFactor)
    } else {
        None
    }
}

/// Resolves a private scale-factor name.
pub fn scale_factor_field(name: &str) -> (result: Result<SubcatchmentConfigurationField, NativeError>)
    ensures
        match spec_scale_factor_field(name@) {
            Some(f) => result == Ok::<SubcatchmentConfigurationField, NativeError>(f),
            None => result is Err && is_internal_error(
                result->Err_0,
                "subcatchment_precipitation_scale_factor",
                "invalid private subcatchment forcing field"@,
            ),
        },
{
    if str_eq(name, "rain_scale_factor") {
        Ok(SubcatchmentConfigurationField::RainScaleFactor)
    } else if str_eq(name, "snow_scale_factor") {
        Ok(SubcatchmentConfigurationField::SnowScaleFactor)
    } else {
        Err(internal_error("subcatchment_precipitation_scale_factor", "invalid private subcatchment forcing field"))
    }
}

/// The number a scale-factor read gives; any other value kind is refused.
pub fn scale_factor_value(value: SubcatchmentConfigurationValue) -> (result: Result<Number, NativeError>)
    ensures
        value matches SubcatchmentConfigurationValue::Number(n) ==> result == Ok::<Number, NativeError>(n),
        !(value is Number) ==> result is Err && is_internal_error(
            result->Err_0,
            "subcatchment_precipitation_scale_factor",
            "private forcing selector returned wrong value kind"@,
        ),
{
    match value {
        SubcatchmentConfigurationValue::Number(n) => Ok(n),
        _ => Err(internal_error("subcatchment_precipitation_scale_factor", "private forcing selector returned wrong value kind")),
    }
}

/// A current subcatchment result selector.
#[derive(Clone, Copy, Debug, PartialEq, Eq, Structural)]
pub enum SubcatchmentResultField {
    Rainfall,
    Evaporation,
    Infiltration,
    Runon,
    Runoff,
    SnowDepth,
}

/// The result selector a private name reads.
pub open spec fn spec_subcatchment_result_field(name: Seq<char>) -> Option<SubcatchmentResultField> {
    if name == "rainfall"@ {
        Some(SubcatchmentResultField::Rainfall)
    } else if name == "evaporation"@ {
        Some(SubcatchmentResultField::Evaporation)
    } else if name == "infiltration"@ {
        Some(SubcatchmentResultField::Infiltration)
    } else if name == "runon"@ {
        Some(SubcatchmentResultField::Runon)
    } else if name == "runoff"@ {
        Some(SubcatchmentResultField::Runoff)
    } else if name == "snow_depth"@ {
        Some(SubcatchmentResultField::SnowDepth)
    } else {
        None
    }
}

/// Resolves a private result name.
fn subcatchment_result_field(name: &str) -> (field: Option<SubcatchmentResultField>)
    ensures
        field == spec_subcatchment_result_field(name@),
{
    if str_eq(name, "rainfall") {
        Some(SubcatchmentResultField::Rainfall)
    } else if str_eq(name, "evaporation") {
        Some(SubcatchmentResultField::Evaporation)
    } else if str_eq(name, "infiltration") {
        Some(SubcatchmentResultField::Infiltration)
    } else if str_eq(name, "runon") {
        Some(SubcatchmentResultField::Runon)
    } else if str_eq(name, "runoff") {
        Some(SubcatchmentResultField::Runoff)
    } else if str_eq(name, "snow_depth") {
        Some(SubcatchmentResultField::SnowDepth)
    } else {
        None
    }
}

/// `result` is one current subcatchment result: a known selector is read by `read`; for an
/// unknown one the results are probed first, so that a lifecycle refusal takes precedence.
pub open spec fn spec_subcatchment_result<
    P: FnOnce() -> Result<(), SwmmError>,
    R: FnOnce(SubcatchmentResultField) -> Result<Number, SwmmError>,
>(field: Seq<char>, probe: P, read: R, result: Result<Number, SwmmError>) -> bool {
    match spec_subcatchment_result_field(field) {
        Some(f) => call_ensures(read, (f,), result),
        None => exists|p: Result<(), SwmmError>|
            {
                &&& call_ensures(probe, (), p)
                &&& p matches Err(e) ==> result == Err::<Number, SwmmError>(e)
                &&& p is Ok ==> result is Err && swmm_error_is(
                    result->Err_0,
                    ErrorCode::System,
                    "invalid private subcatchment result field"@,
                )
            },
    }
}

/// Reads one current subcatchment result by its private name.
pub fn subcatchment_result_value<
    P: FnOnce() -> Result<(), SwmmError>,
    R: FnOnce(SubcatchmentResultField) -> Result<Number, SwmmError>,
>(field: &str, probe: P, read: R) -> (result: Result<Number, SwmmError>)
    requires
        call_requires(probe, ()),
        forall|f: SubcatchmentResultField| call_requires(read, (f,)),
    ensures
        spec_subcatchment_result(field@, probe, read, result),
{
    match subcatchment_result_field(field) {
        Some(f) => read(f),
        None => {
            let p = probe();
            let ghost g = p;
            assert(call_ensures(probe, (), g));
            match p {
                Err(e) => Err(e),
                Ok(()) => Err(SwmmError::with_str(ErrorCode::System, "invalid private subcatchment result field")),
            }
        },
    }
}

/// The identity of a subcatchment's snowpack parameter set, if it has a snowpack.
pub fn snowpack_identity<I, L: FnOnce(usize) -> Result<Option<I>, SwmmError>>(
    snowmelt_index: Option<usize>,
    lookup: L,
) -> (result: Result<Option<I>, SwmmError>)
    requires
        forall|i: usize| call_requires(lookup, (i,)),
    ensures
        spec_configured_relationship(snowmelt_index, lookup, "configured snowpack identity is unavailable"@, result),
{
    configured_relationship(snowmelt_index, lookup, "configured snowpack identity is unavailable")
}

/// The configured family of a private named-settings mapping name, as the owner reads it.
pub fn named_settings_family(mapping: &str) -> (result: Result<ObjectType, SwmmError>)
    ensures
        match crate::subcatchments::spec_named_family(mapping@) {
            Some(t) => result == Ok::<ObjectType, SwmmError>(t),
            None => result is Err && swmm_error_is(
                result->Err_0,
                ErrorCode::ApiPropertyValue,
                "invalid private named settings mapping"@,
            ),
        },
{
    if str_eq(mapping, "loading") {
        Ok(ObjectType::Pollut)
    } else if str_eq(mapping, "coverage") {
        Ok(ObjectType::Landuse)
    } else {
        Err(SwmmError::with_str(ErrorCode::ApiPropertyValue, "invalid private named settings mapping"))
    }
}

/// The `(identifier, value)` pairs of the configured identities and their values, in order, as
/// far as both reach.
pub open spec fn spec_named_pairs(ids: Seq<SettingsIdentity>, values: Seq<Number>) -> Seq<(String, Number)> {
    Seq::new(
        if ids.len() <= values.len() {
            ids.len()
        } else {
            values.len()
        },
        |k: int| (ids[k].id, values[k]),
    )
}

/// Pairs each configured identity with its value, in order, as far as both reach.
pub fn named_pairs(ids: Vec<SettingsIdentity>, values: Vec<Number>) -> (pairs: Vec<(String, Number)>)
    ensures
        pairs@ == spec_named_pairs(ids@, values@),
{
    let n: usize = if ids.len() <= values.len() {
        ids.len()
    } else {
        values.len()
    };
    let mut pairs: Vec<(String, Number)> = Vec::new();
    let mut k: usize = 0;
    while k < n
        invariant
            n <= ids@.len(),
            n <= values@.len(),
            n == (if ids@.len() <= values@.len() {
                ids@.len()
            } else {
                values@.len()
            }),
            k <= n,
            pairs@.len() == k,
            forall|j: int| 0 <= j < k ==> (#[trigger] pairs@[j]) == (ids@[j].id, values@[j]),
        decreases n - k,
    {
        pairs.push((ids[k].id.clone(), values[k]));
        k = k + 1;
    }
    assert(pairs@ =~= spec_named_pairs(ids@, values@));
    pairs
}

/// The value of the first configured identity whose identifier equals `key` ignoring ASCII
/// case, among the pairs both sequences reach.
pub open spec fn spec_named_value(ids: Seq<SettingsIdentity>, values: Seq<Number>, key: Seq<char>, k: int) -> Option<Number>
    decreases ids.len() - k,
{
    if k < 0 || k >= ids.len() || k >= values.len() {
        None
    } else if spec_ascii_lowercase(ids[k].id@) == spec_ascii_lowercase(key) {
        Some(values[k])
    } else {
        spec_named_value(ids, values, key, k + 1)
    }
}

/// Finds the value of the configured identity named `key` ignoring ASCII case; an unknown name
/// is an `ApiObjectName` failure carrying it.
pub fn named_value(ids: &Vec<SettingsIdentity>, values: &Vec<Number>, key: String) -> (result: Result<Number, SwmmError>)
    ensures
        match spec_named_value(ids@, values@, key@, 0) {
            Some(v) => result == Ok::<Number, SwmmError>(v),
            None => result == Err::<Number, SwmmError>(SwmmError { code: ErrorCode::ApiObjectName, detail: Some(key) }),
        },
{
    let lowered_key = ascii_lowercase(key.as_str());
    let mut k: usize = 0;
    while k < ids.len() && k < values.len()
        invariant
            k <= ids@.len(),
            lowered_key@ == spec_ascii_lowercase(key@),
            spec_named_value(ids@, values@, key@, 0) == spec_named_value(ids@, values@, key@, k as int),
        decreases ids@.len() - k,
    {
        let lowered = ascii_lowercase(ids[k].id.as_str());
        if str_eq(lowered.as_str(), lowered_key.as_str()) {
            return Ok(values[k]);
        }
        k = k + 1;
    }
    Err(SwmmError::with_detail(ErrorCode::ApiObjectName, key))
}

/// A pollutant or land-use name supplied as a settings key: it must be a `str`.
pub fn settings_key(key: &PyValue) -> (result: Result<String, NativeError>)
    ensures
        match spec_text(*key) {
            Some(k) => result == Ok::<String, NativeError>(k),
            None => result matches Err(NativeError::Type { message }) && message@ == "subcatchment settings mapping keys must be str"@,
        },
{
    match text_of(key) {
        Some(k) => Ok(k),
        None => Err(type_error("subcatchment settings mapping keys must be str")),
    }
}

impl NativeSimulation {
    /// Reads the persistent rainfall override of a rain gage.
    pub fn rain_gage_rainfall_override<S, T, M: FnOnce() -> Result<bool, SwmmError>, R: FnOnce(()) -> Result<T, SwmmError>>(
        &self,
        generation: u64,
        subtype: Option<S>,
        matches: M,
        read: R,
    ) -> (result: Result<T, NativeError>)
        requires
            call_requires(matches, ()),
            call_requires(read, ((),)),
        ensures
            spec_field_view(*self, "rain_gage_rainfall_override", generation, subtype, Ok::<(), NativeError>(()), matches, read, result),
    {
        self.field_view("rain_gage_rainfall_override", generation, subtype, Ok(()), matches, read)
    }

    /// Reads the persistent external precipitation rate of a rain gage.
    pub fn rain_gage_external_precipitation_rate<S, T, M: FnOnce() -> Result<bool, SwmmError>, R: FnOnce(()) -> Result<T, SwmmError>>(
        &self,
        generation: u64,
        subtype: Option<S>,
        matches: M,
        read: R,
    ) -> (result: Result<T, NativeError>)
        requires
            call_requires(matches, ()),
            call_requires(read, ((),)),
        ensures
            spec_field_view(*self, "rain_gage_external_precipitation_rate", generation, subtype, Ok::<(), NativeError>(()), matches, read, result),
    {
        self.field_view("rain_gage_external_precipitation_rate", generation, subtype, Ok(()), matches, read)
    }

    /// Reads the snowpack relationship of a subcatchment.
    pub fn subcatchment_snowpack<S, T, M: FnOnce() -> Result<bool, SwmmError>, R: FnOnce(()) -> Result<T, SwmmError>>(
        &self,
        generation: u64,
        subtype: Option<S>,
        matches: M,
        read: R,
    ) -> (result: Result<T, NativeError>)
        requires
            call_requires(matches, ()),
            call_requires(read, ((),)),
        ensures
            spec_field_view(*self, "subcatchment_snowpack", generation, subtype, Ok::<(), NativeError>(()), matches, read, result),
    {
        self.field_view("subcatchment_snowpack", generation, subtype, Ok(()), matches, read)
    }

    /// Reads the initial buildup or coverage of a subcatchment by name.
    pub fn subcatchment_named_settings_mapping<S, T, M: FnOnce() -> Result<bool, SwmmError>, R: FnOnce(()) -> Result<T, SwmmError>>(
        &self,
        generation: u64,
        subtype: Option<S>,
        matches: M,
        read: R,
    ) -> (result: Result<T, NativeError>)
        requires
            call_requires(matches, ()),
            call_requires(read, ((),)),
        ensures
            spec_field_view(*self, "subcatchment_named_settings_mapping", generation, subtype, Ok::<(), NativeError>(()), matches, read, result),
    {
        self.field_view("subcatchment_named_settings_mapping", generation, subtype, Ok(()), matches, read)
    }

    /// Reads the current water quality of a subcatchment.
    pub fn subcatchment_quality_mapping<S, T, M: FnOnce() -> Result<bool, SwmmError>, R: FnOnce(()) -> Result<T, SwmmError>>(
        &self,
        generation: u64,
        subtype: Option<S>,
        matches: M,
        read: R,
    ) -> (result: Result<T, NativeError>)
        requires
            call_requires(matches, ()),
            call_requires(read, ((),)),
        ensures
            spec_field_view(*self, "subcatchment_quality_mapping", generation, subtype, Ok::<(), NativeError>(()), matches, read, result),
    {
        self.field_view("subcatchment_quality_mapping", generation, subtype, Ok(()), matches, read)
    }

    /// Reads the persistent external buildup increments of a subcatchment.
    pub fn subcatchment_external_pollutant_buildup_increment<S, T, M: FnOnce() -> Result<bool, SwmmError>, R: FnOnce(()) -> Result<T, SwmmError>>(
        &self,
        generation: u64,
        subtype: Option<S>,
        matches: M,
        read: R,
    ) -> (result: Result<T, NativeError>)
        requires
            call_requires(matches, ()),
            call_requires(read, ((),)),
        ensures
            spec_field_view(*self, "subcatchment_external_pollutant_buildup_increment", generation, subtype, Ok::<(), NativeError>(()), matches, read, result),
    {
        self.field_view("subcatchment_external_pollutant_buildup_increment", generation, subtype, Ok(()), matches, read)
    }

    /// Copies the LID group of a subcatchment.
    pub fn subcatchment_lid_snapshot<S, T, M: FnOnce() -> Result<bool, SwmmError>, R: FnOnce(()) -> Result<T, SwmmError>>(
        &self,
        generation: u64,
        subtype: Option<S>,
        matches: M,
        read: R,
    ) -> (result: Result<T, NativeError>)
        requires
            call_requires(matches, ()),
            call_requires(read, ((),)),
        ensures
            spec_field_view(*self, "subcatchment_lid_snapshot", generation, subtype, Ok::<(), NativeError>(()), matches, read, result),
    {
        self.field_view("subcatchment_lid_snapshot", generation, subtype, Ok(()), matches, read)
    }

    /// Reads one precipitation value of a rain gage: the values are read, then the field selected.
    pub fn rain_gage_precipitation_value<
        S,
        M: FnOnce() -> Result<bool, SwmmError>,
        R: FnOnce(()) -> Result<RainGagePrecipitation, SwmmError>,
    >(&self, generation: u64, subtype: Option<S>, field: &str, matches: M, read: R) -> (result: Result<Number, NativeError>)
        requires
            call_requires(matches, ()),
            call_requires(read, ((),)),
        ensures
            exists|values: Result<RainGagePrecipitation, NativeError>|
                {
                    &&& spec_field_view(*self, "rain_gage_precipitation_value", generation, subtype, Ok::<(), NativeError>(()), matches, read, values)
                    &&& values matches Err(e) ==> result == Err::<Number, NativeError>(e)
                    &&& values matches Ok(v) ==> match spec_precipitation_field(v, field@) {
                        Some(n) => result == Ok::<Number, NativeError>(n),
                        None => result is Err && is_internal_error(
                            result->Err_0,
                            "rain_gage_precipitation_value",
                            "invalid private rain-gage precipitation field"@,
                        ),
                    }
                },
    {
        let values = self.field_view("rain_gage_precipitation_value", generation, subtype, Ok(()), matches, read);
        match values {
            Err(e) => Err(e),
            Ok(v) => precipitation_field(v, field),
        }
    }

    /// Reads one external forcing value of a subcatchment: the values are read, then the field
    /// selected.
    pub fn subcatchment_external_forcing_value<
        S,
        M: FnOnce() -> Result<bool, SwmmError>,
        R: FnOnce(()) -> Result<ExternalForcing, SwmmError>,
    >(&self, generation: u64, subtype: Option<S>, field: &str, matches: M, read: R) -> (result: Result<Number, NativeError>)
        requires
            call_requires(matches, ()),
            call_requires(read, ((),)),
        ensures
            exists|values: Result<ExternalForcing, NativeError>|
                {
                    &&& spec_field_view(*self, "subcatchment_external_forcing_value", generation, subtype, Ok::<(), NativeError>(()), matches, read, values)
                    &&& values matches Err(e) ==> result == Err::<Number, NativeError>(e)
                    &&& values matches Ok(v) ==> match spec_forcing_field(v, field@) {
                        Some(n) => result == Ok::<Number, NativeError>(n),
                        None => result is Err && is_internal_error(
                            result->Err_0,
                            "subcatchment_external_forcing_value",
                            "invalid private subcatchment forcing field"@,
                        ),
                    }
                },
    {
        let values = self.field_view("subcatchment_external_forcing_value", generation, subtype, Ok(()), matches, read);
        match values {
            Err(e) => Err(e),
            Ok(v) => forcing_field(v, field),
        }
    }

    /// Reads one precipitation scale factor of a subcatchment.
    pub fn subcatchment_precipitation_scale_factor<
        S,
        M: FnOnce() -> Result<bool, SwmmError>,
        R: FnOnce(SubcatchmentConfigurationField) -> Result<SubcatchmentConfigurationValue, SwmmError>,
    >(&self, generation: u64, subtype: Option<S>, field: &str, matches: M, read: R) -> (result: Result<Number, NativeError>)
        requires
            call_requires(matches, ()),
            forall|f: SubcatchmentConfigurationField| call_requires(read, (f,)),
        ensures
            exists|f: Result<SubcatchmentConfigurationField, NativeError>, value: Result<SubcatchmentConfigurationValue, NativeError>|
                {
                    &&& match spec_scale_factor_field(field@) {
                        Some(x) => f == Ok::<SubcatchmentConfigurationField, NativeError>(x),
                        None => f is Err && is_internal_error(
                            f->Err_0,
                            "subcatchment_precipitation_scale_factor",
                            "invalid private subcatchment forcing field"@,
                        ),
                    }
                    &&& spec_field_view(*self, "subcatchment_precipitation_scale_factor", generation, subtype, f, matches, read, value)
                    &&& value matches Err(e) ==> result == Err::<Number, NativeError>(e)
                    &&& value matches Ok(SubcatchmentConfigurationValue::Number(n)) ==> result == Ok::<Number, NativeError>(n)
                    &&& (value is Ok && !(value->Ok_0 is Number)) ==> result is Err && is_internal_error(
                        result->Err_0,
                        "subcatchment_precipitation_scale_factor",
                        "private forcing selector returned wrong value kind"@,
                    )
                },
    {
        let selected = scale_factor_field(field);
        let value = self.field_view("subcatchment_precipitation_scale_factor", generation, subtype, selected, matches, read);
        match value {
            Err(e) => Err(e),
            Ok(v) => scale_factor_value(v),
        }
    }

    /// Reads one stable configuration value of a subcatchment; `read` reads the resolved
    /// selector, marshalling relationships and the outlet's family as the selector asks.
    pub fn subcatchment_configuration_value<
        S,
        T,
        M: FnOnce() -> Result<bool, SwmmError>,
        R: FnOnce((SubcatchmentConfigurationField, bool)) -> Result<T, SwmmError>,
    >(&self, generation: u64, subtype: Option<S>, field: &str, matches: M, read: R) -> (result: Result<T, NativeError>)
        requires
            call_requires(matches, ()),
            forall|f: (SubcatchmentConfigurationField, bool)| call_requires(read, (f,)),
        ensures
            exists|f: Result<(SubcatchmentConfigurationField, bool), NativeError>|
                {
                    &&& match spec_subcatchment_configuration_field(field@) {
                        Some(x) => f == Ok::<(SubcatchmentConfigurationField, bool), NativeError>(x),
                        None => f is Err && is_internal_error(
                            f->Err_0,
                            "subcatchment_configuration_value",
                            "invalid private subcatchment configuration field"@,
                        ),
                    }
                    &&& spec_field_view(*self, "subcatchment_configuration_value", generation, subtype, f, matches, read, result)
                },
    {
        let selected = subcatchment_configuration_field(field);
        self.field_view("subcatchment_configuration_value", generation, subtype, selected, matches, read)
    }

    /// Reads one current result of a subcatchment; `read` reads it by its private name
    /// (`subcatchment_result_value`).
    pub fn subcatchment_result<S, T, M: FnOnce() -> Result<bool, SwmmError>, R: FnOnce(()) -> Result<T, SwmmError>>(
        &self,
        generation: u64,
        subtype: Option<S>,
        matches: M,
        read: R,
    ) -> (result: Result<T, NativeError>)
        requires
            call_requires(matches, ()),
            call_requires(read, ((),)),
        ensures
            spec_field_view(*self, "subcatchment_result", generation, subtype, Ok::<(), NativeError>(()), matches, read, result),
    {
        self.field_view("subcatchment_result", generation, subtype, Ok(()), matches, read)
    }

    /// Reads one named setting of a subcatchment: the key must be a `str`; `read` finds its
    /// value (`named_value`).
    pub fn subcatchment_named_setting_value<
        S,
        T,
        M: FnOnce() -> Result<bool, SwmmError>,
        R: FnOnce(String) -> Result<T, SwmmError>,
    >(&self, generation: u64, subtype: Option<S>, key: &PyValue, matches: M, read: R) -> (result: Result<T, NativeError>)
        requires
            call_requires(matches, ()),
            forall|k: String| call_requires(read, (k,)),
        ensures
            exists|k: Result<String, NativeError>|
                {
                    &&& match spec_text(*key) {
                        Some(t) => k == Ok::<String, NativeError>(t),
                        None => k matches Err(NativeError::Type { message }) && message@ == "subcatchment settings mapping keys must be str"@,
                    }
                    &&& spec_field_view(*self, "subcatchment_named_setting_value", generation, subtype, k, matches, read, result)
                },
    {
        let k = settings_key(key);
        self.field_view("subcatchment_named_setting_value", generation, subtype, k, matches, read)
    }

    /// Makes external precipitation the source of one rain gage, at the given rate.
    pub fn use_rain_gage_external_precipitation<S, M: FnOnce() -> Result<bool, SwmmError>, A: FnOnce(Number) -> Reported<()>>(
        &mut self,
        generation: u64,
        subtype: Option<S>,
        value: &PyValue,
        matches: M,
        apply: A,
    ) -> (result: Result<(), NativeError>)
        requires
            call_requires(matches, ()),
            forall|x: Number| call_requires(apply, (x,)),
        ensures
            exists|p: Result<Number, NativeError>|
                {
                    &&& spec_policy_outcome(p, spec_strict_number(*value, "external_precipitation_rate"@), "use_rain_gage_external_precipitation")
                    &&& spec_field_update(*old(self), *final(self), "use_rain_gage_external_precipitation", generation, subtype, p, matches, apply, result)
                },
            old(self).wf() ==> final(self).wf(),
    {
        let payload = strict_number(value, "external_precipitation_rate", "use_rain_gage_external_precipitation");
        self.field_update("use_rain_gage_external_precipitation", generation, subtype, payload, matches, apply)
    }

    /// Sets the persistent external rainfall of one subcatchment.
    pub fn set_subcatchment_external_rainfall<S, M: FnOnce() -> Result<bool, SwmmError>, A: FnOnce(Number) -> Reported<()>>(
        &mut self,
        generation: u64,
        subtype: Option<S>,
        value: &PyValue,
        matches: M,
        apply: A,
    ) -> (result: Result<(), NativeError>)
        requires
            call_requires(matches, ()),
            forall|x: Number| call_requires(apply, (x,)),
        ensures
            exists|p: Result<Number, NativeError>|
                {
                    &&& spec_policy_outcome(p, spec_strict_number(*value, "external_rainfall"@), "set_subcatchment_external_rainfall")
                    &&& spec_field_update(*old(self), *final(self), "set_subcatchment_external_rainfall", generation, subtype, p, matches, apply, result)
                },
            old(self).wf() ==> final(self).wf(),
    {
        let payload = strict_number(value, "external_rainfall", "set_subcatchment_external_rainfall");
        self.field_update("set_subcatchment_external_rainfall", generation, subtype, payload, matches, apply)
    }

    /// Sets the persistent external snowfall of one subcatchment.
    pub fn set_subcatchment_external_snowfall<S, M: FnOnce() -> Result<bool, SwmmError>, A: FnOnce(Number) -> Reported<()>>(
        &mut self,
        generation: u64,
        subtype: Option<S>,
        value: &PyValue,
        matches: M,
        apply: A,
    ) -> (result: Result<(), NativeError>)
        requires
            call_requires(matches, ()),
            forall|x: Number| call_requires(apply, (x,)),
        ensures
            exists|p: Result<Number, NativeError>|
                {
                    &&& spec_policy_outcome(p, spec_strict_number(*value, "external_snowfall"@), "set_subcatchment_external_snowfall")
                    &&& spec_field_update(*old(self), *final(self), "set_subcatchment_external_snowfall", generation, subtype, p, matches, apply, result)
                },
            old(self).wf() ==> final(self).wf(),
    {
        let payload = strict_number(value, "external_snowfall", "set_subcatchment_external_snowfall");
        self.field_update("set_subcatchment_external_snowfall", generation, subtype, payload, matches, apply)
    }

    /// Sets, or with `None` clears, the persistent rainfall override of one rain gage.
    pub fn set_rain_gage_rainfall_override<S, M: FnOnce() -> Result<bool, SwmmError>, A: FnOnce(Option<Number>) -> Reported<()>>(
        &mut self,
        generation: u64,
        subtype: Option<S>,
        value: &PyValue,
        matches: M,
        apply: A,
    ) -> (result: Result<(), NativeError>)
        requires
            call_requires(matches, ()),
            forall|x: Option<Number>| call_requires(apply, (x,)),
        ensures
            exists|p: Result<Option<Number>, NativeError>|
                {
                    &&& value is NoneValue ==> p == Ok::<Option<Number>, NativeError>(None)
                    &&& !(value is NoneValue) ==> match spec_strict_number(*value, "rainfall_override"@) {
                        Ok(n) => p == Ok::<Option<Number>, NativeError>(Some(n)),
                        Err(d) => p is Err && crate::error::is_property_error(
                            p->Err_0,
                            "set_rain_gage_rainfall_override",
                            ErrorCode::ApiPropertyValue,
                            d,
                        ),
                    }
                    &&& spec_field_update(*old(self), *final(self), "set_rain_gage_rainfall_override", generation, subtype, p, matches, apply, result)
                },
            old(self).wf() ==> final(self).wf(),
    {
        let payload = match value {
            PyValue::NoneValue => Ok(None),
            _ => match strict_number(value, "rainfall_override", "set_rain_gage_rainfall_override") {
                Err(e) => Err(e),
                Ok(n) => Ok(Some(n)),
            },
        };
        self.field_update("set_rain_gage_rainfall_override", generation, subtype, payload, matches, apply)
    }

    /// Sets the persistent rainfall and snowfall scale factors of one subcatchment; rainfall is
    /// checked first.
    pub fn set_subcatchment_precipitation_scale_factors<
        S,
        M: FnOnce() -> Result<bool, SwmmError>,
        A: FnOnce((Number, Number)) -> Reported<()>,
    >(
        &mut self,
        generation: u64,
        subtype: Option<S>,
        rainfall: &PyValue,
        snowfall: &PyValue,
        matches: M,
        apply: A,
    ) -> (result: Result<(), NativeError>)
        requires
            call_requires(matches, ()),
            forall|x: (Number, Number)| call_requires(apply, (x,)),
        ensures
            exists|p: Result<(Number, Number), NativeError>|
                {
                    &&& match spec_strict_number(*rainfall, "rain_scale_factor"@) {
                        Err(d) => p is Err && crate::error::is_property_error(
                            p->Err_0,
                            "set_subcatchment_precipitation_scale_factors",
                            ErrorCode::ApiPropertyValue,
                            d,
                        ),
                        Ok(r) => match spec_strict_number(*snowfall, "snow_scale_factor"@) {
                            Err(d) => p is Err && crate::error::is_property_error(
                                p->Err_0,
                                "set_subcatchment_precipitation_scale_factors",
                                ErrorCode::ApiPropertyValue,
                                d,
                            ),
                            Ok(s) => p == Ok::<(Number, Number), NativeError>((r, s)),
                        },
                    }
                    &&& spec_field_update(
                        *old(self),
                        *final(self),
                        "set_subcatchment_precipitation_scale_factors",
                        generation,
                        subtype,
                        p,
                        matches,
                        apply,
                        result,
                    )
                },
            old(self).wf() ==> final(self).wf(),
    {
        let operation = "set_subcatchment_precipitation_scale_factors";
        let payload = match strict_number(rainfall, "rain_scale_factor", operation) {
            Err(e) => Err(e),
            Ok(r) => match strict_number(snowfall, "snow_scale_factor", operation) {
                Err(e) => Err(e),
                Ok(s) => Ok((r, s)),
            },
        };
        self.field_update(operation, generation, subtype, payload, matches, apply)
    }
}

} // verus!
