use swmmrs_native::aquifers::{
    extract_aquifer_update, extract_snowmelt_update, snowmelt_removal_fractions, SnowmeltSurfaceField,
    SnowmeltUpdate,
};
use swmmrs_native::error::{ErrorCode, NativeError, SwmmError};
use swmmrs_native::fields::SnowmeltSurface;
use swmmrs_native::forcing::{named_pairs, named_value, precipitation_field, RainGagePrecipitation};
use swmmrs_native::infiltration::{
    extract_groundwater_update, extract_infiltration_update, groundwater_value, infiltration_value,
    replace_infiltration_field, GroundwaterValue, InfiltrationField, InfiltrationValue,
    SettingsMutationFailure,
};
use swmmrs_native::rtk::{
    extract_assignments, extract_monthly_responses, extract_unit_hydrograph_update, response_values,
};
use swmmrs_native::subcatchments::{
    extract_subcatchment_update, groundwater_settings, infiltration_settings, named_mapping_values,
    named_settings_patch, resolve_named_values, GroundwaterConfiguration, GroundwaterValues,
    InfiltrationConfiguration, SettingsIdentity, SubcatchmentOutlet,
};
use swmmrs_native::value::{Number, ObjectType, PublicType, PyValue, RelatedObject};

fn key(name: &str) -> Option<String> {
    Some(name.to_string())
}

fn float(x: f64) -> PyValue {
    PyValue::Float(x.to_bits())
}

fn number(x: f64) -> Number {
    Number::Float(x.to_bits())
}

fn related(object_type: ObjectType, index: usize, id: &str) -> PyValue {
    PyValue::Related(RelatedObject {
        object_type,
        index,
        id: id.to_string(),
        subtype: "ordinary".to_string(),
    })
}

fn declaration(attributes: Vec<(&str, PyValue)>) -> PyValue {
    PyValue::Declaration {
        class: PublicType::Tuple,
        attributes: attributes.into_iter().map(|(n, v)| (n.to_string(), v)).collect(),
    }
}

fn refusal(error: &NativeError) -> (String, String) {
    match error {
        NativeError::Native { operation, error } => {
            assert_eq!(error.code, ErrorCode::ApiPropertyValue);
            (operation.to_string(), error.detail.clone().unwrap_or_default())
        },
        other => panic!("not a refusal: {other:?}"),
    }
}

fn accept_all(relation: &RelatedObject, _family: ObjectType, _name: &'static str) -> Result<usize, SwmmError> {
    Ok(relation.index + 100)
}

fn identities(family: ObjectType) -> Result<Vec<SettingsIdentity>, SwmmError> {
    let names: &[&str] = match family {
        ObjectType::Pollut => &["TSS", "Lead"],
        _ => &["Residential", "Commercial", "Park"],
    };
    Ok(names
        .iter()
        .enumerate()
        .map(|(index, id)| SettingsIdentity { id: id.to_string(), index })
        .collect())
}

fn response(base: f64) -> PyValue {
    PyValue::Tuple((0..6).map(|k| float(base + k as f64)).collect())
}

fn month() -> PyValue {
    PyValue::List(vec![response(0.0), response(10.0), response(20.0)])
}

#[test]
fn unit_hydrograph_responses_need_twelve_months_of_three() {
    let year = PyValue::List((0..12).map(|_| month()).collect());
    let months = extract_monthly_responses(&year).unwrap();
    assert_eq!(months.len(), 12);
    assert_eq!(months[11].medium_term.rainfall_fraction, number(10.0));
    assert_eq!(response_values(months[0].long_term)[5], number(25.0));

    let short_year = PyValue::List((0..11).map(|_| month()).collect());
    let refused = extract_monthly_responses(&short_year).unwrap_err();
    assert_eq!(refusal(&refused).1, "monthly_responses must contain 12 months");

    let two = PyValue::List(vec![PyValue::List(vec![response(0.0), response(1.0)])]);
    let refused = extract_monthly_responses(&two).unwrap_err();
    assert_eq!(refusal(&refused).1, "each month must contain short, medium, and long responses");

    let short_response = PyValue::List(vec![PyValue::List(vec![PyValue::Tuple(vec![float(1.0)])])]);
    let refused = extract_monthly_responses(&short_response).unwrap_err();
    assert_eq!(refusal(&refused).1, "each response must contain six parameters");

    let mut values: Vec<PyValue> = (0..6).map(|k| float(k as f64)).collect();
    values[1] = PyValue::Bool(true);
    let boolean = PyValue::List(vec![PyValue::List(vec![PyValue::Tuple(values)])]);
    let refused = extract_monthly_responses(&boolean).unwrap_err();
    assert_eq!(refusal(&refused), ("update_unit_hydrograph".to_string(), "time_to_peak_hours must not be bool".to_string()));

    let refused = extract_monthly_responses(&PyValue::Int(3)).unwrap_err();
    assert_eq!(refusal(&refused).1, "monthly_responses must be iterable");
}

#[test]
fn unit_hydrograph_update_reads_rain_gage_and_unknown_fields() {
    let update = extract_unit_hydrograph_update(vec![(key("rain_gage"), related(ObjectType::Gage, 2, "RG"))]).unwrap();
    assert_eq!(update.rain_gage.as_ref().unwrap().index, 2);
    let patch = update.into_patch(&accept_all).unwrap();
    assert_eq!(patch.rain_gage_index, Some(2));
    let refused = extract_unit_hydrograph_update(vec![(key("shape"), PyValue::Int(1))]).unwrap_err();
    assert_eq!(refusal(&refused).1, "unknown unit-hydrograph field: shape");
}

#[test]
fn rdii_assignments_are_node_unit_hydrograph_area_triples() {
    let assignments = extract_assignments(PyValue::List(vec![PyValue::Tuple(vec![
        related(ObjectType::Node, 1, "J1"),
        related(ObjectType::Unithyd, 0, "UH"),
        PyValue::Int(5),
    ])]))
    .unwrap();
    assert_eq!(assignments[0].unit_hydrograph.index, 0);
    assert_eq!(assignments[0].area, Number::Int(5));
    let refused = extract_assignments(PyValue::List(vec![PyValue::Tuple(vec![PyValue::Int(1)])])).unwrap_err();
    assert_eq!(
        refusal(&refused),
        (
            "replace_rdii_assignments".to_string(),
            "each assignment must contain node, unit_hydrograph, and area".to_string()
        )
    );
}

#[test]
fn aquifer_update_resolves_and_clears_its_pattern() {
    let update = extract_aquifer_update(vec![
        (key("porosity"), float(0.5)),
        (key("upper_evaporation_pattern"), PyValue::NoneValue),
    ])
    .unwrap();
    assert_eq!(update.patch.porosity, Some(number(0.5)));
    let patch = update.into_patch(&accept_all).unwrap();
    assert_eq!(patch.upper_evaporation_pattern_index, Some(None));

    let update = extract_aquifer_update(vec![(key("upper_evaporation_pattern"), related(ObjectType::Timepattern, 3, "P"))]).unwrap();
    assert_eq!(update.into_patch(&accept_all).unwrap().upper_evaporation_pattern_index, Some(Some(103)));

    let refused = extract_aquifer_update(vec![(key("porosity"), PyValue::Bool(true))]).unwrap_err();
    assert_eq!(refusal(&refused), ("update_aquifer".to_string(), "porosity must not be bool".to_string()));
    let refused = extract_aquifer_update(vec![(key("depth"), float(1.0))]).unwrap_err();
    assert_eq!(refusal(&refused).1, "unknown aquifer field: depth");
}

#[test]
fn snowmelt_surface_update_completes_the_surface_from_current_values() {
    let update = extract_snowmelt_update(Some("pervious"), vec![(key("base_temperature"), float(32.0))]).unwrap();
    let read = |field: SnowmeltSurfaceField| -> Result<Number, SwmmError> {
        Ok(match field {
            SnowmeltSurfaceField::BaseTemperature => number(-1.0),
            _ => number(7.0),
        })
    };
    let patch = update.into_patch(&accept_all, &read).unwrap();
    let (surface, configuration) = patch.surface.unwrap();
    assert_eq!(surface, SnowmeltSurface::Pervious);
    assert_eq!(configuration.base_temperature, number(32.0));
    assert_eq!(configuration.minimum_melt_coefficient, number(7.0));

    let empty = extract_snowmelt_update(Some("pervious"), vec![]).unwrap();
    let failing = |_field: SnowmeltSurfaceField| -> Result<Number, SwmmError> { panic!("nothing is read") };
    assert!(empty.into_patch(&accept_all, &failing).unwrap().surface.is_none());

    let unknown_surface = extract_snowmelt_update(Some("roof"), vec![]).unwrap_err();
    assert!(matches!(unknown_surface, NativeError::Internal { operation: "snowmelt_surface", .. }));
    let refused = extract_snowmelt_update(Some("roof"), vec![(key("plow_depth"), float(1.0))]).unwrap_err();
    assert_eq!(refusal(&refused).1, "unknown snowmelt surface field: plow_depth");
}

#[test]
fn snowmelt_root_update_reads_five_removal_fractions() {
    let fractions = PyValue::List((0..5).map(|k| float(k as f64 / 10.0)).collect());
    let update = extract_snowmelt_update(None, vec![(key("removal_fractions"), fractions)]).unwrap();
    match update {
        SnowmeltUpdate::Root { patch, removal_subcatchment } => {
            assert_eq!(patch.removal_fractions.unwrap()[4], number(0.4));
            assert!(removal_subcatchment.is_none());
        },
        SnowmeltUpdate::Surface { .. } => panic!("root update expected"),
    }
    let refused = snowmelt_removal_fractions(&PyValue::List(vec![float(1.0)])).unwrap_err();
    assert_eq!(refusal(&refused), ("update_snowmelt".to_string(), "removal_fractions must contain five numeric values".to_string()));
}

#[test]
fn named_settings_accept_mappings_and_pairs() {
    let mapping = PyValue::Dict(vec![(PyValue::Str("tss".to_string()), float(2.0))]);
    assert_eq!(named_mapping_values(&mapping, "initial_buildup").unwrap(), vec![("tss".to_string(), number(2.0))]);
    let pairs = PyValue::List(vec![PyValue::Tuple(vec![PyValue::Str("Park".to_string()), PyValue::Int(1)])]);
    assert_eq!(named_mapping_values(&pairs, "coverage").unwrap(), vec![("Park".to_string(), Number::Int(1))]);
    let bad_key = PyValue::Dict(vec![(PyValue::Int(1), float(2.0))]);
    assert!(matches!(
        named_mapping_values(&bad_key, "coverage").unwrap_err(),
        NativeError::Type { message } if message == "subcatchment settings mapping keys must be str"
    ));
    let short = PyValue::List(vec![PyValue::Tuple(vec![PyValue::Str("Park".to_string())])]);
    assert!(matches!(named_mapping_values(&short, "coverage").unwrap_err(), NativeError::Index { position: 1 }));
    let refused = named_mapping_values(&PyValue::Dict(vec![(PyValue::Str("x".to_string()), PyValue::Bool(true))]), "coverage").unwrap_err();
    assert_eq!(refusal(&refused), ("update_subcatchment".to_string(), "coverage must not be bool".to_string()));
}

#[test]
fn named_values_resolve_in_configured_order() {
    let values = vec![("lead".to_string(), number(3.0))];
    let resolved = resolve_named_values(&identities, ObjectType::Pollut, &values, true).unwrap();
    assert_eq!(resolved, vec![(0, Number::Float(0)), (1, number(3.0))]);
    let sparse = resolve_named_values(&identities, ObjectType::Pollut, &values, false).unwrap();
    assert_eq!(sparse, vec![(1, number(3.0))]);
    let unknown = resolve_named_values(&identities, ObjectType::Pollut, &vec![("zinc".to_string(), number(1.0))], true).unwrap_err();
    assert_eq!(unknown.code, ErrorCode::ApiObjectName);
    assert_eq!(unknown.detail.as_deref(), Some("zinc"));
    let twice = vec![("TSS".to_string(), number(1.0)), ("tss".to_string(), number(2.0))];
    let duplicate = resolve_named_values(&identities, ObjectType::Pollut, &twice, true).unwrap_err();
    assert_eq!(duplicate.detail.as_deref(), Some("duplicate configured settings name"));

    let unchanged = named_settings_patch(&identities, ObjectType::Landuse, vec![], false).unwrap();
    assert!(unchanged.coverage.is_none() && unchanged.loading.is_none());
    let cleared = named_settings_patch(&identities, ObjectType::Landuse, vec![], true).unwrap();
    assert_eq!(cleared.coverage.unwrap().len(), 3);
}

#[test]
fn subcatchment_update_resolves_relationships_and_named_entries() {
    let infiltration = declaration(vec![
        ("kind", PyValue::Str("curve_number".to_string())),
        ("curve_number", float(80.0)),
        ("drying_time_days", float(7.0)),
    ]);
    let update = extract_subcatchment_update(vec![
        (key("area"), float(12.0)),
        (key("outlet"), related(ObjectType::Subcatch, 4, "S4")),
        (key("infiltration"), infiltration),
        (key("snowpack"), PyValue::NoneValue),
        (key("initial_buildup"), PyValue::Dict(vec![(PyValue::Str("TSS".to_string()), float(1.5))])),
    ])
    .unwrap();
    let patch = update.into_patch(&accept_all, &identities).unwrap();
    assert_eq!(patch.scalars.area, Some(number(12.0)));
    assert_eq!(patch.outlet, Some(SubcatchmentOutlet::Subcatchment(104)));
    assert_eq!(
        patch.infiltration,
        Some(InfiltrationConfiguration::CurveNumber { curve_number: number(80.0), drying_time_days: number(7.0) })
    );
    assert_eq!(patch.loading.unwrap(), vec![(0, number(1.5)), (1, Number::Float(0))]);

    let wrong_family = extract_subcatchment_update(vec![(key("outlet"), related(ObjectType::Link, 1, "C1"))]).unwrap();
    let failure = wrong_family.into_patch(&accept_all, &identities).unwrap_err();
    assert_eq!(failure.detail.as_deref(), Some("outlet has the wrong object family"));

    let refused = extract_subcatchment_update(vec![(key("rain_gage"), PyValue::Int(1))]).unwrap_err();
    assert_eq!(refusal(&refused).1, "rain_gage must be a Live View");
    let refused = extract_subcatchment_update(vec![(key("infiltration"), declaration(vec![("kind", PyValue::Str("philip".to_string()))]))]).unwrap_err();
    assert_eq!(refusal(&refused).1, "invalid infiltration model");
    let refused = extract_subcatchment_update(vec![(key("infiltration"), declaration(vec![]))]).unwrap_err();
    assert_eq!(refusal(&refused).1, "missing settings field: kind");
}

#[test]
fn groundwater_settings_need_every_parameter() {
    let names = [
        "surface_elevation",
        "groundwater_coefficient",
        "groundwater_exponent",
        "surface_coefficient",
        "surface_exponent",
        "interaction_coefficient",
        "fixed_surface_depth",
        "bottom_elevation",
        "water_table_elevation",
        "upper_moisture",
    ];
    let mut attributes = vec![("aquifer", related(ObjectType::Aquifer, 0, "A")), ("node", related(ObjectType::Node, 1, "J"))];
    for (k, name) in names.iter().enumerate() {
        attributes.push((name, float(k as f64)));
    }
    let settings = groundwater_settings(declaration(attributes)).unwrap().unwrap();
    assert_eq!(settings.values.upper_moisture, number(9.0));
    assert!(groundwater_settings(PyValue::NoneValue).unwrap().is_none());
    let missing = groundwater_settings(declaration(vec![("aquifer", related(ObjectType::Aquifer, 0, "A"))])).unwrap_err();
    assert_eq!(refusal(&missing).1, "missing settings field: node");
    let infiltration = infiltration_settings(declaration(vec![
        ("kind", PyValue::Str("horton".to_string())),
        ("initial_rate", float(3.0)),
        ("minimum_rate", float(0.5)),
        ("decay_coefficient", float(4.0)),
        ("drying_time_days", float(7.0)),
        ("maximum_infiltration", PyValue::NoneValue),
    ]))
    .unwrap();
    assert!(matches!(infiltration, InfiltrationConfiguration::Horton { maximum_infiltration: None, .. }));
}

fn horton() -> InfiltrationConfiguration {
    InfiltrationConfiguration::Horton {
        initial_rate: number(3.0),
        minimum_rate: number(0.5),
        decay_coefficient: number(4.0),
        drying_time_days: number(7.0),
        maximum_infiltration: Some(number(1.0)),
    }
}

#[test]
fn infiltration_slot_updates_follow_the_captured_model() {
    let update = extract_infiltration_update("horton", vec![
        (key("minimum_rate"), float(0.25)),
        (key("maximum_infiltration"), PyValue::NoneValue),
    ])
    .unwrap();
    let patch = update.into_patch(|| Ok(Some(horton()))).unwrap();
    match patch.infiltration.unwrap() {
        InfiltrationConfiguration::Horton { minimum_rate, maximum_infiltration, .. } => {
            assert_eq!(minimum_rate, number(0.25));
            assert_eq!(maximum_infiltration, None);
        },
        other => panic!("unexpected {other:?}"),
    }
    let stale = extract_infiltration_update("green_ampt", vec![]).unwrap();
    assert!(matches!(stale.into_patch(|| Ok(Some(horton()))), Err(SettingsMutationFailure::Stale)));
    let absent = extract_infiltration_update("horton", vec![]).unwrap();
    assert!(matches!(absent.into_patch(|| Ok(None)), Err(SettingsMutationFailure::Stale)));

    let wrong = replace_infiltration_field(horton(), InfiltrationField::CurveNumber, Some(number(1.0))).unwrap_err();
    assert_eq!(wrong.detail.as_deref(), Some("field does not belong to infiltration kind"));
    let none = replace_infiltration_field(horton(), InfiltrationField::InitialRate, None).unwrap_err();
    assert_eq!(none.detail.as_deref(), Some("infiltration field cannot be None"));
    let refused = extract_infiltration_update("horton", vec![(key("porosity"), float(1.0))]).unwrap_err();
    assert_eq!(refusal(&refused).1, "unknown infiltration field: porosity");
}

#[test]
fn infiltration_values_are_selected_by_field() {
    assert!(matches!(infiltration_value(None, None, "kind"), Ok(InfiltrationValue::Absent)));
    assert!(matches!(infiltration_value(None, Some("horton"), "kind"), Err(NativeError::Stale { .. })));
    assert!(matches!(infiltration_value(Some(horton()), None, "kind"), Ok(InfiltrationValue::Kind("horton"))));
    assert!(matches!(
        infiltration_value(Some(horton()), Some("horton"), "decay_coefficient"),
        Ok(InfiltrationValue::Number(n)) if n == number(4.0)
    ));
    let refused = infiltration_value(Some(horton()), None, "curve_number").unwrap_err();
    assert_eq!(
        refusal(&refused),
        (
            "subcatchment_infiltration_value".to_string(),
            "curve_number does not apply to the current infiltration kind".to_string()
        )
    );
}

fn groundwater() -> GroundwaterConfiguration {
    GroundwaterConfiguration::Present {
        aquifer_index: 0,
        node_index: 1,
        values: GroundwaterValues {
            surface_elevation: number(10.0),
            groundwater_coefficient: number(1.0),
            groundwater_exponent: number(2.0),
            surface_coefficient: number(0.0),
            surface_exponent: number(0.0),
            interaction_coefficient: number(0.0),
            fixed_surface_depth: number(0.0),
            bottom_elevation: number(0.0),
            water_table_elevation: number(5.0),
            upper_moisture: number(0.3),
        },
    }
}

#[test]
fn groundwater_slot_updates_replace_parameters_and_relationships() {
    let update = extract_groundwater_update(vec![
        (key("water_table_elevation"), float(6.0)),
        (key("node"), related(ObjectType::Node, 7, "J7")),
    ])
    .unwrap();
    let patch = update.into_patch(|| Ok(groundwater()), &accept_all).unwrap();
    match patch.groundwater.unwrap() {
        GroundwaterConfiguration::Present { aquifer_index, node_index, values } => {
            assert_eq!((aquifer_index, node_index), (0, 107));
            assert_eq!(values.water_table_elevation, number(6.0));
        },
        GroundwaterConfiguration::Removed => panic!("groundwater expected"),
    }
    let removed = extract_groundwater_update(vec![]).unwrap();
    assert!(matches!(removed.into_patch(|| Ok(GroundwaterConfiguration::Removed), &accept_all), Err(SettingsMutationFailure::Stale)));
    assert_eq!(groundwater_value(groundwater(), "present").unwrap(), GroundwaterValue::Flag(true));
    assert_eq!(groundwater_value(GroundwaterConfiguration::Removed, "present").unwrap(), GroundwaterValue::Flag(false));
    assert!(matches!(groundwater_value(GroundwaterConfiguration::Removed, "upper_moisture"), Err(NativeError::Stale { .. })));
    assert_eq!(groundwater_value(groundwater(), "upper_moisture").unwrap(), GroundwaterValue::Number(number(0.3)));
    let refused = extract_groundwater_update(vec![(key("slope"), float(1.0))]).unwrap_err();
    assert_eq!(refusal(&refused).1, "unknown groundwater field: slope");
}

#[test]
fn forcing_and_named_reads_select_their_fields() {
    let values = RainGagePrecipitation { total_precip: number(3.0), rainfall: number(2.0), snowfall: number(1.0) };
    assert_eq!(precipitation_field(values, "snowfall").unwrap(), number(1.0));
    assert!(matches!(precipitation_field(values, "hail"), Err(NativeError::Internal { .. })));
    let ids = identities(ObjectType::Landuse).unwrap();
    let amounts = vec![number(0.5), number(0.25), number(0.25)];
    assert_eq!(named_value(&ids, &amounts, "PARK".to_string()).unwrap(), number(0.25));
    let unknown = named_value(&ids, &amounts, "Forest".to_string()).unwrap_err();
    assert_eq!(unknown.code, ErrorCode::ApiObjectName);
    let pairs = named_pairs(ids, vec![number(1.0)]);
    assert_eq!(pairs, vec![("Residential".to_string(), number(1.0))]);
}
