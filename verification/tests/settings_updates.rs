use swmmrs_native::amm::{
    extract_amm_update, extract_assignments, extract_component, resolve_assignments,
    AmmComponentConfiguration,
};
use swmmrs_native::error::{ErrorCode, NativeError, SwmmError};
use swmmrs_native::fields::{
    extract_outlet_head_basis, outlet_head_basis_name, OutletHeadBasis, XsectType,
};
use swmmrs_native::lids::{
    extract_lid_layer_patch, extract_lid_unit_update, lid_patch_layer_present, LidDrainDestination,
    LidLayerPatch, LidLayersConfigured,
};
use swmmrs_native::links::{
    cross_section_parts, extract_cross_section, extract_link_update, extract_outlet_rating,
    CrossSectionConfiguration, LinkCrossSectionValue, LinkSubtypePatch, NativeCrossSection,
    NativeOutletRating,
};
use swmmrs_native::nodes::{
    extract_divider_rule, extract_node_update, extract_outfall_boundary, extract_storage_exfiltration,
    extract_storage_shape, NativeDividerRule, NativeOutfallBoundary, NativeStorageShape,
    NodeSubtypePatch, StorageExfiltration,
};
use swmmrs_native::value::{Number, ObjectType, PublicType, PyValue, RelatedObject};

fn key(name: &str) -> Option<String> {
    Some(name.to_string())
}

fn related(object_type: ObjectType, index: usize, id: &str) -> PyValue {
    PyValue::Related(RelatedObject {
        object_type,
        index,
        id: id.to_string(),
        subtype: "junction".to_string(),
    })
}

fn declaration(class: PublicType, attributes: Vec<(&str, PyValue)>) -> PyValue {
    PyValue::Declaration {
        class,
        attributes: attributes.into_iter().map(|(n, v)| (n.to_string(), v)).collect(),
    }
}

fn refusal(error: &NativeError) -> (String, String) {
    match error {
        NativeError::Native { operation, error } => {
            assert_eq!(error.code, ErrorCode::ApiPropertyValue);
            (operation.to_string(), error.detail.clone().unwrap_or_default())
        },
        other => panic!("not a refusal: {other:?}"),
    }
}

fn accept_all(relation: &RelatedObject, _family: ObjectType, _name: &'static str) -> Result<usize, SwmmError> {
    Ok(relation.index + 100)
}

#[test]
fn link_update_collects_common_and_subtype_settings() {
    let update = extract_link_update(
        "conduit",
        vec![
            (key("tag"), PyValue::Str("main".to_string())),
            (key("inlet_offset"), PyValue::Int(2)),
            (key("has_flap_gate"), PyValue::Bool(true)),
            (key("length"), PyValue::Float(100.0f64.to_bits())),
            (key("barrels"), PyValue::Int(3)),
            (key("inlet_node"), related(ObjectType::Node, 4, "J4")),
        ],
    )
    .unwrap();
    assert_eq!(update.patch.tag.as_deref(), Some("main"));
    assert_eq!(update.patch.inlet_offset, Some(Number::Int(2)));
    assert_eq!(update.patch.has_flap_gate, Some(true));
    let conduit = update.conduit.unwrap();
    assert_eq!(conduit.length, Some(Number::Float(100.0f64.to_bits())));
    assert_eq!(conduit.barrels, Some(3));
    assert_eq!(update.inlet_node.as_ref().unwrap().index, 4);
}

#[test]
fn link_update_refuses_settings_of_other_subtypes() {
    let refused = extract_link_update("pump", vec![(key("length"), PyValue::Int(1))]).unwrap_err();
    assert_eq!(
        refusal(&refused),
        ("update_link_settings".to_string(), "unknown or read-only pump link setting: length".to_string())
    );
}

#[test]
fn link_update_reports_the_first_refusal() {
    let refused = extract_link_update(
        "conduit",
        vec![
            (key("barrels"), PyValue::Int(256)),
            (None, PyValue::Int(1)),
            (key("initial_flow"), PyValue::Bool(false)),
        ],
    )
    .unwrap_err();
    assert_eq!(refusal(&refused).1, "barrels must be an integer in [0, 255]");
    let not_node = extract_link_update("conduit", vec![(key("inlet_node"), PyValue::Int(1))]).unwrap_err();
    assert_eq!(refusal(&not_node).1, "inlet_node must be Node");
    let boolean = extract_link_update("weir", vec![(key("roadway_width"), PyValue::Bool(true))]).unwrap_err();
    assert_eq!(refusal(&boolean).1, "roadway_width must not be bool");
    let text = extract_link_update("weir", vec![(key("can_surcharge"), PyValue::Int(1))]).unwrap_err();
    assert_eq!(refusal(&text).1, "can_surcharge must be bool");
    let no_key = extract_link_update("weir", vec![(None, PyValue::Int(1))]).unwrap_err();
    assert_eq!(refusal(&no_key).1, "link settings fields must be strings");
}

#[test]
fn cross_sections_are_read_from_typed_declarations() {
    let circular = extract_cross_section(declaration(
        PublicType::CircularCrossSection,
        vec![("diameter", PyValue::Int(2))],
    ))
    .unwrap();
    assert!(matches!(circular, NativeCrossSection::Circular(Number::Int(2))));

    let standard = extract_cross_section(declaration(
        PublicType::StandardCrossSection,
        vec![
            ("culvert_code", PyValue::Int(0)),
            ("shape", PyValue::Enum { class: PublicType::StandardCrossSectionShape, value: "trapezoidal".to_string() }),
            ("geometry", PyValue::Tuple(vec![PyValue::Int(1), PyValue::Int(2), PyValue::Int(3), PyValue::Int(4)])),
        ],
    ))
    .unwrap();
    match standard {
        NativeCrossSection::Standard(shape, geometry, code) => {
            assert_eq!(shape, XsectType::Trapezoidal);
            assert_eq!(geometry, (Number::Int(1), Number::Int(2), Number::Int(3), Number::Int(4)));
            assert_eq!(code, 0);
        },
        other => panic!("unexpected {other:?}"),
    }

    let short = extract_cross_section(declaration(
        PublicType::StandardCrossSection,
        vec![
            ("shape", PyValue::Enum { class: PublicType::StandardCrossSectionShape, value: "circular".to_string() }),
            ("geometry", PyValue::Tuple(vec![PyValue::Int(1)])),
            ("culvert_code", PyValue::Int(0)),
        ],
    ))
    .unwrap_err();
    assert_eq!(refusal(&short).1, "geometry must contain four values");

    let missing = extract_cross_section(declaration(PublicType::CustomCrossSection, vec![])).unwrap_err();
    assert_eq!(refusal(&missing).1, "cross_section must be a typed declaration");

    let no_shape = extract_cross_section(declaration(
        PublicType::CustomCrossSection,
        vec![("shape", PyValue::NoneValue), ("full_depth", PyValue::Int(1)), ("culvert_code", PyValue::Int(0))],
    ))
    .unwrap_err();
    assert_eq!(refusal(&no_shape).1, "cross_section.shape is required");
}

#[test]
fn outlet_ratings_are_read_from_typed_declarations() {
    let rating = extract_outlet_rating(declaration(
        PublicType::TabularOutletRating,
        vec![
            ("curve", related(ObjectType::Curve, 7, "C7")),
            ("head_basis", PyValue::Enum { class: PublicType::OutletHeadBasis, value: "head".to_string() }),
        ],
    ))
    .unwrap();
    match rating {
        NativeOutletRating::Tabular(curve, basis) => {
            assert_eq!(curve.index, 7);
            assert_eq!(basis, OutletHeadBasis::Head);
        },
        other => panic!("unexpected {other:?}"),
    }
    let wrong = extract_outlet_rating(PyValue::Int(3)).unwrap_err();
    assert_eq!(refusal(&wrong).1, "rating must be a typed declaration");
}

#[test]
fn outlet_head_basis_spelling_round_trips() {
    for basis in [OutletHeadBasis::Depth, OutletHeadBasis::Head] {
        let value = PyValue::Enum {
            class: PublicType::OutletHeadBasis,
            value: outlet_head_basis_name(basis).to_string(),
        };
        assert_eq!(extract_outlet_head_basis(&value).unwrap(), basis);
    }
}

#[test]
fn link_patch_resolves_relationships_in_order() {
    let update = extract_link_update(
        "conduit",
        vec![
            (key("outlet_node"), related(ObjectType::Node, 2, "J2")),
            (
                key("cross_section"),
                declaration(
                    PublicType::IrregularCrossSection,
                    vec![("transect", related(ObjectType::Transect, 5, "T5")), ("culvert_code", PyValue::Int(1))],
                ),
            ),
            (key("roughness"), PyValue::Int(1)),
        ],
    )
    .unwrap();
    let patch = update.into_patch(&accept_all, &|shape: usize| Ok(shape)).unwrap();
    assert_eq!(patch.outlet_node_index, Some(102));
    assert_eq!(patch.inlet_node_index, None);
    assert!(matches!(
        patch.cross_section,
        Some(CrossSectionConfiguration::Irregular { transect_index: 105, culvert_code: 1 })
    ));
    assert!(matches!(patch.subtype, Some(LinkSubtypePatch::Conduit(_))));

    let refused = extract_link_update("conduit", vec![(key("inlet_node"), related(ObjectType::Node, 1, "J1"))])
        .unwrap()
        .into_patch(
            &|_r: &RelatedObject, _t: ObjectType, name: &'static str| {
                Err(SwmmError { code: ErrorCode::ApiPropertyValue, detail: Some(name.to_string()) })
            },
            &|shape: usize| Ok(shape),
        )
        .unwrap_err();
    assert_eq!(refused.detail.as_deref(), Some("inlet_node"));
}

#[test]
fn cross_section_parts_discriminate_kinds() {
    let parts = cross_section_parts(Some(LinkCrossSectionValue::<u32>::Circular { diameter: Number::Int(3) })).unwrap();
    assert_eq!(parts.kind, "circular");
    assert_eq!(parts.geometry, (Number::Int(3), Number::Float(0), Number::Float(0), Number::Float(0)));
    assert_eq!(parts.culvert_code, 0);
    let street = cross_section_parts(Some(LinkCrossSectionValue::Street { street: 9u32, culvert_code: 2 })).unwrap();
    assert_eq!(street.kind, "street");
    assert_eq!(street.related, Some((ObjectType::Street, 9)));
    assert!(cross_section_parts::<u32>(None).is_none());
}

#[test]
fn node_update_accepts_one_concrete_subtype() {
    let refused = extract_node_update(vec![
        (key("evaporation_fraction"), PyValue::Float(0.5f64.to_bits())),
        (key("has_flap_gate"), PyValue::Bool(true)),
    ])
    .unwrap_err();
    assert_eq!(
        refusal(&refused),
        ("update_node_settings".to_string(), "node update accepts fields for only one concrete subtype".to_string())
    );
    let unknown = extract_node_update(vec![(key("elevation"), PyValue::Int(1))]).unwrap_err();
    assert_eq!(refusal(&unknown).1, "unknown node field: elevation");
}

#[test]
fn node_update_resolves_outfall_settings() {
    let update = extract_node_update(vec![
        (key("invert_elevation"), PyValue::Int(10)),
        (
            key("boundary"),
            declaration(
                PublicType::OutfallBoundary,
                vec![("kind", PyValue::Str("fixed".to_string())), ("stage", PyValue::Int(4)), ("reference", PyValue::NoneValue)],
            ),
        ),
        (key("route_to_subcatchment"), related(ObjectType::Subcatch, 3, "S3")),
    ])
    .unwrap();
    let patch = update.into_patch(&accept_all).unwrap();
    assert_eq!(patch.invert_elevation, Some(Number::Int(10)));
    match patch.subtype {
        Some(NodeSubtypePatch::OutfallUpdate(outfall)) => {
            assert_eq!(outfall.route_to_subcatchment, Some(Some(103)));
            assert!(matches!(outfall.boundary, Some(swmmrs_native::nodes::OutfallBoundary::Fixed { stage: Number::Int(4) })));
        },
        other => panic!("unexpected {other:?}"),
    }
}

#[test]
fn storage_declarations_are_checked() {
    let tabular = declaration(
        PublicType::StorageShape,
        vec![
            ("kind", PyValue::Str("tabular".to_string())),
            ("coefficients", PyValue::Tuple(vec![PyValue::Int(1), PyValue::Int(0), PyValue::Int(0)])),
            ("curve", related(ObjectType::Curve, 1, "C1")),
        ],
    );
    assert_eq!(refusal(&extract_storage_shape(tabular).unwrap_err()).1, "tabular shape coefficients must all be zero");
    let functional = declaration(
        PublicType::StorageShape,
        vec![
            ("kind", PyValue::Str("functional".to_string())),
            ("coefficients", PyValue::Tuple(vec![PyValue::Int(1), PyValue::Int(2), PyValue::Float((-0.0f64).to_bits())])),
            ("curve", PyValue::NoneValue),
        ],
    );
    assert!(matches!(extract_storage_shape(functional).unwrap(), NativeStorageShape::Coefficients(_, _)));
    let seepage = declaration(
        PublicType::StorageExfiltration,
        vec![
            ("conductivity", PyValue::Int(2)),
            ("suction_head", PyValue::Float(0.0f64.to_bits())),
            ("moisture_deficit", PyValue::Int(0)),
        ],
    );
    assert!(matches!(
        extract_storage_exfiltration(seepage).unwrap(),
        StorageExfiltration::Seepage { conductivity: Number::Int(2) }
    ));
    let rule = declaration(
        PublicType::DividerRule,
        vec![
            ("kind", PyValue::Str("cutoff".to_string())),
            ("values", PyValue::Tuple(vec![PyValue::Int(5), PyValue::Int(1), PyValue::Int(0)])),
            ("curve", PyValue::NoneValue),
        ],
    );
    assert_eq!(refusal(&extract_divider_rule(rule).unwrap_err()).1, "cutoff rule accepts only minimum flow");
    let tidal = declaration(
        PublicType::OutfallBoundary,
        vec![("kind", PyValue::Str("tidal".to_string())), ("stage", PyValue::Int(0)), ("reference", related(ObjectType::Curve, 2, "T"))],
    );
    assert!(matches!(extract_outfall_boundary(tidal).unwrap(), NativeOutfallBoundary::Tidal(_)));
    let weir = declaration(
        PublicType::DividerRule,
        vec![
            ("kind", PyValue::Str("weir".to_string())),
            ("values", PyValue::Tuple(vec![PyValue::Int(1), PyValue::Int(2), PyValue::Int(3)])),
            ("curve", PyValue::NoneValue),
        ],
    );
    assert!(matches!(extract_divider_rule(weir).unwrap(), NativeDividerRule::Weir(..)));
}

#[test]
fn lid_layer_patch_checks_layer_fields() {
    let patch = extract_lid_layer_patch("drain", vec![
        (key("coefficient"), PyValue::Int(2)),
        (key("delay"), PyValue::Timedelta { days: 0, seconds: 60, microseconds: 0 }),
    ])
    .unwrap();
    match patch {
        LidLayerPatch::Drain(drain) => {
            assert_eq!(drain.coefficient, Some(Number::Int(2)));
            assert_eq!(drain.delay_seconds.unwrap().seconds, 60);
        },
        other => panic!("unexpected {other:?}"),
    }
    let wrong = extract_lid_layer_patch("soil", vec![(key("delay"), PyValue::Int(1))]).unwrap_err();
    assert_eq!(refusal(&wrong).1, "invalid property: soil.delay");
    let duration = extract_lid_layer_patch("pavement", vec![(key("regeneration_interval"), PyValue::Int(1))]).unwrap_err();
    assert_eq!(refusal(&duration).1, "regeneration_interval must be datetime.timedelta");
    let layers = LidLayersConfigured { surface: true, soil: false, storage: false, pavement: false, drain: true, drainage_mat: false };
    assert!(lid_patch_layer_present(patch, layers));
    let soil = extract_lid_layer_patch("soil", vec![]).unwrap();
    assert!(!lid_patch_layer_present(soil, layers));
}

#[test]
fn lid_unit_patch_resolves_drain_destination_family() {
    let update = extract_lid_unit_update(vec![
        (key("count"), PyValue::Int(2)),
        (key("drain_destination"), related(ObjectType::Subcatch, 6, "S6")),
    ])
    .unwrap();
    let patch = update.into_patch(&accept_all).unwrap();
    assert_eq!(patch.count, Some(2));
    assert!(matches!(patch.drain_destination, Some(LidDrainDestination::Subcatchment(106))));
    let wrong = extract_lid_unit_update(vec![(key("drain_destination"), related(ObjectType::Link, 1, "L1"))])
        .unwrap()
        .into_patch(&accept_all)
        .unwrap_err();
    assert_eq!(wrong.detail.as_deref(), Some("drain_destination has the wrong object family"));
    let big = extract_lid_unit_update(vec![(key("count"), PyValue::Int(1i128 << 40))]).unwrap_err();
    assert_eq!(refusal(&big).1, "count must be an integer");
}

#[test]
fn amm_components_use_the_native_tuple_format() {
    let mut items = vec![PyValue::Str("baseflow".to_string()), PyValue::Str("B1".to_string())];
    for i in 0..6 {
        items.push(PyValue::Int(i));
    }
    match extract_component(&PyValue::Tuple(items)).unwrap() {
        AmmComponentConfiguration::Baseflow { id, fall_cold_capture, .. } => {
            assert_eq!(id, "B1");
            assert_eq!(fall_cold_capture, Number::Int(5));
        },
        other => panic!("unexpected {other:?}"),
    }
    let short = extract_component(&PyValue::Tuple(vec![
        PyValue::Str("standard".to_string()),
        PyValue::Str("S".to_string()),
    ]))
    .unwrap_err();
    assert_eq!(refusal(&short), ("update_amm_model".to_string(), "component tuple has the wrong length".to_string()));
    let kind = extract_component(&PyValue::Tuple(vec![PyValue::Str("x".to_string()), PyValue::Str("S".to_string())])).unwrap_err();
    assert_eq!(refusal(&kind).1, "component kind must be 'standard' or 'baseflow'");
    let update = extract_amm_update(vec![(key("hot_temperature"), PyValue::Int(30))]).unwrap();
    assert_eq!(update.patch.hot_temperature, Some(Number::Int(30)));
}

#[test]
fn amm_assignments_validate_node_then_model() {
    let assignments = extract_assignments(PyValue::List(vec![PyValue::Tuple(vec![
        related(ObjectType::Node, 1, "J1"),
        related(ObjectType::AmmModel, 2, "M2"),
        PyValue::Int(10),
    ])]))
    .unwrap();
    let resolved = resolve_assignments(&assignments, &accept_all).unwrap();
    assert_eq!(resolved[0].node_index, 1);
    assert_eq!(resolved[0].model_index, 2);
    assert_eq!(resolved[0].area, Number::Int(10));
    let refused = extract_assignments(PyValue::List(vec![PyValue::Tuple(vec![PyValue::Int(1), PyValue::Int(2)])])).unwrap_err();
    assert_eq!(
        refusal(&refused),
        ("replace_amm_assignments".to_string(), "each assignment must contain node, model, and area".to_string())
    );
    let not_iterable = extract_assignments(PyValue::Int(3)).unwrap_err();
    assert_eq!(refusal(&not_iterable).1, "assignments must be iterable");
}
