use swmmrs_native::marshal::{
    custom_ellipse_model_name, inertia_damping_name, link_quality_mapping, normal_flow_limit_name,
    surcharge_method_name, LinkQualityRead,
};
use swmmrs_native::output::{
    compile_selections, flow_units_code, link_result_code, node_schema_payload, output_error_category,
    run_status_code, selection_payload, subcatchment_result_code, FlowUnits, LinkResultAttribute,
    NodeResultAttribute, OutputCatalog, OutputElementType, OutputErrorKind, OutputSeriesSelection,
    RunStatus, SelectionFailure, SubcatchmentResultAttribute, SystemResultAttribute,
};
use swmmrs_native::policy::{
    parse_custom_ellipse_model, parse_inertia_damping, parse_normal_flow_limit, parse_surcharge_method,
    CustomEllipseModel, InertialDampingType, NormalFlowType, SurchargeMethodType,
};
use swmmrs_native::error::NativeError;

fn catalog() -> OutputCatalog {
    OutputCatalog {
        subcatchment_ids: vec![0, 1],
        node_ids: vec![10, 11, 12],
        link_ids: vec![20],
        subcatchment_schema: vec![
            SubcatchmentResultAttribute::Rainfall,
            SubcatchmentResultAttribute::RunoffFlow,
            SubcatchmentResultAttribute::Pollutant(0),
        ],
        node_schema: vec![NodeResultAttribute::Depth, NodeResultAttribute::Pollutant(1)],
        link_schema: vec![LinkResultAttribute::Flow],
        system_schema: vec![SystemResultAttribute::Rainfall],
    }
}

#[test]
fn result_codes_follow_the_stored_layout() {
    assert_eq!(subcatchment_result_code(SubcatchmentResultAttribute::SoilMoisture), 7);
    assert_eq!(subcatchment_result_code(SubcatchmentResultAttribute::Pollutant(2)), 10);
    assert_eq!(link_result_code(LinkResultAttribute::Pollutant(0)), 5);
    assert_eq!(link_result_code(LinkResultAttribute::Unknown(42)), 42);
    assert_eq!(flow_units_code(FlowUnits::Mld), 5);
    assert_eq!(run_status_code(RunStatus::Unfinalized), None);
    assert_eq!(run_status_code(RunStatus::Warning(3)), Some(3));
    assert_eq!(output_error_category(OutputErrorKind::ElementNameNotFound), "element_not_found");
    assert_eq!(output_error_category(OutputErrorKind::Other), "output");
}

#[test]
fn selections_compile_through_stored_schemas() {
    let compiled = compile_selections(
        &catalog(),
        vec![
            ("node".to_string(), 1, 7),
            ("subcatchment".to_string(), 0, 4),
            ("system".to_string(), 0, 99),
        ],
    )
    .unwrap();
    assert_eq!(compiled[0], OutputSeriesSelection::Node { id: 11, attribute: NodeResultAttribute::Pollutant(1) });
    assert_eq!(
        compiled[1],
        OutputSeriesSelection::Subcatchment { id: 0, attribute: SubcatchmentResultAttribute::RunoffFlow }
    );
    assert_eq!(compiled[2], OutputSeriesSelection::System { attribute: SystemResultAttribute::Unknown(99) });
}

#[test]
fn compiled_selection_payload_returns_request() {
    let requests = vec![("node".to_string(), 2usize, 0i32), ("link".to_string(), 0, 4), ("subcatchment".to_string(), 1, 8)];
    let compiled = compile_selections(&catalog(), requests.clone()).unwrap();
    let ids = [12usize, 20, 1];
    for (i, selection) in compiled.into_iter().enumerate() {
        let (family, id, code) = selection_payload(selection);
        assert_eq!(family, requests[i].0);
        assert_eq!(id, ids[i]);
        assert_eq!(code, requests[i].2);
    }
}

#[test]
fn selections_report_the_first_invalid_request() {
    let failure = compile_selections(
        &catalog(),
        vec![("node".to_string(), 0, 0), ("link".to_string(), 3, 0), ("bogus".to_string(), 0, 0)],
    )
    .unwrap_err();
    match failure {
        SelectionFailure::InvalidElement { element_type, index, count } => {
            assert_eq!(element_type, OutputElementType::Link);
            assert_eq!(index, 3);
            assert_eq!(count, 1);
        },
        other => panic!("unexpected {other:?}"),
    }
    match compile_selections(&catalog(), vec![("bogus".to_string(), 0, 0)]).unwrap_err() {
        SelectionFailure::InvalidSelection(message) => {
            assert_eq!(message, "unknown output element type \"bogus\"");
        },
        other => panic!("unexpected {other:?}"),
    }
    match compile_selections(&catalog(), vec![("system".to_string(), 1, 0)]).unwrap_err() {
        SelectionFailure::InvalidSelection(message) => {
            assert_eq!(message, "system selections must use element index 0");
        },
        other => panic!("unexpected {other:?}"),
    }
}

#[test]
fn schema_payload_marks_pollutants() {
    let payload = node_schema_payload(&catalog().node_schema);
    assert_eq!(payload, vec![(0, None), (7, Some(1))]);
}

#[test]
fn option_spellings_parse_back() {
    for model in [CustomEllipseModel::EpaLegacy, CustomEllipseModel::TrueEllipse] {
        assert_eq!(parse_custom_ellipse_model(custom_ellipse_model_name(model)), Some(model));
    }
    for method in [SurchargeMethodType::Extran, SurchargeMethodType::Slot] {
        assert_eq!(parse_surcharge_method(surcharge_method_name(method)), Some(method));
    }
    for damping in [InertialDampingType::NoDamping, InertialDampingType::PartialDamping, InertialDampingType::FullDamping] {
        assert_eq!(parse_inertia_damping(inertia_damping_name(damping)), Some(damping));
    }
    for limit in [NormalFlowType::Slope, NormalFlowType::Froude, NormalFlowType::Both, NormalFlowType::Neither] {
        assert_eq!(parse_normal_flow_limit(normal_flow_limit_name(limit)), Some(limit));
    }
    assert_eq!(inertia_damping_name(InertialDampingType::NoDamping), "none");
}

#[test]
fn quality_mapping_selects_one_series() {
    let values = LinkQualityRead {
        pollutant_ids: vec!["TSS".to_string()],
        concentrations: vec![1.0f64],
        reactor_concentrations: vec![2.0f64],
        total_loads: vec![3.0f64],
    };
    let (ids, series) = link_quality_mapping(values, "total_loads").unwrap();
    assert_eq!(ids, vec!["TSS".to_string()]);
    assert_eq!(series, vec![3.0]);
    let refused = link_quality_mapping(
        LinkQualityRead { pollutant_ids: vec![], concentrations: 0, reactor_concentrations: 0, total_loads: 0 },
        "loads",
    );
    assert!(matches!(refused, Err(NativeError::Internal { operation: "link_quality_mapping", .. })));
}
