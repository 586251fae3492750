use std::cell::Cell;

use swmmrs_native::amm::AmmAssignmentConfiguration;
use swmmrs_native::error::{ErrorCode, NativeError, SwmmError};
use swmmrs_native::owner::{NativeSimulation, OwnerPaths, Reported, SimulationLifecycle};
use swmmrs_native::value::{Number, ObjectType, PyValue, RelatedObject};

fn paths() -> OwnerPaths {
    OwnerPaths {
        input: "/data/model.inp".to_string(),
        report: "/data/model.rpt".to_string(),
        output: None,
        input_key: "/data/model.inp".to_string(),
        report_key: "/data/model.rpt".to_string(),
        output_key: None,
        hotstart: None,
        hotstart_key: None,
    }
}

fn opened() -> NativeSimulation {
    NativeSimulation::new(paths(), |_paths: &OwnerPaths| Reported { result: Ok(()), lifecycle: SimulationLifecycle::Open })
        .unwrap()
}

fn related(object_type: ObjectType, index: usize, id: &str) -> PyValue {
    PyValue::Related(RelatedObject { object_type, index, id: id.to_string(), subtype: "ordinary".to_string() })
}

fn assignments() -> PyValue {
    PyValue::List(vec![PyValue::Tuple(vec![
        related(ObjectType::Node, 3, "J1"),
        related(ObjectType::AmmModel, 1, "M1"),
        PyValue::Int(10),
    ])])
}

#[test]
fn a_refused_assignment_view_replaces_nothing() {
    let mut owner = opened();
    let applied = Cell::new(false);
    let refuse_models = |relation: &RelatedObject, family: ObjectType, name: &'static str| {
        if family == ObjectType::AmmModel {
            Err(SwmmError::with_str(ErrorCode::ApiPropertyValue, name))
        } else {
            Ok(relation.index)
        }
    };
    let result = owner.replace_amm_assignments(1, assignments(), &refuse_models, |_configured: Vec<AmmAssignmentConfiguration>| {
        applied.set(true);
        Reported { result: Ok(()), lifecycle: SimulationLifecycle::Open }
    });
    match result {
        Err(NativeError::Native { operation, error }) => {
            assert_eq!(operation, "replace_amm_assignments");
            assert_eq!(error.detail.as_deref(), Some("model"));
        }
        other => panic!("unexpected {other:?}"),
    }
    assert!(!applied.get());
}

#[test]
fn checked_assignments_reach_the_solver_with_their_indices() {
    let mut owner = opened();
    let accept = |relation: &RelatedObject, _family: ObjectType, _name: &'static str| Ok(relation.index);
    let received = std::cell::RefCell::new(Vec::new());
    owner
        .replace_amm_assignments(1, assignments(), &accept, |configured: Vec<AmmAssignmentConfiguration>| {
            *received.borrow_mut() = configured;
            Reported { result: Ok(()), lifecycle: SimulationLifecycle::Open }
        })
        .unwrap();
    let received = received.into_inner();
    assert_eq!(received.len(), 1);
    assert_eq!(received[0].node_index, 3);
    assert_eq!(received[0].model_index, 1);
    assert_eq!(received[0].area, Number::Int(10));
}

#[test]
fn a_failed_open_of_a_closed_owner_leaves_no_generation_and_keeps_its_paths() {
    let mut owner = opened();
    owner.close(|| Reported { result: Ok(()), lifecycle: SimulationLifecycle::Closed }).unwrap();
    let failed = owner.open(Ok(paths()), |_paths: &OwnerPaths| Reported {
        result: Err(SwmmError::with_str(ErrorCode::ApiPropertyValue, "bad input")),
        lifecycle: SimulationLifecycle::Closed,
    });
    assert!(failed.is_err());
    assert!(owner.handle.active_generation.is_none());
    assert!(owner.generation().is_err());
    assert_eq!(owner.input_path().unwrap(), "/data/model.inp");
}
