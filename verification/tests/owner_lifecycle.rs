use swmmrs_native::error::{DetachedFailure, ErrorCode, NativeError, SwmmError};
use swmmrs_native::inspect::{LifecycleRecord, SimulationOptionField, SimulationTimeField};
use swmmrs_native::owner::{
    IteratorState, NativeSimulation, OwnerPaths, Reported, SimulationLifecycle,
};
use swmmrs_native::value::{DateTimeParts, PyValue};

fn paths() -> OwnerPaths {
    OwnerPaths {
        input: "/data/model.inp".to_string(),
        report: "/data/model.rpt".to_string(),
        output: None,
        input_key: "/data/model.inp".to_string(),
        report_key: "/data/model.rpt".to_string(),
        output_key: None,
        hotstart: None,
        hotstart_key: None,
    }
}

fn opened() -> NativeSimulation {
    match NativeSimulation::new(paths(), |_paths: &OwnerPaths| Reported {
        result: Ok(()),
        lifecycle: SimulationLifecycle::Open,
    }) {
        Ok(owner) => owner,
        Err(error) => panic!("open failed: {error:?}"),
    }
}

fn property_detail(error: &NativeError) -> (String, ErrorCode, String) {
    match error {
        NativeError::Native { operation, error } => (
            operation.to_string(),
            error.code,
            error.detail.clone().unwrap_or_default(),
        ),
        other => panic!("not a solver failure: {other:?}"),
    }
}

#[test]
fn iterator_state_bytes_round_trip() {
    for state in [IteratorState::Idle, IteratorState::Iterating, IteratorState::Requested] {
        assert_eq!(IteratorState::from_byte(state.byte()), Some(state));
    }
    assert_eq!(IteratorState::from_byte(0), Some(IteratorState::Idle));
    assert_eq!(IteratorState::from_byte(2), Some(IteratorState::Requested));
    assert_eq!(IteratorState::from_byte(3), None);
}

#[test]
fn new_owner_opens_first_generation() {
    let owner = opened();
    assert!(owner.is_open());
    assert_eq!(owner.generation().unwrap(), 1);
    assert_eq!(owner.state(), "open");
    assert_eq!(owner.input_path().unwrap(), "/data/model.inp");
    assert_eq!(owner.output_path().unwrap(), None);
}

#[test]
fn failed_open_reports_attempted_paths() {
    let result = NativeSimulation::new(paths(), |_paths: &OwnerPaths| Reported {
        result: Err(SwmmError { code: ErrorCode::Other(200), detail: Some("bad input".to_string()) }),
        lifecycle: SimulationLifecycle::Closed,
    });
    match result {
        Err(error) => {
            let (operation, code, detail) = property_detail(&error);
            assert_eq!(operation, "open");
            assert_eq!(code, ErrorCode::Other(200));
            assert!(detail.starts_with("bad input"));
            assert!(detail.contains("/data/model.inp"));
        },
        Ok(_) => panic!("open should fail"),
    }
}

#[test]
fn reopen_issues_fresh_generation_and_old_one_is_stale() {
    let mut owner = opened();
    owner
        .close(|| Reported { result: Ok(()), lifecycle: SimulationLifecycle::Closed })
        .unwrap();
    assert!(!owner.is_open());
    let stale = owner.checked_generation("collection_count", 1, || Ok::<usize, DetachedFailure>(3));
    assert!(matches!(stale, Err(NativeError::Stale { operation: "collection_count" })));
    owner
        .open(Ok(paths()), |_paths: &OwnerPaths| Reported {
            result: Ok(()),
            lifecycle: SimulationLifecycle::Open,
        })
        .unwrap();
    assert_eq!(owner.generation().unwrap(), 2);
    let old = owner.checked_generation("collection_count", 1, || Ok::<usize, DetachedFailure>(3));
    assert!(matches!(old, Err(NativeError::Stale { .. })));
    let current = owner.checked_generation("collection_count", 2, || Ok::<usize, DetachedFailure>(3));
    assert_eq!(current.unwrap(), 3);
}

#[test]
fn open_requires_closed_simulation() {
    let mut owner = opened();
    let result = owner.open(Ok(paths()), |_paths: &OwnerPaths| Reported {
        result: Ok(()),
        lifecycle: SimulationLifecycle::Open,
    });
    let (operation, code, detail) = property_detail(&result.unwrap_err());
    assert_eq!(operation, "open");
    assert_eq!(code, ErrorCode::ApiNotOpen);
    assert_eq!(detail, "open requires a closed simulation");
}

#[test]
fn terminate_without_iterator_is_refused() {
    let mut owner = opened();
    match owner.terminate() {
        Err(NativeError::Lifecycle { operation, detail }) => {
            assert_eq!(operation, "terminate");
            assert_eq!(detail, "no active iterator owns advancement");
        },
        other => panic!("unexpected {other:?}"),
    }
}

#[test]
fn status_reads_current_time_only_while_running() {
    let owner = opened();
    let record = LifecycleRecord {
        state: SimulationLifecycle::Open,
        is_open: true,
        is_started: false,
        configuration_dirty: false,
        save_results: true,
        total_step_count: 0,
        report_period_count: 0,
        warning_count: 2,
    };
    let status = owner
        .status(record, || -> Result<DateTimeParts, SwmmError> { panic!("no current time while open") })
        .unwrap();
    assert_eq!(status.state, "open");
    assert_eq!(status.current_time, None);
    assert_eq!(status.warning_count, 2);

    let running = LifecycleRecord { state: SimulationLifecycle::Running, is_started: true, ..record };
    let time = DateTimeParts { year: 2024, month: 1, day: 2, hour: 3, minute: 4, second: 5 };
    let status = owner.status(running, || Ok(time)).unwrap();
    assert_eq!(status.state, "running");
    assert_eq!(status.current_time, Some(time));
}

#[test]
fn simulation_time_selects_field_or_refuses_unknown_one() {
    let owner = opened();
    let time = DateTimeParts { year: 2020, month: 6, day: 1, hour: 0, minute: 0, second: 0 };
    let selected = owner.simulation_time("report_start", || Ok(()), |field| {
        assert_eq!(field, SimulationTimeField::ReportStart);
        Ok(time)
    });
    assert_eq!(selected.unwrap(), time);
    let refused = owner.simulation_time("bogus", || Ok(()), |_field| Ok(time));
    let (operation, code, detail) = property_detail(&refused.unwrap_err());
    assert_eq!(operation, "simulation_time");
    assert_eq!(code, ErrorCode::System);
    assert_eq!(detail, "invalid private simulation time field");
}

#[test]
fn option_value_resolves_private_field_names() {
    let owner = opened();
    let value = owner.option_value(1, "courant_factor", || Ok(()), |field| {
        assert_eq!(field, SimulationOptionField::CourantFactor);
        Ok(0.75f64)
    });
    assert_eq!(value.unwrap(), 0.75);
    let stale = owner.option_value(7, "courant_factor", || Ok(()), |_field| Ok(0.75f64));
    assert!(matches!(stale, Err(NativeError::Stale { operation: "option_value" })));
}

#[test]
fn collection_view_at_classifies_positions() {
    let owner = opened();
    let lookup = |_family: u8, position: usize| Ok(if position < 2 { Some(position * 10) } else { None });
    assert_eq!(owner.collection_view_at(1, Ok(0u8), &PyValue::Int(1), lookup).unwrap(), Some(10));
    assert_eq!(owner.collection_view_at(1, Ok(0u8), &PyValue::Int(-1), lookup).unwrap(), None);
    assert_eq!(owner.collection_view_at(1, Ok(0u8), &PyValue::Int(5), lookup).unwrap(), None);
    let refused = owner.collection_view_at(1, Ok(0u8), &PyValue::Bool(true), lookup);
    assert!(matches!(refused, Err(NativeError::Type { message }) if message == "index must be a non-boolean int"));
}

#[test]
fn collection_contains_treats_unusable_keys_as_absent() {
    let owner = opened();
    let absent = owner.collection_contains(1, Ok(None::<String>), Ok(0u8), |_f: u8, _k: String| Ok(Some(1)));
    assert!(!absent.unwrap());
    let present = owner.collection_contains(1, Ok(Some("J1".to_string())), Ok(0u8), |_f: u8, k: String| {
        Ok(if k == "J1" { Some(0usize) } else { None })
    });
    assert!(present.unwrap());
}

#[test]
fn test_hooks_arm_and_release_flags() {
    let mut owner = opened();
    owner._arm_owner_pause_for_test();
    assert!(owner.test_concurrency.pause_armed);
    owner._release_owner_pause_for_test();
    assert!(owner.test_concurrency.release_pause);
    owner._arm_owner_probe_for_test();
    assert!(!owner._owner_probe_acquired_for_test());
    assert!(matches!(owner._panic_for_test(), Err(NativeError::Panicked { operation: "panic_for_test" })));
}
