use swmmrs_native::amm::{amm_component_parts, extract_component, extract_components, AmmComponentConfiguration};
use swmmrs_native::error::NativeError;
use swmmrs_native::owner::TestConcurrencyState;
use swmmrs_native::rtk::{extract_monthly_responses, extract_response_month};
use swmmrs_native::value::{Number, PublicType, PyValue};

fn detail(error: &NativeError) -> String {
    match error {
        NativeError::Native { error, .. } => error.detail.clone().unwrap_or_default(),
        other => panic!("unexpected {other:?}"),
    }
}

fn baseflow(id: &str) -> PyValue {
    let mut items = vec![PyValue::Str("baseflow".to_string()), PyValue::Str(id.to_string())];
    for i in 0..6 {
        items.push(PyValue::Int(i));
    }
    PyValue::Tuple(items)
}

fn response(base: f64) -> PyValue {
    PyValue::Tuple((0..6).map(|k| PyValue::Float((base + k as f64).to_bits())).collect())
}

#[test]
fn components_are_read_from_the_keys_of_a_dict() {
    let value = PyValue::Dict(vec![(baseflow("B1"), PyValue::NoneValue), (baseflow("B2"), PyValue::Int(7))]);
    let components = extract_components(&value).unwrap();
    assert_eq!(components.len(), 2);
    match &components[1] {
        AmmComponentConfiguration::Baseflow { id, .. } => assert_eq!(id, "B2"),
        other => panic!("unexpected {other:?}"),
    }
}

#[test]
fn components_of_a_string_enum_member_are_its_characters() {
    let empty = PyValue::Enum { class: PublicType::Str, value: String::new() };
    assert!(extract_components(&empty).unwrap().is_empty());
    let member = PyValue::Enum { class: PublicType::Str, value: "ab".to_string() };
    let refused = extract_components(&member).unwrap_err();
    assert_eq!(detail(&refused), "each component must use the native tuple format");
    let refused = extract_components(&PyValue::Int(1)).unwrap_err();
    assert_eq!(detail(&refused), "components must be iterable");
}

#[test]
fn a_month_is_read_from_the_keys_of_a_dict() {
    let month = PyValue::Dict(vec![
        (response(0.0), PyValue::NoneValue),
        (response(10.0), PyValue::NoneValue),
        (response(20.0), PyValue::NoneValue),
    ]);
    let read = extract_response_month(&month).unwrap();
    assert_eq!(read.long_term.rainfall_fraction, Number::Float(20.0f64.to_bits()));
    let year = PyValue::Dict((0..12).map(|k| (PyValue::List(vec![response(k as f64), response(1.0), response(2.0)]), PyValue::Int(k))).collect());
    let months = extract_monthly_responses(&year).unwrap();
    assert_eq!(months[11].short_term.rainfall_fraction, Number::Float(11.0f64.to_bits()));
}

#[test]
fn a_string_enum_member_is_no_month() {
    let member = PyValue::Enum { class: PublicType::Str, value: "x".to_string() };
    let refused = extract_response_month(&member).unwrap_err();
    assert_eq!(detail(&refused), "each response must use the native tuple format");
    let empty = PyValue::Enum { class: PublicType::Str, value: String::new() };
    let refused = extract_monthly_responses(&empty).unwrap_err();
    assert_eq!(detail(&refused), "monthly_responses must contain 12 months");
}

#[test]
fn an_amm_component_round_trips_through_its_parts() {
    let component = match extract_component(&baseflow("B7")).unwrap() {
        c @ AmmComponentConfiguration::Baseflow { .. } => c,
        other => panic!("unexpected {other:?}"),
    };
    let (kind, id, values) = amm_component_parts(component);
    let mut items = vec![PyValue::Str(kind.to_string()), PyValue::Str(id)];
    for value in values {
        items.push(match value {
            Number::Int(i) => PyValue::Int(i),
            Number::Float(bits) => PyValue::Float(bits),
        });
    }
    match extract_component(&PyValue::Tuple(items)).unwrap() {
        AmmComponentConfiguration::Baseflow { id, hot_capture, .. } => {
            assert_eq!(id, "B7");
            assert_eq!(hot_capture, Number::Int(4));
        }
        other => panic!("unexpected {other:?}"),
    }
}

#[test]
fn an_armed_pause_is_taken_once() {
    let mut state = TestConcurrencyState::new();
    assert!(!state.before_unlock());
    state.arm_pause();
    assert!(state.before_unlock());
    assert!(state.wait_paused());
    state.release_pause();
    state.finish_pause();
    assert!(!state.wait_paused());
    assert!(!state.before_unlock());
}
