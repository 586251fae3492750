use swmmrs_native::error::{ErrorCode, NativeError};
use swmmrs_native::pollutants::{pollutant_id, pollutant_update, pollutant_values};
use swmmrs_native::value::{Number, PyValue};

fn text(s: &str) -> PyValue {
    PyValue::Str(s.to_string())
}

fn float(x: f64) -> PyValue {
    PyValue::Float(x.to_bits())
}

fn pair(id: &str, value: PyValue) -> PyValue {
    PyValue::Tuple(vec![text(id), value])
}

#[test]
fn pollutant_values_read_a_mapping_in_order() {
    let value = PyValue::Dict(vec![(text("TSS"), float(12.5)), (text("Lead"), PyValue::Int(3))]);
    let items = pollutant_values(&value, "pollutant concentrations", "override_node_pollutant_concentrations").unwrap();
    assert_eq!(
        items,
        vec![
            ("TSS".to_string(), Number::Float(12.5f64.to_bits())),
            ("Lead".to_string(), Number::Int(3)),
        ]
    );
}

#[test]
fn pollutant_values_read_an_iterable_of_pairs() {
    let value = PyValue::List(vec![pair("TSS", float(1.0)), PyValue::List(vec![text("Lead"), float(2.0)])]);
    let items = pollutant_values(&value, "pollutant concentrations", "override_link_pollutant_concentrations").unwrap();
    assert_eq!(items.len(), 2);
    assert_eq!(items[0].0, "TSS");
    assert_eq!(items[1], ("Lead".to_string(), Number::Float(2.0f64.to_bits())));
}

#[test]
fn pollutant_values_refuse_a_malformed_entry() {
    let value = PyValue::Tuple(vec![pair("TSS", float(1.0)), PyValue::Tuple(vec![text("Lead")])]);
    let error = pollutant_values(&value, "pollutant concentrations", "override_node_pollutant_concentrations").unwrap_err();
    match error {
        NativeError::Type { message } => {
            assert_eq!(message, "pollutant concentrations entries must be (pollutant, value) pairs")
        }
        other => panic!("unexpected {other:?}"),
    }
}

#[test]
fn pollutant_values_refuse_a_non_text_pollutant_and_a_boolean_value() {
    let value = PyValue::Dict(vec![(PyValue::Int(1), float(1.0))]);
    let error = pollutant_values(&value, "pollutant concentrations", "op").unwrap_err();
    assert!(matches!(error, NativeError::Type { ref message } if message == "pollutant ids must be str"));

    let value = PyValue::Dict(vec![(text("TSS"), PyValue::Bool(true))]);
    let error = pollutant_values(&value, "pollutant concentrations", "override_node_pollutant_concentrations").unwrap_err();
    match error {
        NativeError::Native { operation, error } => {
            assert_eq!(operation, "override_node_pollutant_concentrations");
            assert_eq!(error.code, ErrorCode::ApiPropertyValue);
            assert_eq!(error.detail.as_deref(), Some("pollutant concentrations must be int or float, not bool"));
        }
        other => panic!("unexpected {other:?}"),
    }
}

#[test]
fn pollutant_values_refuse_a_scalar() {
    let error = pollutant_values(&float(1.0), "pollutant concentrations", "op").unwrap_err();
    assert!(matches!(
        error,
        NativeError::Type { ref message }
            if message == "pollutant concentrations must be a mapping or an iterable of (pollutant, value) pairs"
    ));
}

#[test]
fn pollutant_update_puts_positional_items_before_keywords() {
    let args = vec![PyValue::Dict(vec![(text("TSS"), float(0.5))])];
    let kwargs = vec![("Lead".to_string(), PyValue::Int(2))];
    let items = pollutant_update(&args, &kwargs, "external_pollutant_mass_flux", "op").unwrap();
    assert_eq!(
        items,
        vec![("TSS".to_string(), Number::Float(0.5f64.to_bits())), ("Lead".to_string(), Number::Int(2))]
    );
    let none = pollutant_update(&Vec::new(), &Vec::new(), "external_pollutant_mass_flux", "op").unwrap();
    assert!(none.is_empty());
}

#[test]
fn pollutant_update_refuses_two_positional_arguments() {
    let args = vec![PyValue::Dict(Vec::new()), PyValue::Dict(Vec::new())];
    let error = pollutant_update(&args, &Vec::new(), "external_pollutant_mass_flux", "op").unwrap_err();
    assert!(matches!(
        error,
        NativeError::Type { ref message } if message == "update expected at most 1 positional argument"
    ));
}

#[test]
fn pollutant_id_takes_text_only() {
    assert_eq!(pollutant_id(&text("TSS"), "op").unwrap(), "TSS");
    assert!(matches!(
        pollutant_id(&PyValue::Int(3), "op").unwrap_err(),
        NativeError::Type { ref message } if message == "pollutant id must be str"
    ));
}
