use ocpp_client::charging::{
    apply_fault, charging_start_connector, charging_stop_connector, clear_fault, evse_layout,
    evse_layout_defined, fault_notification_connectors, status_after_fault_cleared,
};
use ocpp_client::configuration::{configuration_readable, change_configuration, ConfigurationStatus, configured_measurands, get_configuration, measurands_from_setting, meter_energy_default, MeasurandKind};
use ocpp_client::cp_data::{Attributes, Characteristics, Components, GetVariableData, ValueType, Variable};
use ocpp_client::device_model::{
    assign_ocpp16_keys, filter_components_with_ocpp16_key, get_heartbeat_interval, get_variable_value,
    heartbeat_interval_readable, meter_value_sample_interval, set_variable_value,
};
use ocpp_client::numeric::{i32_to_decimal, parse_u64, u64_to_decimal};
use ocpp_client::text::split_text;

fn var(name: &str, key: Option<&str>, default: Option<ValueType>, mutability: &str) -> Variable {
    Variable {
        instance: None,
        name: name.to_string(),
        ocpp16_key: key.map(|k| k.to_string()),
        value: None,
        required: false,
        attributes: Attributes { mutability: mutability.to_string(), type_string: None },
        characteristics: Characteristics {
            data_type: "string".to_string(),
            unit: None,
            values_list: None,
            max_limit: None,
            min_limit: None,
        },
        used: None,
        default_value: default,
    }
}

fn component(name: &str, evse: Option<u32>, connector: Option<u32>, variables: Vec<Variable>) -> Components {
    Components { instance: None, name: name.to_string(), evse, connector, variables }
}

fn sample_model() -> GetVariableData {
    GetVariableData {
        components: vec![
            component(
                "OCPPCommCtrlr",
                None,
                None,
                vec![
                    var("HeartbeatInterval", Some("HeartbeatInterval"), Some(ValueType::Integer(0)), "ReadWrite"),
                    var("MeterValueSampleInterval", Some("MeterValueSampleInterval"), Some(ValueType::String("abc".to_string())), "ReadWrite"),
                ],
            ),
            component(
                "AlignedDataCtrlr",
                None,
                None,
                vec![
                    var("Measurands", Some("Measurands"), Some(ValueType::String("Energy.Active.Import.Register, Foo ,Current.Import".to_string())), "ReadOnly"),
                    var("MeterEnergy", None, Some(ValueType::Integer(1500)), "ReadOnly"),
                ],
            ),
            component("EVSE", Some(1), None, vec![]),
            component("Connector", Some(1), Some(1), vec![]),
            component("Connector", Some(1), Some(2), vec![]),
        ],
    }
}

#[test]
fn value_text_as_display_writes_it() {
    assert_eq!(ValueType::Integer(-42).to_string(), "-42");
    assert_eq!(ValueType::Boolean(true).to_string(), "true");
    assert_eq!(ValueType::String("x y".to_string()).to_string(), "x y");
    assert_eq!(i32_to_decimal(i32::MIN), "-2147483648");
    assert_eq!(u64_to_decimal(u64::MAX), "18446744073709551615");
}

#[test]
fn numbers_read_as_the_standard_library_does() {
    assert_eq!(parse_u64("42"), Some(42));
    assert_eq!(parse_u64("+7"), Some(7));
    assert_eq!(parse_u64("18446744073709551616"), None);
    assert_eq!(parse_u64(""), None);
    assert_eq!(parse_u64("-1"), None);
    assert_eq!(parse_u64(" 1"), None);
    for n in [0u64, 9, 10, 12345, u64::MAX] {
        assert_eq!(parse_u64(&u64_to_decimal(n)), Some(n));
    }
}

#[test]
fn split_keeps_empty_pieces() {
    assert_eq!(split_text("a,,b", ','), vec!["a", "", "b"]);
    assert_eq!(split_text("", ','), vec![""]);
}

#[test]
fn set_then_get_reads_what_was_written() {
    let mut data = sample_model();
    assert!(set_variable_value(&mut data, "HeartbeatInterval", "45"));
    assert_eq!(get_variable_value(&data, "HeartbeatInterval").as_deref(), Some("45"));
    assert_eq!(data.components[0].variables[0].default_value, Some(ValueType::String("45".to_string())));
    let before = data.clone();
    assert!(!set_variable_value(&mut data, "NoSuchKey", "1"));
    assert_eq!(data, before);
    assert_eq!(get_variable_value(&data, "NoSuchKey"), None);
}

#[test]
fn heartbeat_interval_is_at_least_one() {
    let data = sample_model();
    assert!(heartbeat_interval_readable(&data));
    assert_eq!(get_heartbeat_interval(&data), 1);
    let mut data = sample_model();
    set_variable_value(&mut data, "HeartbeatInterval", "not a number");
    assert_eq!(get_heartbeat_interval(&data), 30);
    set_variable_value(&mut data, "HeartbeatInterval", "120");
    assert_eq!(get_heartbeat_interval(&data), 120);
}

#[test]
fn sample_interval_defaults() {
    let data = sample_model();
    assert_eq!(meter_value_sample_interval(&data), 30);
    let empty = GetVariableData { components: vec![] };
    assert_eq!(meter_value_sample_interval(&empty), 300);
    let mut data = sample_model();
    set_variable_value(&mut data, "MeterValueSampleInterval", "10");
    assert_eq!(meter_value_sample_interval(&data), 10);
}

#[test]
fn keys_are_assigned_and_unkeyed_variables_filtered() {
    let mut data = sample_model();
    data.components[1].evse = Some(2);
    assign_ocpp16_keys(&mut data);
    assert_eq!(data.components[1].variables[1].ocpp16_key.as_deref(), Some("AlignedDataCtrlr2MeterEnergy"));
    assert_eq!(data.components[1].variables[0].ocpp16_key.as_deref(), Some("Measurands"));
    let filtered = filter_components_with_ocpp16_key(sample_model());
    assert_eq!(filtered.components.len(), 5);
    assert_eq!(filtered.components[1].variables.len(), 1);
}

#[test]
fn get_configuration_answers_each_key() {
    let data = sample_model();
    let none = get_configuration(&data, &None);
    assert_eq!(none.configuration_key, None);
    assert_eq!(none.unknown_key, None);
    let r = get_configuration(&data, &Some(vec!["Measurands".to_string(), "Missing".to_string()]));
    let keys = r.configuration_key.unwrap();
    assert_eq!(keys.len(), 1);
    assert_eq!(keys[0].key, "Measurands");
    assert_eq!(keys[0].value.as_deref(), Some("Energy.Active.Import.Register, Foo ,Current.Import"));
    assert!(keys[0].readonly);
    assert_eq!(r.unknown_key, Some(vec!["Missing".to_string()]));
}

#[test]
fn measurands_come_from_the_aligned_data_controller() {
    let data = sample_model();
    let setting = configured_measurands(&data);
    assert_eq!(setting, "Energy.Active.Import.Register, Foo ,Current.Import");
    assert_eq!(
        measurands_from_setting(&setting),
        vec![MeasurandKind::EnergyActiveImportRegister, MeasurandKind::CurrentImport]
    );
    assert_eq!(meter_energy_default(&data).as_deref(), Some("1500"));
}

#[test]
fn evse_layout_from_components() {
    let data = sample_model();
    assert!(evse_layout_defined(&data));
    let layout = evse_layout(&data);
    assert_eq!(layout.len(), 1);
    assert_eq!(layout[0].evse_index, 1);
    assert_eq!(layout[0].connector_ids, vec![1, 2]);
    let orphan = GetVariableData { components: vec![component("Connector", Some(3), Some(1), vec![])] };
    assert!(!evse_layout_defined(&orphan));
}

#[test]
fn charging_starts_only_when_allowed() {
    assert_eq!(charging_start_connector(true, Some(2), false, &vec![1]), Some(2));
    assert_eq!(charging_start_connector(true, Some(2), false, &vec![2]), None);
    assert_eq!(charging_start_connector(true, Some(2), false, &vec![]), Some(2));
    assert_eq!(charging_start_connector(false, Some(2), false, &vec![1]), None);
    assert_eq!(charging_start_connector(true, None, false, &vec![3]), None);
    assert_eq!(charging_start_connector(true, Some(2), true, &vec![1]), None);
    assert_eq!(charging_stop_connector(true, Some(3)), Some(3));
    assert_eq!(charging_stop_connector(true, None), Some(0));
    assert_eq!(charging_stop_connector(false, Some(3)), None);
}

#[test]
fn faults_mark_and_clear_connectors() {
    let mut faulted = vec![1];
    apply_fault(&mut faulted, &vec![2, 1, 2], &vec![1, 2, 3]);
    assert_eq!(faulted, vec![1, 2]);
    apply_fault(&mut faulted, &vec![], &vec![1, 2, 3]);
    assert_eq!(faulted, vec![1, 2, 3]);
    clear_fault(&mut faulted, &vec![2]);
    assert_eq!(faulted, vec![1, 3]);
    clear_fault(&mut faulted, &vec![]);
    assert!(faulted.is_empty());
    let mut faulted = vec![4];
    apply_fault(&mut faulted, &vec![5, 6], &vec![]);
    clear_fault(&mut faulted, &vec![5, 6]);
    assert_eq!(faulted, vec![4]);
    assert_eq!(fault_notification_connectors(&vec![]), vec![1, 2, 3, 4]);
    assert_eq!(fault_notification_connectors(&vec![7]), vec![7]);
    assert_eq!(status_after_fault_cleared(true, None), "Charging");
    assert_eq!(status_after_fault_cleared(false, Some(1)), "Preparing");
    assert_eq!(status_after_fault_cleared(false, None), "Available");
}

#[test]
fn components_without_keys_are_dropped() {
    let data = GetVariableData {
        components: vec![
            component("Unkeyed", None, None, vec![var("A", None, None, "ReadOnly")]),
            component("EVSE", Some(1), None, vec![var("B", None, None, "ReadOnly")]),
        ],
    };
    let filtered = filter_components_with_ocpp16_key(data);
    assert_eq!(filtered.components.len(), 1);
    assert_eq!(filtered.components[0].name, "EVSE");
    assert!(filtered.components[0].variables.is_empty());
}

#[test]
fn change_configuration_answers() {
    let mut data = sample_model();
    assert_eq!(change_configuration(&mut data, "Measurands", "Power.Active.Import"), ConfigurationStatus::Accepted);
    assert_eq!(configured_measurands(&data), "Power.Active.Import");
    let before = data.clone();
    assert_eq!(change_configuration(&mut data, "Nope", "1"), ConfigurationStatus::NotSupported);
    assert_eq!(data, before);
}

#[test]
fn assigning_keys_twice_changes_nothing() {
    let mut once = sample_model();
    assign_ocpp16_keys(&mut once);
    assert!(once.components.iter().all(|c| c.variables.iter().all(|v| v.ocpp16_key.is_some())));
    let mut twice = once.clone();
    assign_ocpp16_keys(&mut twice);
    assert_eq!(twice, once);
}

#[test]
fn configuration_readability() {
    let data = sample_model();
    assert!(configuration_readable(&data, &None));
    assert!(configuration_readable(&data, &Some(vec!["Measurands".to_string(), "Nope".to_string()])));
    let mut data = sample_model();
    data.components[0].variables[0].default_value = None;
    assert!(!configuration_readable(&data, &Some(vec!["HeartbeatInterval".to_string()])));
    assert!(configuration_readable(&data, &Some(vec!["Measurands".to_string()])));
}
