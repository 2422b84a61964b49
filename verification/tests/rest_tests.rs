use ocpp_client::cp_data::{AuthorizationType, CPFileInfo, ChargeSessionReference, ValueType};
use ocpp_client::events::EventKind;
use ocpp_client::rest::{
    event_from_request, evse_connector_ids, rest_evse_layout, settings_from_file, settings_from_rest,
    variables_from_rest, CreateCPFromRESTRequest, CreateCPRESTConfigurationComponent,
    CreateCPRESTConfigurationVariable, CreateCPRESTEVSERequest, EventType,
};

const ALL_TYPES: [EventType; 10] = [
    EventType::Authorize,
    EventType::LocalStop,
    EventType::Plug,
    EventType::Unplug,
    EventType::RemoteStart,
    EventType::RemoteStop,
    EventType::CommunicationStop,
    EventType::CommunicationStart,
    EventType::Faulted,
    EventType::FaultCleared,
];

#[test]
fn event_type_names_round_trip() {
    for t in ALL_TYPES {
        assert_eq!(EventType::from_name(&t.name()), Some(t));
    }
    assert_eq!(EventType::FaultCleared.name(), "fault_cleared");
    assert_eq!(EventType::CommunicationStart.name(), "communication_start");
    assert_eq!(EventType::from_name("Authorize"), None);
}

#[test]
fn authorize_request_needs_a_tag() {
    assert_eq!(
        event_from_request("authorize", None, None, None, None).unwrap_err(),
        "authorize event requires id_tag"
    );
    match event_from_request("authorize", Some("TAG12345".to_string()), None, None, None).unwrap() {
        EventKind::Authorize(AuthorizationType::RFID(rfid)) => assert_eq!(rfid.id_tag, "TAG12345"),
        other => panic!("unexpected {:?}", other),
    }
}

#[test]
fn plug_and_unplug_need_both_numbers() {
    assert_eq!(
        event_from_request("plug", None, Some(1), None, None).unwrap_err(),
        "plug event requires evse_index and connector_id"
    );
    assert_eq!(
        event_from_request("unplug", None, None, Some(1), None).unwrap_err().as_str(),
        "unplug event requires evse_index and connector_id"
    );
    let r = ChargeSessionReference { evse_index: 1, connector_id: 2 };
    assert_eq!(event_from_request("plug", None, Some(1), Some(2), None).unwrap(), EventKind::Plug(r));
    assert_eq!(event_from_request("unplug", None, Some(1), Some(2), None).unwrap(), EventKind::Unplug(r));
}

#[test]
fn remote_requests_default_to_the_first_connector() {
    let first = ChargeSessionReference { evse_index: 1, connector_id: 1 };
    assert_eq!(event_from_request("remote_start", None, None, None, None).unwrap(), EventKind::RemoteStart(first));
    assert_eq!(
        event_from_request("remote_stop", None, Some(3), None, None).unwrap(),
        EventKind::RemoteStop(ChargeSessionReference { evse_index: 3, connector_id: 1 })
    );
}

#[test]
fn faults_name_connectors_or_all() {
    assert_eq!(event_from_request("faulted", None, None, None, None).unwrap(), EventKind::Faulted(vec![]));
    assert_eq!(
        event_from_request("fault_cleared", None, None, None, Some(vec![1, 2])).unwrap(),
        EventKind::FaultCleared(vec![1, 2])
    );
    assert_eq!(event_from_request("communication_stop", None, None, None, None).unwrap(), EventKind::CommunicationStop);
    assert_eq!(event_from_request("communication_start", None, None, None, None).unwrap(), EventKind::CommunicationStart);
    assert_eq!(event_from_request("local_stop", None, None, None, None).unwrap(), EventKind::LocalStop);
}

#[test]
fn unknown_request_type_is_named() {
    assert_eq!(
        event_from_request("begin_transaction", None, None, None, None).unwrap_err(),
        "unknown event type: begin_transaction"
    );
}

#[test]
fn transaction_requests_need_no_fields() {
    let first = ChargeSessionReference { evse_index: 1, connector_id: 1 };
    assert_eq!(
        event_from_request("start_transaction", None, None, None, None).unwrap(),
        EventKind::RemoteStart(first.clone())
    );
    assert_eq!(
        event_from_request("stop_transaction", None, None, None, None).unwrap(),
        EventKind::RemoteStop(first)
    );
    let named = ChargeSessionReference { evse_index: 2, connector_id: 3 };
    assert_eq!(
        event_from_request("start_transaction", Some("TAG".to_string()), Some(2), Some(3), None).unwrap(),
        EventKind::RemoteStart(named)
    );
}

#[test]
fn connectors_are_numbered_from_one() {
    assert_eq!(evse_connector_ids(3), vec![1, 2, 3]);
    assert_eq!(evse_connector_ids(0), Vec::<u32>::new());
}

#[test]
fn later_evse_requests_replace_earlier_ones() {
    let evses = vec![
        CreateCPRESTEVSERequest { evse_index: 1, connector_count: 2 },
        CreateCPRESTEVSERequest { evse_index: 2, connector_count: 1 },
        CreateCPRESTEVSERequest { evse_index: 1, connector_count: 3 },
    ];
    let layout = rest_evse_layout(&evses);
    assert_eq!(layout.len(), 2);
    let one = layout.iter().find(|l| l.evse_index == 1).unwrap();
    assert_eq!(one.connector_ids, vec![1, 2, 3]);
    let two = layout.iter().find(|l| l.evse_index == 2).unwrap();
    assert_eq!(two.connector_ids, vec![1]);
}

#[test]
fn default_device_model_without_configuration() {
    let data = variables_from_rest(&None);
    assert_eq!(data.components.len(), 2);
    assert_eq!(data.components[0].name, "AlignedDataCtrlr");
    assert_eq!(data.components[1].name, "OCPPCommCtrlr");
    assert!(data.components.iter().all(|c| c.variables.is_empty() && c.evse.is_none()));
}

#[test]
fn rest_configuration_becomes_writable_strings() {
    let config = vec![CreateCPRESTConfigurationComponent {
        instance: None,
        name: "OCPPCommCtrlr".to_string(),
        evse: None,
        connector: None,
        variables: vec![
            CreateCPRESTConfigurationVariable {
                name: "MeterValueSampleInterval".to_string(),
                value: "10".to_string(),
                required: Some(true),
                ocpp16_key: None,
            },
            CreateCPRESTConfigurationVariable {
                name: "HeartbeatInterval".to_string(),
                value: "60".to_string(),
                required: None,
                ocpp16_key: Some("HeartbeatInterval".to_string()),
            },
        ],
    }];
    let data = variables_from_rest(&Some(config));
    assert_eq!(data.components.len(), 1);
    let vars = &data.components[0].variables;
    assert_eq!(vars[0].ocpp16_key.as_deref(), Some("OCPPCommCtrlrMeterValueSampleInterval"));
    assert_eq!(vars[0].value.as_deref(), Some("10"));
    assert!(vars[0].required);
    assert_eq!(vars[0].attributes.mutability, "Writable");
    assert_eq!(vars[0].attributes.type_string.as_deref(), Some("String"));
    assert_eq!(vars[0].characteristics.data_type, "String");
    assert_eq!(vars[0].default_value, Some(ValueType::String("10".to_string())));
    assert_eq!(vars[1].ocpp16_key.as_deref(), Some("HeartbeatInterval"));
    assert!(!vars[1].required);
}

#[test]
fn settings_of_a_rest_charge_point() {
    let request = CreateCPFromRESTRequest {
        username: Some("CP_4_User".to_string()),
        password: None,
        vendor: "TestVendor".to_string(),
        model: "TestModel_4".to_string(),
        serial: "CP_4_RESTOnly".to_string(),
        protocol: "ocpp2.0.1".to_string(),
        evses: vec![],
        configuration: None,
    };
    let s = settings_from_rest(&request);
    assert_eq!(s.username.as_deref(), Some("CP_4_User"));
    assert_eq!(s.selected_protocol.as_deref(), Some("ocpp2.0.1"));
    assert_eq!(s.supported_protocol_versions.as_deref(), Some("ocpp1.6, ocpp2.0.1"));
    assert_eq!(s.base_url, "ws://127.0.0.1:8180/steve/websocket/CentralSystemService/");
    assert_eq!(s.serial, "CP_4_RESTOnly");
}

#[test]
fn settings_of_a_file_charge_point_fill_in_defaults() {
    let s = settings_from_file(&None, 7);
    assert_eq!(s.serial, "cp_7");
    assert_eq!(s.model, "unknown");
    assert_eq!(s.vendor, "unknown");
    assert_eq!(s.selected_protocol.as_deref(), Some("ocpp1.6"));
    assert_eq!(s.base_url, "");
    let info = CPFileInfo {
        username: None,
        password: Some("pw".to_string()),
        vendor: Some("V".to_string()),
        model: None,
        serial: Some("SER".to_string()),
        protocol: Some("ocpp2.0.1".to_string()),
        base_url: Some("ws://host/".to_string()),
    };
    let s = settings_from_file(&Some(info), 12);
    assert_eq!(s.serial, "SER");
    assert_eq!(s.vendor, "V");
    assert_eq!(s.model, "unknown");
    assert_eq!(s.password.as_deref(), Some("pw"));
    assert_eq!(s.selected_protocol.as_deref(), Some("ocpp2.0.1"));
    assert_eq!(s.base_url, "ws://host/");
}

#[test]
fn answers_name_the_charge_point() {
    let r = ocpp_client::rest::CreateCPResponse::from_file(3);
    assert_eq!(r.cp_id, 3);
    assert_eq!(r.message, "CP 3 created successfully from file");
    let r = ocpp_client::rest::CreateCPResponse::from_rest(0);
    assert_eq!(r.message, "CP 0 created successfully from REST parameters");
    let r = ocpp_client::rest::CreateMultipleCPsResponse::created(vec![4, 5]);
    assert_eq!(r.cp_ids, vec![4, 5]);
    assert_eq!(r.message, "Created 2 charge points successfully");
    let e = ocpp_client::rest::ErrorResponse::not_found(999);
    assert_eq!(e.error, "Charge point not found");
    assert_eq!(e.details.as_deref(), Some("No charge point with ID 999"));
    let e = ocpp_client::rest::ErrorResponse::event_refused("unknown event type: x".to_string());
    assert_eq!(e.error, "Failed to add event");
    assert_eq!(e.details.as_deref(), Some("unknown event type: x"));
}
