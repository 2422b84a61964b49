use ocpp_client::cli::{build_event_from_command, cli_help, parse_command, CliCommand};
use ocpp_client::cp_data::{AuthorizationType, ChargeSessionReference};
use ocpp_client::events::EventKind;

#[test]
fn test_parse_create_charger() {
    let json = r#"{"command": "CREATE_CHARGER", "evse_id": 1, "connector_id": 1, "is_ac": true}"#;
    let cmd = parse_command(json).unwrap();
    match cmd {
        CliCommand::CreateCharger { evse_id, connector_id, is_ac } => {
            assert_eq!(evse_id, 1);
            assert_eq!(connector_id, 1);
            assert_eq!(is_ac, true);
        }
        _ => panic!("Wrong command type"),
    }
}

#[test]
fn test_parse_create_event() {
    let json = r#"{"command": "CREATE_EVENT", "event_type": "authorize", "duration": 2, "id_tag": "TAG123"}"#;
    let cmd = parse_command(json).unwrap();
    match cmd {
        CliCommand::CreateEvent { event_type, duration, .. } => {
            assert_eq!(event_type, "authorize");
            assert_eq!(duration, 2);
        }
        _ => panic!("Wrong command type"),
    }
}

#[test]
fn test_cli_help() {
    let help = cli_help();
    assert!(help.contains("CREATE_CHARGER"));
    assert!(help.contains("CREATE_EVENT"));
    assert!(help.contains("OCPP"));
}

#[test]
fn cli_help_lists_every_command() {
    let help = cli_help();
    for name in ["LIST_CHARGERS", "LIST_EVENTS", "GET_STATUS", "DEFAULT_TAG"] {
        assert!(help.contains(name));
    }
    assert!(help.starts_with("\nOCPP Charger Simulator - CLI Interface"));
}

#[test]
fn invalid_json_is_reported() {
    let err = parse_command("{not json").unwrap_err();
    assert!(err.starts_with("Invalid JSON: "));
    assert!(err.len() > "Invalid JSON: ".len());
}

#[test]
fn missing_command_field() {
    assert_eq!(parse_command(r#"{"evse_id": 1}"#).unwrap_err(), "Missing 'command' field");
    assert_eq!(parse_command("[1, 2]").unwrap_err(), "Missing 'command' field");
    assert_eq!(parse_command(r#"{"command": 5}"#).unwrap_err(), "Missing 'command' field");
}

#[test]
fn unknown_command_is_named() {
    assert_eq!(parse_command(r#"{"command": "REBOOT"}"#).unwrap_err(), "Unknown command: REBOOT");
}

#[test]
fn simple_commands() {
    assert!(matches!(parse_command(r#"{"command": "LIST_CHARGERS"}"#), Ok(CliCommand::ListChargers)));
    assert!(matches!(parse_command(r#"{"command": "LIST_EVENTS"}"#), Ok(CliCommand::ListEvents)));
    assert!(matches!(parse_command(r#"{"command": "GET_STATUS"}"#), Ok(CliCommand::GetStatus)));
    assert!(matches!(parse_command(r#"{"command": "HELP"}"#), Ok(CliCommand::Help)));
}

#[test]
fn create_charger_field_errors() {
    assert_eq!(
        parse_command(r#"{"command": "CREATE_CHARGER", "connector_id": 1, "is_ac": true}"#).unwrap_err(),
        "Missing or invalid evse_id"
    );
    assert_eq!(
        parse_command(r#"{"command": "CREATE_CHARGER", "evse_id": 1.5, "connector_id": 1, "is_ac": true}"#)
            .unwrap_err(),
        "Missing or invalid evse_id"
    );
    assert_eq!(
        parse_command(r#"{"command": "CREATE_CHARGER", "evse_id": 1, "connector_id": -1, "is_ac": true}"#)
            .unwrap_err(),
        "Missing or invalid connector_id"
    );
    assert_eq!(
        parse_command(r#"{"command": "CREATE_CHARGER", "evse_id": 1, "connector_id": 1, "is_ac": "yes"}"#)
            .unwrap_err(),
        "Missing or invalid is_ac"
    );
}

#[test]
fn numbers_beyond_u32_are_refused() {
    assert_eq!(
        parse_command(r#"{"command": "CREATE_CHARGER", "evse_id": 4294967297, "connector_id": 2, "is_ac": false}"#)
            .unwrap_err(),
        "Missing or invalid evse_id"
    );
    assert_eq!(
        parse_command(r#"{"command": "CREATE_CHARGER", "evse_id": 1, "connector_id": 4294967296, "is_ac": false}"#)
            .unwrap_err(),
        "Missing or invalid connector_id"
    );
    assert_eq!(
        parse_command(r#"{"command": "CREATE_EVENT", "event_type": "plug", "duration": 4294967296}"#).unwrap_err(),
        "Missing or invalid duration"
    );
    match parse_command(r#"{"command": "CREATE_CHARGER", "evse_id": 4294967295, "connector_id": 2, "is_ac": false}"#)
        .unwrap()
    {
        CliCommand::CreateCharger { evse_id, connector_id, is_ac } => {
            assert_eq!(evse_id, 4294967295);
            assert_eq!(connector_id, 2);
            assert!(!is_ac);
        }
        _ => panic!("Wrong command type"),
    }
    match parse_command(
        r#"{"command": "CREATE_EVENT", "event_type": "plug", "duration": 1, "evse_index": 4294967296, "connector_id": 3}"#,
    )
    .unwrap()
    {
        CliCommand::CreateEvent { evse_index, connector_id, .. } => {
            assert_eq!(evse_index, None);
            assert_eq!(connector_id, Some(3));
        }
        _ => panic!("Wrong command type"),
    }
}

#[test]
fn create_event_field_errors() {
    assert_eq!(
        parse_command(r#"{"command": "CREATE_EVENT", "duration": 2}"#).unwrap_err(),
        "Missing or invalid event_type"
    );
    assert_eq!(
        parse_command(r#"{"command": "CREATE_EVENT", "event_type": "plug"}"#).unwrap_err(),
        "Missing or invalid duration"
    );
}

#[test]
fn create_event_keeps_optional_fields() {
    let cmd = parse_command(
        r#"{"command": "CREATE_EVENT", "event_type": "plug", "duration": 5, "evse_index": 1,
            "connector_id": 2, "ev_power": 7.4, "ev_capacity": 60, "ev_soc": "15"}"#,
    )
    .unwrap();
    match cmd {
        CliCommand::CreateEvent {
            event_type,
            duration,
            evse_index,
            connector_id,
            id_tag,
            ev_power,
            ev_capacity,
            ev_soc,
            ev_final_soc,
        } => {
            assert_eq!(event_type, "plug");
            assert_eq!(duration, 5);
            assert_eq!(evse_index, Some(1));
            assert_eq!(connector_id, Some(2));
            assert_eq!(id_tag, None);
            assert_eq!(ev_power.as_deref(), Some("7.4"));
            assert_eq!(ev_capacity.as_deref(), Some("60"));
            assert_eq!(ev_soc, None);
            assert_eq!(ev_final_soc, None);
        }
        _ => panic!("Wrong command type"),
    }
}

fn event_command(event_type: &str, evse_index: Option<u32>, connector_id: Option<u32>, id_tag: Option<&str>) -> CliCommand {
    CliCommand::CreateEvent {
        event_type: event_type.to_string(),
        duration: 3,
        evse_index,
        connector_id,
        id_tag: id_tag.map(|s| s.to_string()),
        ev_power: None,
        ev_capacity: None,
        ev_soc: None,
        ev_final_soc: None,
    }
}

#[test]
fn authorize_event_uses_default_tag() {
    let ev = build_event_from_command(&event_command("authorize", None, None, None)).unwrap();
    assert_eq!(ev.duration, 3);
    match ev.event {
        EventKind::Authorize(AuthorizationType::RFID(rfid)) => assert_eq!(rfid.id_tag, "DEFAULT_TAG"),
        _ => panic!("Wrong event"),
    }
    let ev = build_event_from_command(&event_command("authorize", None, None, Some("MYTAG123"))).unwrap();
    match ev.event {
        EventKind::Authorize(AuthorizationType::RFID(rfid)) => assert_eq!(rfid.id_tag, "MYTAG123"),
        _ => panic!("Wrong event"),
    }
}

#[test]
fn session_events_need_both_numbers() {
    assert_eq!(
        build_event_from_command(&event_command("plug", None, Some(1), None)).unwrap_err(),
        "evse_index required for plug event"
    );
    assert_eq!(
        build_event_from_command(&event_command("plug", Some(1), None, None)).unwrap_err(),
        "connector_id required for plug event"
    );
    assert_eq!(
        build_event_from_command(&event_command("unplug", None, None, None)).unwrap_err(),
        "evse_index required for unplug event"
    );
    assert_eq!(
        build_event_from_command(&event_command("remote_start", Some(2), None, None)).unwrap_err(),
        "connector_id required for remote_start event"
    );
    assert_eq!(
        build_event_from_command(&event_command("remote_stop", None, Some(2), None)).unwrap_err(),
        "evse_index required for remote_stop event"
    );
}

#[test]
fn session_events_name_the_connector() {
    let r = ChargeSessionReference { evse_index: 2, connector_id: 1 };
    let ev = build_event_from_command(&event_command("plug", Some(2), Some(1), None)).unwrap();
    assert_eq!(ev.event, EventKind::Plug(r));
    let ev = build_event_from_command(&event_command("unplug", Some(2), Some(1), None)).unwrap();
    assert_eq!(ev.event, EventKind::Unplug(r));
    let ev = build_event_from_command(&event_command("remote_start", Some(2), Some(1), None)).unwrap();
    assert_eq!(ev.event, EventKind::RemoteStart(r));
    let ev = build_event_from_command(&event_command("remote_stop", Some(2), Some(1), None)).unwrap();
    assert_eq!(ev.event, EventKind::RemoteStop(r));
    let ev = build_event_from_command(&event_command("local_stop", None, None, None)).unwrap();
    assert_eq!(ev.event, EventKind::LocalStop);
}

#[test]
fn unknown_event_type_lists_valid_ones() {
    assert_eq!(
        build_event_from_command(&event_command("explode", None, None, None)).unwrap_err(),
        "Unknown event type: explode. Valid types: authorize, plug, unplug, remote_start, remote_stop, local_stop"
    );
}

#[test]
fn only_create_event_builds_an_event() {
    assert_eq!(build_event_from_command(&CliCommand::Help).unwrap_err(), "Command is not a CREATE_EVENT");
    let charger = CliCommand::CreateCharger { evse_id: 1, connector_id: 1, is_ac: true };
    assert_eq!(build_event_from_command(&charger).unwrap_err(), "Command is not a CREATE_EVENT");
}

#[test]
fn parsed_event_command_builds_its_event() {
    let cmd = parse_command(r#"{"command": "CREATE_EVENT", "event_type": "remote_start", "duration": 10, "evse_index": 1, "connector_id": 1}"#)
        .unwrap();
    let ev = build_event_from_command(&cmd).unwrap();
    assert_eq!(ev.duration, 10);
    assert_eq!(ev.event, EventKind::RemoteStart(ChargeSessionReference { evse_index: 1, connector_id: 1 }));
}
