use ocpp_client::charge_point::{
    authorization_after_event, authorization_after_start, status_notification, apply_event, authorization_after_answer, authorization_after_remote_start, event_evse, meter_values_connector,
    run_evse_layout, schedule_event, ChargePointRecord, EvseState,
};
use ocpp_client::charging::{time_trigger_due, time_trigger_fired, EvseLayout};
use ocpp_client::cp_data::{AuthorizationType, ChargeSessionReference, Components, GetVariableData, MessageReference, RFID};
use ocpp_client::events::EventKind;
use ocpp_client::message_stats::{CPSummary, TestSummary};
use ocpp_client::rest::CPSettings;
use ocpp_client::scheduler::EventQueue;

fn reference(evse_index: u32, connector_id: u32) -> ChargeSessionReference {
    ChargeSessionReference { evse_index, connector_id }
}

fn rfid(tag: &str) -> AuthorizationType {
    AuthorizationType::RFID(RFID { id_tag: tag.to_string() })
}

fn component(name: &str, evse: Option<u32>, connector: Option<u32>) -> Components {
    Components { instance: None, name: name.to_string(), evse, connector, variables: vec![] }
}

#[test]
fn new_evse_is_idle() {
    let evse = EvseState::idle(vec![1, 2]);
    assert_eq!(evse.connector_ids, vec![1, 2]);
    assert_eq!(evse.plugged_in, None);
    assert!(!evse.started);
    assert_eq!(evse.status, "Available");
    assert!(evse.faulted_connectors.is_empty());
}

#[test]
fn plugged_and_authorized_evse_starts_charging() {
    let mut evse = EvseState::idle(vec![1, 2]);
    evse.plug(2);
    assert_eq!(evse.plugged_in, Some(2));
    assert_eq!(evse.start_charging(false, true), None);
    assert!(!evse.started);
    assert_eq!(evse.start_charging(true, false), None);
    assert!(!evse.started);
    assert_eq!(evse.start_charging(true, true), Some(2));
    assert!(evse.started);
    assert_eq!(evse.start_charging(true, true), None);
}

#[test]
fn faulted_connector_blocks_charging_until_cleared() {
    let mut evse = EvseState::idle(vec![1, 2]);
    evse.plug(2);
    evse.fault(&vec![2]);
    assert_eq!(evse.faulted_connectors, vec![2]);
    assert_eq!(evse.status, "Faulted");
    assert_eq!(evse.start_charging(true, true), None);
    evse.clear_fault(&vec![2]);
    assert!(evse.faulted_connectors.is_empty());
    assert_eq!(evse.status, "Preparing");
    assert_eq!(evse.start_charging(true, true), Some(2));
}

#[test]
fn fault_without_connectors_faults_all() {
    let mut evse = EvseState::idle(vec![1, 2, 3]);
    evse.fault(&vec![]);
    assert_eq!(evse.faulted_connectors, vec![1, 2, 3]);
    evse.clear_fault(&vec![]);
    assert!(evse.faulted_connectors.is_empty());
    assert_eq!(evse.status, "Available");
}

#[test]
fn unplug_stops_the_charge() {
    let mut evse = EvseState::idle(vec![1]);
    evse.plug(1);
    evse.start_charging(true, true);
    assert_eq!(evse.stop_charging(), Some(1));
    assert!(!evse.started);
    assert_eq!(evse.stop_charging(), None);
    evse.unplug();
    assert_eq!(evse.plugged_in, None);
    assert_eq!(evse.status, "Available");
}

#[test]
fn events_step_the_evse() {
    let mut evse = EvseState::idle(vec![1, 2]);
    let report = apply_event(&mut evse, &EventKind::Plug(reference(1, 1)), true, true);
    assert_eq!(report.started_on, Some(1));
    assert_eq!(report.stopped_on, None);
    assert!(evse.started);
    let report = apply_event(&mut evse, &EventKind::Faulted(vec![]), true, true);
    assert_eq!(report.started_on, None);
    assert_eq!(evse.status, "Faulted");
    assert_eq!(evse.faulted_connectors, vec![1, 2]);
    apply_event(&mut evse, &EventKind::FaultCleared(vec![1]), true, true);
    assert_eq!(evse.faulted_connectors, vec![2]);
    assert_eq!(evse.status, "Charging");
    let report = apply_event(&mut evse, &EventKind::Unplug(reference(1, 1)), true, true);
    assert_eq!(report.stopped_on, Some(1));
    assert_eq!(evse.plugged_in, None);
    assert!(!evse.started);
    assert_eq!(evse.status, "Available");
    let before = evse.clone();
    apply_event(&mut evse, &EventKind::LocalStop, true, true);
    assert_eq!(evse, before);
}

#[test]
fn events_name_their_evse() {
    assert_eq!(event_evse(&EventKind::Plug(reference(3, 1))), Some(3));
    assert_eq!(event_evse(&EventKind::Unplug(reference(2, 1))), Some(2));
    assert_eq!(event_evse(&EventKind::Faulted(vec![4])), Some(1));
    assert_eq!(event_evse(&EventKind::FaultCleared(vec![])), Some(1));
    assert_eq!(event_evse(&EventKind::LocalStop), None);
    assert_eq!(event_evse(&EventKind::Authorize(rfid("A"))), None);
}

#[test]
fn remote_start_sets_remote_authorization() {
    let held = Some(rfid("OLD"));
    assert_eq!(
        authorization_after_remote_start(held.clone(), Some(1), "TAG".to_string()),
        Some(AuthorizationType::Remote(RFID { id_tag: "TAG".to_string() }))
    );
    assert_eq!(authorization_after_remote_start(held.clone(), None, "TAG".to_string()), held);
}

#[test]
fn accepted_answer_sets_the_event_authorization() {
    let events = vec![EventKind::LocalStop, EventKind::Authorize(rfid("CARD"))];
    let at = |i: usize| Some(MessageReference::EventIndex(i));
    assert_eq!(authorization_after_answer(None, true, &at(1), &events), Some(rfid("CARD")));
    assert_eq!(authorization_after_answer(None, false, &at(1), &events), None);
    assert_eq!(authorization_after_answer(Some(rfid("X")), true, &at(0), &events), Some(rfid("X")));
    assert_eq!(authorization_after_answer(None, true, &at(7), &events), None);
    assert_eq!(authorization_after_answer(None, true, &Some(MessageReference::NoReference), &events), None);
}

#[test]
fn meter_values_report_the_first_connector() {
    assert_eq!(meter_values_connector(&vec![3, 4]), 3);
    assert_eq!(meter_values_connector(&vec![]), 1);
}

#[test]
fn scheduled_event_is_found_at_its_position() {
    let mut events = vec![EventKind::LocalStop];
    let i = schedule_event(&mut events, EventKind::Authorize(rfid("NEW")));
    assert_eq!(i, 1);
    assert_eq!(events.len(), 2);
    assert_eq!(
        authorization_after_answer(None, true, &Some(MessageReference::EventIndex(i)), &events),
        Some(rfid("NEW"))
    );
}

#[test]
fn record_is_set_up_from_settings() {
    let settings = CPSettings {
        username: Some("user".to_string()),
        password: None,
        supported_protocol_versions: Some("ocpp1.6".to_string()),
        selected_protocol: None,
        serial: "SN1".to_string(),
        model: "M".to_string(),
        vendor: "V".to_string(),
        base_url: "ws://host/".to_string(),
    };
    let record = ChargePointRecord::from_settings(
        settings,
        vec![EventKind::LocalStop],
        GetVariableData { components: vec![] },
        "file.json".to_string(),
        true,
    );
    assert_eq!(record.username.as_deref(), Some("user"));
    assert_eq!(record.password, None);
    assert_eq!(record.supported_protocol_versions.as_deref(), Some("ocpp1.6"));
    assert_eq!(record.serial, "SN1");
    assert_eq!(record.model, "M");
    assert_eq!(record.vendor, "V");
    assert_eq!(record.base_url, "ws://host/");
    assert!(!record.booted);
    assert_eq!(record.events, vec![EventKind::LocalStop]);
    assert_eq!(record.authorization, None);
    assert_eq!(record.variables_file_name, "file.json");
    assert!(record.use_original);
}

#[test]
fn evses_defined_over_rest_are_kept() {
    let model = GetVariableData {
        components: vec![component("EVSE", Some(1), None), component("Connector", Some(1), Some(1))],
    };
    let defined = vec![EvseLayout { evse_index: 2, connector_ids: vec![1, 2, 3] }];
    assert_eq!(run_evse_layout(defined.clone(), &model), Some(defined));
    let built = run_evse_layout(vec![], &model).unwrap();
    assert_eq!(built, vec![EvseLayout { evse_index: 1, connector_ids: vec![1] }]);
    let orphan = GetVariableData { components: vec![component("Connector", Some(5), Some(1))] };
    assert_eq!(run_evse_layout(vec![], &orphan), None);
}

#[test]
fn events_due_together_leave_in_queue_order() {
    let mut q = EventQueue::new(vec![(20, EventKind::LocalStop), (10, EventKind::CommunicationStop), (10, EventKind::CommunicationStart)]);
    q.insert(10, EventKind::Faulted(vec![]));
    let order: Vec<(u64, usize)> = (0..4).map(|_| q.pop_due(100).map(|e| (e.due, e.index)).unwrap()).collect();
    assert_eq!(order, vec![(10, 1), (10, 2), (10, 3), (20, 0)]);
}

#[test]
fn summary_counts_the_messages_recorded() {
    let mut summary = CPSummary::new(1, "SN".to_string());
    summary.record_sent("Heartbeat", true);
    summary.record_sent("Heartbeat", false);
    summary.record_received("Authorize", true);
    summary.record_sent("Authorize", true);
    summary.record_sent("Heartbeat", true);
    let heartbeat = summary.messages.iter().find(|m| m.message_type == "Heartbeat").unwrap();
    assert_eq!((heartbeat.sent_count, heartbeat.sent_success, heartbeat.sent_fail), (3, 2, 1));
    assert_eq!(heartbeat.received_count, 0);
    let authorize = summary.messages.iter().find(|m| m.message_type == "Authorize").unwrap();
    assert_eq!((authorize.sent_count, authorize.received_count, authorize.received_success), (1, 1, 1));
    assert_eq!(summary.messages.len(), 2);
}

#[test]
fn time_triggers_fire_once_their_moment_has_come() {
    assert!(time_trigger_due(100, 100));
    assert!(time_trigger_due(101, 100));
    assert!(!time_trigger_due(99, 100));
    assert_eq!(time_trigger_fired("2000-01-01T00:00:00Z"), Some(true));
    assert_eq!(time_trigger_fired("9999-01-01T00:00:00+00:00"), Some(false));
    assert_eq!(time_trigger_fired("not a time"), None);
}

#[test]
fn plug_and_unplug_report_their_connector() {
    assert_eq!(status_notification(&EventKind::Plug(reference(1, 3))), Some((3, "Preparing".to_string())));
    assert_eq!(status_notification(&EventKind::Unplug(reference(2, 2))), Some((2, "Available".to_string())));
    assert_eq!(status_notification(&EventKind::Faulted(vec![])), None);
}

#[test]
fn authorization_follows_events_and_starts() {
    assert_eq!(authorization_after_event(None, &EventKind::Authorize(rfid("CARD"))), Some(rfid("CARD")));
    assert_eq!(authorization_after_event(Some(rfid("OLD")), &EventKind::LocalStop), Some(rfid("OLD")));
    assert_eq!(authorization_after_start(Some(rfid("CARD")), Some(1)), None);
    assert_eq!(authorization_after_start(Some(rfid("CARD")), None), Some(rfid("CARD")));
}

#[test]
fn run_statistics_count_each_charge_point() {
    let mut summary = TestSummary::new();
    summary.get_or_create_cp(7, "S7".to_string()).record_sent("Heartbeat", true);
    summary.get_or_create_cp(8, "S8".to_string()).record_received("Heartbeat", false);
    summary.get_or_create_cp(7, "other".to_string()).record_sent("Heartbeat", false);
    summary.get_or_create_cp(7, "other".to_string()).record_received("Heartbeat", true);
    let seven = &summary.cps[&7];
    assert_eq!(seven.cp_serial, "S7");
    let hb = &seven.messages[0];
    assert_eq!((hb.sent_count, hb.sent_success, hb.sent_fail), (2, 1, 1));
    assert_eq!((hb.received_count, hb.received_success, hb.received_fail), (1, 1, 0));
    let eight = &summary.cps[&8].messages[0];
    assert_eq!((eight.sent_count, eight.received_count, eight.received_fail), (0, 1, 1));
    assert!(!summary.cps.contains_key(&9));
}

#[test]
fn retry_with_no_attempt_left_stops() {
    assert_eq!(ocpp_client::frames::retry_after(0, false), None);
}
