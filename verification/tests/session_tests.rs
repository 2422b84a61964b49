use ocpp_client::charging::meter_values_due;
use ocpp_client::connect::{authorization_header, connection_request, ConnectOptions};
use ocpp_client::communication::{
    authorize_id_tag, authorize_id_token, authorized_event_index, charge_point_status, connection_address,
    protocol_version, remote_start_evse, remote_stop_evse, select_protocol, start_transaction_id_tag,
    ChargePointStatusKind, EvseSnapshot, IdTokenKind, ProtocolVersion,
};
use ocpp_client::cp_data::{AuthorizationType, MessageReference, PlugAndCharge, RFID};
use ocpp_client::events::EventKind;
use ocpp_client::message_stats::{CPSummary, MessageTypeStats, TestSummary};
use ocpp_client::scheduler::EventQueue;

fn rfid(tag: &str) -> RFID {
    RFID { id_tag: tag.to_string() }
}

#[test]
fn protocol_choice() {
    assert_eq!(select_protocol(&Some("ocpp2.0.1".to_string()), &None), "ocpp2.0.1");
    assert_eq!(select_protocol(&None, &Some(" ocpp2.0.1 , ocpp1.6".to_string())), "ocpp2.0.1");
    assert_eq!(select_protocol(&None, &None), "ocpp1.6");
    assert_eq!(protocol_version("ocpp1.6"), Some(ProtocolVersion::Ocpp1_6));
    assert_eq!(protocol_version("ocpp2.0.1"), Some(ProtocolVersion::Ocpp2_0_1));
    assert_eq!(protocol_version("ocpp3"), None);
    assert_eq!(connection_address("ws://host/", "CP_1"), "ws://host/CP_1");
}

#[test]
fn id_tags_for_authorization() {
    assert_eq!(authorize_id_tag(&AuthorizationType::RFID(rfid("T1"))), Some("T1".to_string()));
    assert_eq!(authorize_id_tag(&AuthorizationType::Remote(rfid("T1"))), None);
    assert_eq!(start_transaction_id_tag(&Some(AuthorizationType::Remote(rfid("T2")))), Ok("T2".to_string()));
    assert_eq!(
        start_transaction_id_tag(&None),
        Err("StartTransaction requires RFID authorization".to_string())
    );
    assert_eq!(
        start_transaction_id_tag(&Some(AuthorizationType::PlugAndCharge(PlugAndCharge {}))),
        Err("StartTransaction requires RFID authorization".to_string())
    );
    assert_eq!(
        authorize_id_token(&AuthorizationType::PlugAndCharge(PlugAndCharge {})),
        ("PlugAndChargeToken".to_string(), IdTokenKind::EMAID)
    );
    assert_eq!(authorize_id_token(&AuthorizationType::RFID(rfid("T3"))), ("T3".to_string(), IdTokenKind::ISO15693));
    assert_eq!(authorized_event_index(true, &Some(MessageReference::EventIndex(4))), Some(4));
    assert_eq!(authorized_event_index(false, &Some(MessageReference::EventIndex(4))), None);
    assert_eq!(authorized_event_index(true, &Some(MessageReference::NoReference)), None);
}

#[test]
fn status_names() {
    assert_eq!(charge_point_status("Charging"), ChargePointStatusKind::Charging);
    assert_eq!(charge_point_status("SuspendedEVSE"), ChargePointStatusKind::SuspendedEVSE);
    assert_eq!(charge_point_status("Whatever"), ChargePointStatusKind::Available);
}

fn evse(index: u32, connectors: Vec<u32>, plugged_in: Option<u32>, status: &str) -> EvseSnapshot {
    EvseSnapshot { evse_index: index, connector_ids: connectors, plugged_in, status: status.to_string() }
}

#[test]
fn remote_start_picks_an_evse() {
    let evses = vec![evse(1, vec![1, 2], None, "Available"), evse(2, vec![3], Some(3), "Preparing")];
    assert_eq!(remote_start_evse(Some(3), &evses), Some(2));
    assert_eq!(remote_start_evse(Some(9), &evses), None);
    assert_eq!(remote_start_evse(None, &evses), Some(2));
    let single = vec![evse(5, vec![1], None, "Available")];
    assert_eq!(remote_start_evse(None, &single), Some(5));
    let charging = vec![evse(5, vec![1], Some(1), "Charging")];
    assert_eq!(remote_start_evse(None, &charging), None);
    let two_ready = vec![evse(1, vec![1], Some(1), "Preparing"), evse(2, vec![1], Some(1), "Preparing")];
    assert_eq!(remote_start_evse(None, &two_ready), None);
    assert_eq!(remote_stop_evse(&evses), None);
    let with_charging = vec![evse(1, vec![1], None, "Available"), evse(4, vec![1], Some(1), "Charging")];
    assert_eq!(remote_stop_evse(&with_charging), Some(4));
}

#[test]
fn message_counts() {
    let mut s = MessageTypeStats::new("Heartbeat".to_string());
    s.record_sent(true);
    s.record_sent(false);
    s.record_received(true);
    assert_eq!((s.sent_count, s.sent_success, s.sent_fail), (2, 1, 1));
    assert_eq!((s.received_count, s.received_success, s.received_fail), (1, 1, 0));

    let mut cp = CPSummary::new(3, "SER".to_string());
    cp.record_sent("Authorize", true);
    cp.record_sent("Authorize", true);
    cp.record_received("BootNotification", false);
    assert_eq!(cp.messages.len(), 2);
    let auth = cp.messages.iter().find(|m| m.message_type == "Authorize").unwrap();
    assert_eq!(auth.sent_success, 2);
    let boot = cp.messages.iter().find(|m| m.message_type == "BootNotification").unwrap();
    assert_eq!(boot.received_fail, 1);

    let mut summary = TestSummary::new();
    assert!(summary.start_time.len() >= 25);
    assert!(summary.start_time.ends_with("+00:00"));
    assert_eq!(&summary.start_time[10..11], "T");
    assert!(summary.end_time.is_empty());
    summary.get_or_create_cp(1, "A".to_string()).record_sent("Heartbeat", true);
    summary.get_or_create_cp(1, "ignored".to_string()).record_sent("Heartbeat", true);
    summary.get_or_create_cp(2, "B".to_string());
    assert_eq!(summary.cps.len(), 2);
    let one = summary.cps.get(&1).unwrap();
    assert_eq!(one.cp_id, 1);
    assert_eq!(summary.cps.get(&2).unwrap().cp_serial, "B");
    assert_eq!(one.cp_serial, "A");
    assert_eq!(one.messages[0].sent_count, 2);
    summary.finalize();
    assert!(summary.end_time.len() >= 25);
    assert!(summary.end_time.ends_with("+00:00"));
    assert_eq!(summary.cps.len(), 2);
}

#[test]
fn events_leave_the_queue_earliest_first() {
    let mut q = EventQueue::new(vec![(30, EventKind::LocalStop), (10, EventKind::CommunicationStop), (20, EventKind::CommunicationStart)]);
    assert_eq!(q.next_index, 3);
    assert_eq!(q.next_due(), Some(10));
    assert!(q.pop_due(5).is_none());
    let first = q.pop_due(100).unwrap();
    assert_eq!((first.due, first.index), (10, 1));
    q.insert(15, EventKind::Faulted(vec![1]));
    let second = q.pop_due(100).unwrap();
    assert_eq!((second.due, second.index), (15, 3));
    assert_eq!(second.event, EventKind::Faulted(vec![1]));
    let third = q.pop_due(100).unwrap();
    assert_eq!(third.due, 20);
    let fourth = q.pop_due(100).unwrap();
    assert_eq!((fourth.due, fourth.index), (30, 0));
    assert!(q.pop_due(u64::MAX).is_none());
    assert_eq!(q.next_due(), None);
    assert_eq!(q.next_index, 4);
}

#[test]
fn basic_authorization_header() {
    let with_password = Some(ConnectOptions { username: Some("u".to_string()), password: Some("p".to_string()) });
    assert_eq!(authorization_header(&with_password).as_deref(), Some("Basic dTpw"));
    let without_password = Some(ConnectOptions { username: Some("CP_1".to_string()), password: None });
    assert_eq!(authorization_header(&without_password).as_deref(), Some("Basic Q1BfMTo="));
    let no_user = Some(ConnectOptions { username: None, password: Some("p".to_string()) });
    assert_eq!(authorization_header(&no_user), None);
    assert_eq!(authorization_header(&None), None);
}

#[test]
fn meter_values_are_due_by_interval_or_trigger() {
    assert!(meter_values_due(30, 30, false));
    assert!(!meter_values_due(29, 30, false));
    assert!(meter_values_due(0, 30, true));
}

#[test]
fn counters_report_when_they_are_full() {
    let mut cp = CPSummary::new(1, "S".to_string());
    assert!(cp.sent_fits("Heartbeat", true));
    cp.record_sent("Heartbeat", true);
    cp.messages[0].sent_count = u64::MAX;
    assert!(!cp.sent_fits("Heartbeat", false));
    assert!(cp.received_fits("Heartbeat", false));
    cp.messages[0].received_fail = u64::MAX;
    assert!(!cp.received_fits("Heartbeat", false));
    assert!(cp.received_fits("Heartbeat", true));
}

#[test]
fn connection_requests() {
    let options = Some(ConnectOptions { username: Some("u".to_string()), password: Some("p".to_string()) });
    let req = connection_request("ws://EXAMPLE.com:80/steve/CP_1", "ocpp1.6", &options).unwrap();
    assert_eq!(req.address, "ws://example.com/steve/CP_1");
    assert_eq!(req.protocols, "ocpp1.6");
    assert_eq!(req.authorization.as_deref(), Some("Basic dTpw"));
    let req = connection_request("ws://127.0.0.1:8180/steve/websocket/CentralSystemService/CP_1", "ocpp2.0.1", &None).unwrap();
    assert_eq!(req.address, "ws://127.0.0.1:8180/steve/websocket/CentralSystemService/CP_1");
    assert_eq!(req.authorization, None);
    assert_eq!(connection_request("not a url", "ocpp1.6", &None).unwrap_err(), "relative URL without a base");
}
