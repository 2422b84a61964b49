//! The state of a charge point's EVSEs and how the scheduled events and the central
//! system's requests change it: plugging and unplugging, starting and stopping a
//! charge, faults, and the authorization that a session is started with.

use vstd::prelude::*;
use vstd::string::*;
use crate::charging::{
    after_fault, after_fault_cleared, apply_fault, charging_start_connector, charging_stop_connector,
    clear_fault, distinct_evses, evse_layout, evse_layout_defined, layout_defined_upto, layout_map,
    layout_upto, lemma_fault_then_clear_restores, EvseLayout, start_connector, status_after_clear,
    status_after_fault_cleared,
};
use crate::communication::authorized_event_index;
use crate::cp_data::{AuthorizationType, ChargeSessionReference, GetVariableData, MessageReference, PlugAndCharge, RFID};
use crate::rest::CPSettings;
use crate::events::{EventKind, EventModel};

verus! {

/// What the charge point's decisions read and write of one EVSE.
#[derive(Clone, Debug, PartialEq, Eq)]
pub struct EvseState {
    pub connector_ids: Vec<u32>,
    pub plugged_in: Option<u32>,
    pub started: bool,
    pub status: String,
    pub faulted_connectors: Vec<u32>,
}

/// The mathematical value of an [`EvseState`].
pub struct EvseModel {
    pub connector_ids: Seq<u32>,
    pub plugged_in: Option<u32>,
    pub started: bool,
    pub status: Seq<char>,
    pub faulted: Seq<u32>,
}

impl View for EvseState {
    type V = EvseModel;

    open spec fn view(&self) -> EvseModel {
        EvseModel {
            connector_ids: self.connector_ids@,
            plugged_in: self.plugged_in,
            started: self.started,
            status: self.status@,
            faulted: self.faulted_connectors@,
        }
    }
}

/// A new EVSE with the given connectors: available, nothing plugged in, not
/// charging, and no connector faulted.
pub open spec fn idle_evse(connectors: Seq<u32>) -> EvseModel {
    EvseModel {
        connector_ids: connectors,
        plugged_in: None,
        started: false,
        status: "Available"@,
        faulted: Seq::empty(),
    }
}

/// The EVSE once a vehicle is plugged into connector `c`.
pub open spec fn plugged(s: EvseModel, c: u32) -> EvseModel {
    EvseModel { plugged_in: Some(c), ..s }
}

/// The EVSE once the vehicle is unplugged: nothing plugged in, and available.
pub open spec fn unplugged(s: EvseModel) -> EvseModel {
    EvseModel { plugged_in: None, status: "Available"@, ..s }
}

/// The connector that a stop of the charge reports: the plugged-in one, or 0; none
/// when the EVSE was not charging.
pub open spec fn stop_report(s: EvseModel) -> Option<u32> {
    if s.started {
        Some(
            match s.plugged_in {
                Some(c) => c,
                None => 0u32,
            },
        )
    } else {
        None
    }
}

/// The EVSE once charging has stopped.
pub open spec fn charging_stopped(s: EvseModel) -> EvseModel {
    EvseModel { started: false, ..s }
}

/// The connector that charging starts on when the charge point is connected to its
/// central system; none when it is not, or when charging may not start.
pub open spec fn start_report(s: EvseModel, authorized: bool, connected: bool) -> Option<u32> {
    if connected {
        start_connector(authorized, s.plugged_in, s.started, s.faulted)
    } else {
        None
    }
}

/// The EVSE after a check whether charging starts: charging when it does.
pub open spec fn after_start_check(s: EvseModel, authorized: bool, connected: bool) -> EvseModel {
    if start_report(s, authorized, connected) is Some {
        EvseModel { started: true, ..s }
    } else {
        s
    }
}

/// The EVSE after a fault on connectors `ids` (all of its connectors when `ids` is
/// empty): those connectors are faulted and the EVSE reports `Faulted`.
pub open spec fn faulted_evse(s: EvseModel, ids: Seq<u32>) -> EvseModel {
    EvseModel { faulted: after_fault(s.faulted, ids, s.connector_ids), status: "Faulted"@, ..s }
}

/// The EVSE after the faults on connectors `ids` clear (all of them when `ids` is
/// empty): it reports charging, preparing or available again.
pub open spec fn fault_cleared_evse(s: EvseModel, ids: Seq<u32>) -> EvseModel {
    EvseModel {
        faulted: after_fault_cleared(s.faulted, ids),
        status: status_after_clear(s.started, s.plugged_in),
        ..s
    }
}

impl EvseState {
    /// A new EVSE with the given connectors, available and idle.
    pub fn idle(connector_ids: Vec<u32>) -> (r: Self)
        ensures
            r@ == idle_evse(connector_ids@),
    {
        EvseState {
            connector_ids,
            plugged_in: None,
            started: false,
            status: "Available".to_owned(),
            faulted_connectors: Vec::new(),
        }
    }

    /// A vehicle is plugged into connector `connector_id`.
    pub fn plug(&mut self, connector_id: u32)
        ensures
            final(self)@ == plugged(old(self)@, connector_id),
    {
        self.plugged_in = Some(connector_id);
    }

    /// The vehicle is unplugged.
    pub fn unplug(&mut self)
        ensures
            final(self)@ == unplugged(old(self)@),
    {
        self.plugged_in = None;
        self.status = "Available".to_owned();
    }

    /// Stops charging if the EVSE is charging, and says on which connector the stop
    /// is reported.
    pub fn stop_charging(&mut self) -> (r: Option<u32>)
        ensures
            r == stop_report(old(self)@),
            final(self)@ == charging_stopped(old(self)@),
    {
        let r = charging_stop_connector(self.started, self.plugged_in);
        self.started = false;
        r
    }

    /// Starts charging where it may start and the charge point is connected, and says
    /// on which connector.
    pub fn start_charging(&mut self, authorized: bool, connected: bool) -> (r: Option<u32>)
        ensures
            r == start_report(old(self)@, authorized, connected),
            final(self)@ == after_start_check(old(self)@, authorized, connected),
    {
        if !connected {
            return None;
        }
        let r = charging_start_connector(authorized, self.plugged_in, self.started, &self.faulted_connectors);
        if r.is_some() {
            self.started = true;
        }
        r
    }

    /// Connectors `ids` fault; none named means all of the EVSE's connectors.
    pub fn fault(&mut self, ids: &Vec<u32>)
        ensures
            final(self)@ == faulted_evse(old(self)@, ids@),
    {
        let connectors = self.connector_ids.clone();
        apply_fault(&mut self.faulted_connectors, ids, &connectors);
        self.status = "Faulted".to_owned();
    }

    /// The faults on connectors `ids` clear; none named means all of them.
    pub fn clear_fault(&mut self, ids: &Vec<u32>)
        ensures
            final(self)@ == fault_cleared_evse(old(self)@, ids@),
    {
        clear_fault(&mut self.faulted_connectors, ids);
        self.status = status_after_fault_cleared(self.started, self.plugged_in);
    }
}

/// The EVSE that a scheduled event changes: the one a plug or unplug names, and EVSE
/// 1 for a fault or a cleared fault.
pub open spec fn event_evse_index(e: EventModel) -> Option<u32> {
    match e {
        EventModel::Plug(r) => Some(r.evse_index),
        EventModel::Unplug(r) => Some(r.evse_index),
        EventModel::Faulted(_) => Some(1),
        EventModel::FaultCleared(_) => Some(1),
        _ => None,
    }
}

/// The EVSE that a scheduled event changes, if any.
pub fn event_evse(e: &EventKind) -> (r: Option<u32>)
    ensures
        r == event_evse_index(e@),
{
    match e {
        EventKind::Plug(r) => Some(r.evse_index),
        EventKind::Unplug(r) => Some(r.evse_index),
        EventKind::Faulted(_) => Some(1),
        EventKind::FaultCleared(_) => Some(1),
        _ => None,
    }
}

/// An EVSE after a scheduled event and the checks it triggers: a plug is followed by
/// a check whether charging starts, an unplug stops any charge first; faults are
/// set and cleared. Other events leave the EVSE as it is.
pub open spec fn evse_after_event(s: EvseModel, e: EventModel, authorized: bool, connected: bool) -> EvseModel {
    match e {
        EventModel::Plug(r) => after_start_check(plugged(s, r.connector_id), authorized, connected),
        EventModel::Unplug(_) => unplugged(charging_stopped(s)),
        EventModel::Faulted(ids) => faulted_evse(s, ids),
        EventModel::FaultCleared(ids) => fault_cleared_evse(s, ids),
        _ => s,
    }
}

/// What the charge point reports to its central system for an event on an EVSE.
#[derive(Clone, Debug, PartialEq, Eq)]
pub struct EvseReport {
    /// The connector a charge started on.
    pub started_on: Option<u32>,
    /// The connector a charge stopped on.
    pub stopped_on: Option<u32>,
}

/// Applies a scheduled event to the EVSE it concerns, `authorized` saying whether
/// the charge point holds an authorization and `connected` whether it is connected
/// to its central system, and reports the charge that started or stopped.
pub fn apply_event(evse: &mut EvseState, e: &EventKind, authorized: bool, connected: bool) -> (r: EvseReport)
    ensures
        final(evse)@ == evse_after_event(old(evse)@, e@, authorized, connected),
        r.started_on == (match e@ {
            EventModel::Plug(p) => start_report(plugged(old(evse)@, p.connector_id), authorized, connected),
            _ => None,
        }),
        r.stopped_on == (match e@ {
            EventModel::Unplug(_) => stop_report(old(evse)@),
            _ => None,
        }),
{
    match e {
        EventKind::Plug(p) => {
            evse.plug(p.connector_id);
            let started_on = evse.start_charging(authorized, connected);
            EvseReport { started_on, stopped_on: None }
        },
        EventKind::Unplug(_) => {
            let stopped_on = evse.stop_charging();
            evse.unplug();
            EvseReport { started_on: None, stopped_on }
        },
        EventKind::Faulted(ids) => {
            evse.fault(ids);
            EvseReport { started_on: None, stopped_on: None }
        },
        EventKind::FaultCleared(ids) => {
            evse.clear_fault(ids);
            EvseReport { started_on: None, stopped_on: None }
        },
        _ => EvseReport { started_on: None, stopped_on: None },
    }
}

/// The status that a plug or an unplug event reports, and for which connector: the
/// connector the event names, `Preparing` once a vehicle is plugged in and
/// `Available` once it is unplugged.
pub open spec fn event_status(e: EventModel) -> Option<(u32, Seq<char>)> {
    match e {
        EventModel::Plug(r) => Some((r.connector_id, "Preparing"@)),
        EventModel::Unplug(r) => Some((r.connector_id, "Available"@)),
        _ => None,
    }
}

/// The status notification that a plug or an unplug event sends.
pub fn status_notification(e: &EventKind) -> (r: Option<(u32, String)>)
    ensures
        match event_status(e@) {
            Some((c, s)) => r matches Some((rc, rs)) && rc == c && rs@ == s,
            None => r is None,
        },
{
    match e {
        EventKind::Plug(r) => Some((r.connector_id, "Preparing".to_owned())),
        EventKind::Unplug(r) => Some((r.connector_id, "Available".to_owned())),
        _ => None,
    }
}

/// The charge point's authorization after a scheduled event: an authorize event's
/// own authorization; other events leave the one it held.
pub fn authorization_after_event(current: Option<AuthorizationType>, e: &EventKind) -> (r: Option<
    AuthorizationType,
>)
    ensures
        r == (match *e {
            EventKind::Authorize(a) => Some(a),
            _ => current,
        }),
{
    match e {
        EventKind::Authorize(a) => Some(copy_authorization(a)),
        _ => current,
    }
}

/// The charge point's authorization after a check whether charging starts: used
/// up when a charge started, else kept.
pub fn authorization_after_start(current: Option<AuthorizationType>, started_on: Option<u32>) -> (r: Option<
    AuthorizationType,
>)
    ensures
        r == (if started_on is Some {
            None
        } else {
            current
        }),
{
    if started_on.is_some() {
        None
    } else {
        current
    }
}

/// The charge point's authorization after a remote start request for EVSE `target`:
/// the request's tag as a remote authorization when an EVSE was found for it,
/// otherwise the authorization it held.
pub fn authorization_after_remote_start(
    current: Option<AuthorizationType>,
    target: Option<u32>,
    id_tag: String,
) -> (r: Option<AuthorizationType>)
    ensures
        r == (match target {
            Some(_) => Some(AuthorizationType::Remote(RFID { id_tag })),
            None => current,
        }),
{
    match target {
        Some(_) => Some(AuthorizationType::Remote(RFID { id_tag })),
        None => current,
    }
}

/// The authorization that an Authorize answer leaves the charge point with: the one
/// of the scheduled authorize event the request referred to, when the answer accepts
/// it; otherwise the authorization it held.
pub open spec fn answered_authorization(
    current: Option<AuthorizationType>,
    accepted: bool,
    reference: Option<MessageReference>,
    events: Seq<EventKind>,
) -> Option<AuthorizationType> {
    match reference {
        Some(MessageReference::EventIndex(i)) => if accepted && i < events.len() {
            match events[i as int] {
                EventKind::Authorize(a) => Some(a),
                _ => current,
            }
        } else {
            current
        },
        _ => current,
    }
}

/// Applies an Authorize answer to the charge point's authorization, `events` being
/// its scheduled events in order.
pub fn authorization_after_answer(
    current: Option<AuthorizationType>,
    accepted: bool,
    reference: &Option<MessageReference>,
    events: &Vec<EventKind>,
) -> (r: Option<AuthorizationType>)
    ensures
        r == answered_authorization(current, accepted, *reference, events@),
{
    match authorized_event_index(accepted, reference) {
        Some(i) => if i < events.len() {
            match &events[i] {
                EventKind::Authorize(a) => Some(copy_authorization(a)),
                _ => current,
            }
        } else {
            current
        },
        None => current,
    }
}

/// A copy of an authorization.
fn copy_authorization(a: &AuthorizationType) -> (r: AuthorizationType)
    ensures
        r == *a,
{
    match a {
        AuthorizationType::RFID(rfid) => AuthorizationType::RFID(RFID { id_tag: rfid.id_tag.clone() }),
        AuthorizationType::PlugAndCharge(_) => AuthorizationType::PlugAndCharge(PlugAndCharge {}),
        AuthorizationType::Remote(rfid) => AuthorizationType::Remote(RFID { id_tag: rfid.id_tag.clone() }),
    }
}

/// The connector that meter values are reported for: the EVSE's first connector, or
/// connector 1 when it has none.
pub fn meter_values_connector(connector_ids: &Vec<u32>) -> (r: u32)
    ensures
        r == (if connector_ids@.len() > 0 {
            connector_ids@[0]
        } else {
            1u32
        }),
{
    if connector_ids.len() > 0 {
        connector_ids[0]
    } else {
        1
    }
}

/// Adds an event at the end of a charge point's scheduled events, and gives the
/// position it is found at.
pub fn schedule_event<E>(events: &mut Vec<E>, event: E) -> (r: usize)
    requires
        old(events)@.len() < usize::MAX,
    ensures
        r == old(events)@.len(),
        final(events)@ == old(events)@.push(event),
{
    let r = events.len();
    events.push(event);
    r
}

/// A charge point's identity, scenario, device model and session state; `E` is the
/// type of its scheduled events.
#[derive(Clone, Debug)]
pub struct ChargePointRecord<E> {
    pub username: Option<String>,
    pub password: Option<String>,
    pub supported_protocol_versions: Option<String>,
    pub selected_protocol: Option<String>,
    pub serial: String,
    pub model: String,
    pub vendor: String,
    pub base_url: String,
    pub booted: bool,
    pub events: Vec<E>,
    pub authorization: Option<AuthorizationType>,
    pub variables: GetVariableData,
    pub variables_file_name: String,
    pub use_original: bool,
}

impl<E> ChargePointRecord<E> {
    /// A charge point set up from its settings, scheduled events and device model:
    /// not booted yet, and holding no authorization.
    pub fn from_settings(
        settings: CPSettings,
        events: Vec<E>,
        variables: GetVariableData,
        variables_file_name: String,
        use_original: bool,
    ) -> (r: Self)
        ensures
            r.username == settings.username,
            r.password == settings.password,
            r.supported_protocol_versions == settings.supported_protocol_versions,
            r.selected_protocol == settings.selected_protocol,
            r.serial == settings.serial,
            r.model == settings.model,
            r.vendor == settings.vendor,
            r.base_url == settings.base_url,
            !r.booted,
            r.events@ == events@,
            r.authorization is None,
            r.variables == variables,
            r.variables_file_name == variables_file_name,
            r.use_original == use_original,
    {
        ChargePointRecord {
            username: settings.username,
            password: settings.password,
            supported_protocol_versions: settings.supported_protocol_versions,
            selected_protocol: settings.selected_protocol,
            serial: settings.serial,
            model: settings.model,
            vendor: settings.vendor,
            base_url: settings.base_url,
            booted: false,
            events,
            authorization: None,
            variables,
            variables_file_name,
            use_original,
        }
    }
}

/// On any EVSE, a vehicle plugged into a faulted connector does not start charging,
/// and the EVSE stays as it was, whether or not the session is authorized and the
/// charge point connected.
pub proof fn lemma_no_start_on_faulted_connector(s: EvseModel, c: u32, authorized: bool, connected: bool)
    requires
        s.faulted.contains(c),
    ensures
        start_report(plugged(s, c), authorized, connected) is None,
        after_start_check(plugged(s, c), authorized, connected) == plugged(s, c),
        evse_after_event(
            s,
            EventModel::Plug(ChargeSessionReference { evse_index: 1, connector_id: c }),
            authorized,
            connected,
        ).started == s.started,
{
}

/// On a new EVSE, whatever its connectors, a vehicle plugged into a connector starts
/// charging on that connector when the charge point holds an authorization and is
/// connected to its central system.
pub proof fn lemma_new_evse_starts_charging(connectors: Seq<u32>, c: u32)
    ensures
        start_report(plugged(idle_evse(connectors), c), true, true) == Some(c),
        evse_after_event(
            idle_evse(connectors),
            EventModel::Plug(ChargeSessionReference { evse_index: 1, connector_id: c }),
            true,
            true,
        ).started,
{
}

/// After an unplug, whatever the EVSE's state, nothing is plugged in, no charge goes
/// on, and the EVSE is available.
pub proof fn lemma_unplug_ends_session(s: EvseModel, r: ChargeSessionReference, authorized: bool, connected: bool)
    ensures
        evse_after_event(s, EventModel::Unplug(r), authorized, connected).plugged_in is None,
        !evse_after_event(s, EventModel::Unplug(r), authorized, connected).started,
        evse_after_event(s, EventModel::Unplug(r), authorized, connected).status == "Available"@,
{
}

/// A fault on connectors that were not faulted, cleared again, leaves the EVSE with
/// the faulted connectors it had, reporting charging, preparing or available.
pub proof fn lemma_fault_then_clear_restores_evse(s: EvseModel, ids: Seq<u32>)
    requires
        ids.len() > 0,
        forall|c: u32| ids.contains(c) ==> !s.faulted.contains(c),
    ensures
        fault_cleared_evse(faulted_evse(s, ids), ids).faulted == s.faulted,
        fault_cleared_evse(faulted_evse(s, ids), ids).status == status_after_clear(s.started, s.plugged_in),
{
    lemma_fault_then_clear_restores(s.faulted, ids, s.connector_ids);
}

/// An accepted answer to the Authorize request of an authorize event, found at the
/// position at which it was scheduled, leaves the charge point holding that event's
/// authorization.
pub proof fn lemma_accepted_answer_authorizes(
    current: Option<AuthorizationType>,
    events: Seq<EventKind>,
    a: AuthorizationType,
)
    requires
        events.len() < usize::MAX,
    ensures
        answered_authorization(
            current,
            true,
            Some(MessageReference::EventIndex(events.len() as usize)),
            events.push(EventKind::Authorize(a)),
        ) == Some(a),
{
}

/// The EVSEs a charge point runs with: the ones it was created with, when it was
/// created with any, so that EVSEs defined over REST are kept; otherwise those its
/// device model defines, when it defines them.
pub fn run_evse_layout(defined: Vec<EvseLayout>, data: &GetVariableData) -> (r: Option<Vec<EvseLayout>>)
    ensures
        match r {
            Some(v) => if defined@.len() > 0 {
                v@ == defined@
            } else {
                &&& layout_defined_upto(data@, data@.len() as int)
                &&& distinct_evses(v@)
                &&& layout_map(v@) == layout_upto(data@, data@.len() as int)
            },
            None => defined@.len() == 0 && !layout_defined_upto(data@, data@.len() as int),
        },
{
    if defined.len() > 0 {
        Some(defined)
    } else if evse_layout_defined(data) {
        Some(evse_layout(data))
    } else {
        None
    }
}

} // verus!
