//! The events that a test scenario schedules for a charge point.

use vstd::prelude::*;
use vstd::string::*;
use crate::cp_data::{AuthorizationType, ChargeSessionReference};

verus! {

/// What happens at a scheduled moment. A plug event names the connector; the
/// vehicle that is plugged in is described apart from it.
#[derive(Clone, Debug, PartialEq, Eq)]
pub enum EventKind {
    Authorize(AuthorizationType),
    LocalStop,
    Plug(ChargeSessionReference),
    Unplug(ChargeSessionReference),
    RemoteStart(ChargeSessionReference),
    RemoteStop(ChargeSessionReference),
    CommunicationStop,
    CommunicationStart,
    /// The connectors that fault; none named means all of them.
    Faulted(Vec<u32>),
    /// The connectors whose fault clears; none named means all of them.
    FaultCleared(Vec<u32>),
}

/// An event and the seconds after the start of the scenario at which it happens.
#[derive(Clone, Debug, PartialEq, Eq)]
pub struct ScheduledEvent {
    pub duration: u32,
    pub event: EventKind,
}

/// The mathematical value of an [`AuthorizationType`].
pub enum AuthorizationModel {
    Rfid(Seq<char>),
    PlugAndCharge,
    Remote(Seq<char>),
}

impl View for AuthorizationType {
    type V = AuthorizationModel;

    open spec fn view(&self) -> AuthorizationModel {
        match self {
            AuthorizationType::RFID(r) => AuthorizationModel::Rfid(r.id_tag@),
            AuthorizationType::PlugAndCharge(_) => AuthorizationModel::PlugAndCharge,
            AuthorizationType::Remote(r) => AuthorizationModel::Remote(r.id_tag@),
        }
    }
}

/// The mathematical value of an [`EventKind`].
pub enum EventModel {
    Authorize(AuthorizationModel),
    LocalStop,
    Plug(ChargeSessionReference),
    Unplug(ChargeSessionReference),
    RemoteStart(ChargeSessionReference),
    RemoteStop(ChargeSessionReference),
    CommunicationStop,
    CommunicationStart,
    Faulted(Seq<u32>),
    FaultCleared(Seq<u32>),
}

impl View for EventKind {
    type V = EventModel;

    open spec fn view(&self) -> EventModel {
        match self {
            EventKind::Authorize(a) => EventModel::Authorize(a@),
            EventKind::LocalStop => EventModel::LocalStop,
            EventKind::Plug(r) => EventModel::Plug(*r),
            EventKind::Unplug(r) => EventModel::Unplug(*r),
            EventKind::RemoteStart(r) => EventModel::RemoteStart(*r),
            EventKind::RemoteStop(r) => EventModel::RemoteStop(*r),
            EventKind::CommunicationStop => EventModel::CommunicationStop,
            EventKind::CommunicationStart => EventModel::CommunicationStart,
            EventKind::Faulted(ids) => EventModel::Faulted(ids@),
            EventKind::FaultCleared(ids) => EventModel::FaultCleared(ids@),
        }
    }
}

/// The mathematical value of a [`ScheduledEvent`].
pub struct ScheduledEventModel {
    pub duration: u32,
    pub event: EventModel,
}

impl View for ScheduledEvent {
    type V = ScheduledEventModel;

    open spec fn view(&self) -> ScheduledEventModel {
        ScheduledEventModel { duration: self.duration, event: self.event@ }
    }
}

/// The model of a result that carries a scheduled event or an error message.
pub open spec fn event_result_model(r: Result<ScheduledEvent, String>) -> Result<ScheduledEventModel, Seq<char>> {
    match r {
        Ok(e) => Ok(e@),
        Err(m) => Err(m@),
    }
}

/// The connector that an event names, or the message that says which of the two
/// numbers an event of kind `kind` lacks.
pub open spec fn required_reference(evse_index: Option<u32>, connector_id: Option<u32>, kind: Seq<char>) -> Result<ChargeSessionReference, Seq<char>> {
    match evse_index {
        None => Err("evse_index required for "@ + kind + " event"@),
        Some(e) => match connector_id {
            None => Err("connector_id required for "@ + kind + " event"@),
            Some(c) => Ok(ChargeSessionReference { evse_index: e, connector_id: c }),
        },
    }
}

/// The model of a result that carries a connector reference or an error message.
pub open spec fn reference_result_model(r: Result<ChargeSessionReference, String>) -> Result<ChargeSessionReference, Seq<char>> {
    match r {
        Ok(c) => Ok(c),
        Err(m) => Err(m@),
    }
}

/// Takes the connector that an event of kind `kind` names.
pub fn require_reference(evse_index: Option<u32>, connector_id: Option<u32>, kind: &str) -> (r: Result<ChargeSessionReference, String>)
    ensures
        reference_result_model(r) == required_reference(evse_index, connector_id, kind@),
{
    match evse_index {
        None => {
            let mut m = String::from_str("evse_index required for ");
            m.append(kind);
            m.append(" event");
            Err(m)
        },
        Some(e) => match connector_id {
            None => {
                let mut m = String::from_str("connector_id required for ");
                m.append(kind);
                m.append(" event");
                Err(m)
            },
            Some(c) => Ok(ChargeSessionReference { evse_index: e, connector_id: c }),
        },
    }
}

} // verus!
