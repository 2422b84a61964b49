//! The REST interface's requests and answers, and what creating a charge point or
//! adding an event makes of them.

use vstd::prelude::*;
use vstd::string::*;
use crate::charging::{EvseLayout, distinct_evses, layout_map, put_evse};
use crate::cp_data::{
    Attributes, AuthorizationType, CPFileInfo, ChargeSessionReference, Characteristics,
    ComponentView, Components, GetVariableData, RFID, ValueType, Variable,
};
use crate::events::{AuthorizationModel, EventKind, EventModel};
use crate::numeric::{decimal, u64_to_decimal};
use crate::text::{opt_text, str_eq};

verus! {

/// A request to create a charge point from its configuration files.
#[derive(Clone, Debug, PartialEq, Eq)]
pub struct CreateCPFromFileRequest {
    pub name: String,
    pub use_original: Option<bool>,
    pub data_directory: String,
}

/// A request to create a charge point from the settings in the request itself.
#[derive(Clone, Debug, PartialEq, Eq)]
pub struct CreateCPFromRESTRequest {
    pub username: Option<String>,
    pub password: Option<String>,
    pub vendor: String,
    pub model: String,
    pub serial: String,
    pub protocol: String,
    pub evses: Vec<CreateCPRESTEVSERequest>,
    pub configuration: Option<Vec<CreateCPRESTConfigurationComponent>>,
}

/// One EVSE of a REST-created charge point, by its number and connector count.
#[derive(Clone, Copy, Debug, PartialEq, Eq)]
pub struct CreateCPRESTEVSERequest {
    pub evse_index: u32,
    pub connector_count: u32,
}

/// One device model component of a REST-created charge point.
#[derive(Clone, Debug, PartialEq, Eq)]
pub struct CreateCPRESTConfigurationComponent {
    pub instance: Option<String>,
    pub name: String,
    pub evse: Option<u32>,
    pub connector: Option<u32>,
    pub variables: Vec<CreateCPRESTConfigurationVariable>,
}

/// One variable of a REST-created component.
#[derive(Clone, Debug, PartialEq, Eq)]
pub struct CreateCPRESTConfigurationVariable {
    pub name: String,
    pub value: String,
    pub required: Option<bool>,
    pub ocpp16_key: Option<String>,
}

/// The kinds of events that the REST interface schedules.
#[derive(Clone, Copy, Debug, PartialEq, Eq)]
pub enum EventType {
    Authorize,
    LocalStop,
    Plug,
    Unplug,
    RemoteStart,
    RemoteStop,
    CommunicationStop,
    CommunicationStart,
    Faulted,
    FaultCleared,
}

/// The data of an authorize event.
#[derive(Clone, Debug, PartialEq, Eq)]
pub struct AuthorizeEventData {
    pub id_tag: String,
}

/// The data of an unplug event.
#[derive(Clone, Copy, Debug, PartialEq, Eq)]
pub struct UnplugEventData {
    pub evse_index: u32,
    pub connector_id: u32,
}

/// The data of a fault event: the connectors, none meaning all of them.
#[derive(Clone, Debug, PartialEq, Eq)]
pub struct FaultEventData {
    pub connector_ids: Vec<u32>,
}

/// The answer to creating a charge point.
#[derive(Clone, Debug, PartialEq, Eq)]
pub struct CreateCPResponse {
    pub cp_id: usize,
    pub message: String,
}

/// The answer to creating several charge points.
#[derive(Clone, Debug, PartialEq, Eq)]
pub struct CreateMultipleCPsResponse {
    pub cp_ids: Vec<usize>,
    pub message: String,
}

/// The answer to a request that failed.
#[derive(Clone, Debug, PartialEq, Eq)]
pub struct ErrorResponse {
    pub error: String,
    pub details: Option<String>,
}

/// A request to create a charge point from its configuration files.
#[derive(Clone, Debug, PartialEq, Eq)]
pub struct CreateCPRequest {
    pub name: String,
    pub use_original: Option<bool>,
    pub data_directory: String,
}

/// The name of an event type on the REST interface.
pub open spec fn event_type_name(t: EventType) -> Seq<char> {
    match t {
        EventType::Authorize => "authorize"@,
        EventType::LocalStop => "local_stop"@,
        EventType::Plug => "plug"@,
        EventType::Unplug => "unplug"@,
        EventType::RemoteStart => "remote_start"@,
        EventType::RemoteStop => "remote_stop"@,
        EventType::CommunicationStop => "communication_stop"@,
        EventType::CommunicationStart => "communication_start"@,
        EventType::Faulted => "faulted"@,
        EventType::FaultCleared => "fault_cleared"@,
    }
}

/// The event type with a given name.
pub open spec fn event_type_named(s: Seq<char>) -> Option<EventType> {
    if s == "authorize"@ {
        Some(EventType::Authorize)
    } else if s == "communication_start"@ {
        Some(EventType::CommunicationStart)
    } else if s == "communication_stop"@ {
        Some(EventType::CommunicationStop)
    } else if s == "local_stop"@ {
        Some(EventType::LocalStop)
    } else if s == "plug"@ {
        Some(EventType::Plug)
    } else if s == "unplug"@ {
        Some(EventType::Unplug)
    } else if s == "faulted"@ {
        Some(EventType::Faulted)
    } else if s == "fault_cleared"@ {
        Some(EventType::FaultCleared)
    } else if s == "remote_start"@ {
        Some(EventType::RemoteStart)
    } else if s == "remote_stop"@ {
        Some(EventType::RemoteStop)
    } else {
        None
    }
}

impl EventType {
    /// The event type's name on the REST interface.
    pub fn name(&self) -> (r: String)
        ensures
            r@ == event_type_name(*self),
    {
        let s = match self {
            EventType::Authorize => "authorize",
            EventType::LocalStop => "local_stop",
            EventType::Plug => "plug",
            EventType::Unplug => "unplug",
            EventType::RemoteStart => "remote_start",
            EventType::RemoteStop => "remote_stop",
            EventType::CommunicationStop => "communication_stop",
            EventType::CommunicationStart => "communication_start",
            EventType::Faulted => "faulted",
            EventType::FaultCleared => "fault_cleared",
        };
        String::from_str(s)
    }

    /// The event type with the given name.
    pub fn from_name(s: &str) -> (r: Option<EventType>)
        ensures
            r == event_type_named(s@),
    {
        if str_eq(s, "authorize") {
            Some(EventType::Authorize)
        } else if str_eq(s, "communication_start") {
            Some(EventType::CommunicationStart)
        } else if str_eq(s, "communication_stop") {
            Some(EventType::CommunicationStop)
        } else if str_eq(s, "local_stop") {
            Some(EventType::LocalStop)
        } else if str_eq(s, "plug") {
            Some(EventType::Plug)
        } else if str_eq(s, "unplug") {
            Some(EventType::Unplug)
        } else if str_eq(s, "faulted") {
            Some(EventType::Faulted)
        } else if str_eq(s, "fault_cleared") {
            Some(EventType::FaultCleared)
        } else if str_eq(s, "remote_start") {
            Some(EventType::RemoteStart)
        } else if str_eq(s, "remote_stop") {
            Some(EventType::RemoteStop)
        } else {
            None
        }
    }
}

/// Every event type is found again by its name.
pub proof fn lemma_event_type_name_roundtrip(t: EventType)
    ensures
        event_type_named(event_type_name(t)) == Some(t),
{
    reveal_strlit("authorize");
    reveal_strlit("local_stop");
    reveal_strlit("plug");
    reveal_strlit("unplug");
    reveal_strlit("remote_start");
    reveal_strlit("remote_stop");
    reveal_strlit("communication_stop");
    reveal_strlit("communication_start");
    reveal_strlit("faulted");
    reveal_strlit("fault_cleared");
    assert("authorize"@.len() == 9);
    assert("local_stop"@.len() == 10);
    assert("plug"@.len() == 4);
    assert("unplug"@.len() == 6);
    assert("remote_start"@.len() == 12);
    assert("remote_stop"@.len() == 11);
    assert("communication_stop"@.len() == 18);
    assert("communication_start"@.len() == 19);
    assert("faulted"@.len() == 7);
    assert("fault_cleared"@.len() == 13);
    match t {
        EventType::Authorize => {},
        EventType::LocalStop => {},
        EventType::Plug => {},
        EventType::Unplug => {},
        EventType::RemoteStart => {},
        EventType::RemoteStop => {},
        EventType::CommunicationStop => {},
        EventType::CommunicationStart => {},
        EventType::Faulted => {},
        EventType::FaultCleared => {},
    }
}

/// The event that an add-event request schedules, or why it is refused. A
/// `start_transaction` or `stop_transaction` request needs no further field: it
/// starts or stops a transaction the way a remote start or stop does, on EVSE 1
/// and connector 1 where the request names none.
pub open spec fn requested_event(
    event_type: Seq<char>,
    id_tag: Option<Seq<char>>,
    evse_index: Option<u32>,
    connector_id: Option<u32>,
    connector_ids: Option<Seq<u32>>,
) -> Result<EventModel, Seq<char>> {
    let ids = match connector_ids {
        Some(v) => v,
        None => Seq::empty(),
    };
    if event_type == "start_transaction"@ {
        Ok(EventModel::RemoteStart(default_reference(evse_index, connector_id)))
    } else if event_type == "stop_transaction"@ {
        Ok(EventModel::RemoteStop(default_reference(evse_index, connector_id)))
    } else {
        named_event(event_type, id_tag, evse_index, connector_id, ids)
    }
}

/// The event of a request whose type is one of [`EventType`]'s names.
pub open spec fn named_event(
    event_type: Seq<char>,
    id_tag: Option<Seq<char>>,
    evse_index: Option<u32>,
    connector_id: Option<u32>,
    ids: Seq<u32>,
) -> Result<EventModel, Seq<char>> {
    match event_type_named(event_type) {
        Some(EventType::Authorize) => match id_tag {
            Some(t) => Ok(EventModel::Authorize(AuthorizationModel::Rfid(t))),
            None => Err("authorize event requires id_tag"@),
        },
        Some(EventType::CommunicationStart) => Ok(EventModel::CommunicationStart),
        Some(EventType::CommunicationStop) => Ok(EventModel::CommunicationStop),
        Some(EventType::LocalStop) => Ok(EventModel::LocalStop),
        Some(EventType::Plug) => match (evse_index, connector_id) {
            (Some(e), Some(c)) => Ok(EventModel::Plug(ChargeSessionReference { evse_index: e, connector_id: c })),
            _ => Err("plug event requires evse_index and connector_id"@),
        },
        Some(EventType::Unplug) => match (evse_index, connector_id) {
            (Some(e), Some(c)) => Ok(EventModel::Unplug(ChargeSessionReference { evse_index: e, connector_id: c })),
            _ => Err("unplug event requires evse_index and connector_id"@),
        },
        Some(EventType::Faulted) => Ok(EventModel::Faulted(ids)),
        Some(EventType::FaultCleared) => Ok(EventModel::FaultCleared(ids)),
        Some(EventType::RemoteStart) => Ok(EventModel::RemoteStart(default_reference(evse_index, connector_id))),
        Some(EventType::RemoteStop) => Ok(EventModel::RemoteStop(default_reference(evse_index, connector_id))),
        None => Err("unknown event type: "@ + event_type),
    }
}

/// A remote start or remote stop request schedules its event on the EVSE and the
/// connector it names; EVSE 1 and connector 1 stand only for those it leaves out.
pub proof fn lemma_remote_request_keeps_its_connector(
    id_tag: Option<Seq<char>>,
    evse_index: Option<u32>,
    connector_id: Option<u32>,
    ids: Option<Seq<u32>>,
)
    ensures
        requested_event("remote_start"@, id_tag, evse_index, connector_id, ids) matches Ok(
            EventModel::RemoteStart(r),
        ) && r.evse_index == (if evse_index is Some {
            evse_index->0
        } else {
            1u32
        }) && r.connector_id == (if connector_id is Some {
            connector_id->0
        } else {
            1u32
        }),
        requested_event("remote_stop"@, id_tag, evse_index, connector_id, ids) matches Ok(
            EventModel::RemoteStop(r),
        ) && r.evse_index == (if evse_index is Some {
            evse_index->0
        } else {
            1u32
        }) && r.connector_id == (if connector_id is Some {
            connector_id->0
        } else {
            1u32
        }),
{
    lemma_event_type_name_roundtrip(EventType::RemoteStart);
    lemma_event_type_name_roundtrip(EventType::RemoteStop);
    reveal_strlit("remote_start");
    reveal_strlit("remote_stop");
    reveal_strlit("start_transaction");
    reveal_strlit("stop_transaction");
    assert("remote_start"@.len() == 12);
    assert("remote_stop"@.len() == 11);
    assert("start_transaction"@.len() == 17);
    assert("stop_transaction"@.len() == 16);
}

/// A plug or unplug request schedules its event on the EVSE and connector it names,
/// and is refused when it leaves either out.
pub proof fn lemma_plug_request_keeps_its_connector(
    id_tag: Option<Seq<char>>,
    evse_index: Option<u32>,
    connector_id: Option<u32>,
    ids: Option<Seq<u32>>,
)
    ensures
        evse_index is Some && connector_id is Some ==> requested_event("plug"@, id_tag, evse_index, connector_id, ids)
            == Ok::<EventModel, Seq<char>>(
            EventModel::Plug(ChargeSessionReference { evse_index: evse_index->0, connector_id: connector_id->0 }),
        ),
        evse_index is Some && connector_id is Some ==> requested_event(
            "unplug"@,
            id_tag,
            evse_index,
            connector_id,
            ids,
        ) == Ok::<EventModel, Seq<char>>(
            EventModel::Unplug(ChargeSessionReference { evse_index: evse_index->0, connector_id: connector_id->0 }),
        ),
        evse_index is None || connector_id is None ==> requested_event(
            "plug"@,
            id_tag,
            evse_index,
            connector_id,
            ids,
        ) is Err && requested_event("unplug"@, id_tag, evse_index, connector_id, ids) is Err,
{
    lemma_event_type_name_roundtrip(EventType::Plug);
    lemma_event_type_name_roundtrip(EventType::Unplug);
    reveal_strlit("plug");
    reveal_strlit("unplug");
    reveal_strlit("start_transaction");
    reveal_strlit("stop_transaction");
    assert("plug"@.len() == 4);
    assert("unplug"@.len() == 6);
    assert("start_transaction"@.len() == 17);
    assert("stop_transaction"@.len() == 16);
}

/// The connector of a remote start or stop: EVSE 1 and connector 1 where none is named.
pub open spec fn default_reference(evse_index: Option<u32>, connector_id: Option<u32>) -> ChargeSessionReference {
    ChargeSessionReference {
        evse_index: match evse_index {
            Some(e) => e,
            None => 1,
        },
        connector_id: match connector_id {
            Some(c) => c,
            None => 1,
        },
    }
}

/// The model of a result that carries an event or an error message.
pub open spec fn event_kind_result_model(r: Result<EventKind, String>) -> Result<EventModel, Seq<char>> {
    match r {
        Ok(e) => Ok(e@),
        Err(m) => Err(m@),
    }
}

/// The model of an optional list of connectors.
pub open spec fn opt_ids_model(v: Option<Vec<u32>>) -> Option<Seq<u32>> {
    match v {
        Some(ids) => Some(ids@),
        None => None,
    }
}

/// The event that an add-event request schedules. The vehicle of a plug event is
/// described by the request's own figures, apart from the event.
pub fn event_from_request(
    event_type: &str,
    id_tag: Option<String>,
    evse_index: Option<u32>,
    connector_id: Option<u32>,
    connector_ids: Option<Vec<u32>>,
) -> (r: Result<EventKind, String>)
    ensures
        event_kind_result_model(r) == requested_event(
            event_type@,
            opt_text(id_tag),
            evse_index,
            connector_id,
            opt_ids_model(connector_ids),
        ),
{
    let ids = match connector_ids {
        Some(v) => v,
        None => Vec::new(),
    };
    if str_eq(event_type, "start_transaction") {
        return Ok(EventKind::RemoteStart(remote_reference(evse_index, connector_id)));
    }
    if str_eq(event_type, "stop_transaction") {
        return Ok(EventKind::RemoteStop(remote_reference(evse_index, connector_id)));
    }
    match EventType::from_name(event_type) {
        Some(EventType::Authorize) => match id_tag {
            Some(tag) => Ok(EventKind::Authorize(AuthorizationType::RFID(RFID { id_tag: tag }))),
            None => Err(String::from_str("authorize event requires id_tag")),
        },
        Some(EventType::CommunicationStart) => Ok(EventKind::CommunicationStart),
        Some(EventType::CommunicationStop) => Ok(EventKind::CommunicationStop),
        Some(EventType::LocalStop) => Ok(EventKind::LocalStop),
        Some(EventType::Plug) => match (evse_index, connector_id) {
            (Some(e), Some(c)) => Ok(EventKind::Plug(ChargeSessionReference { evse_index: e, connector_id: c })),
            _ => Err(String::from_str("plug event requires evse_index and connector_id")),
        },
        Some(EventType::Unplug) => match (evse_index, connector_id) {
            (Some(e), Some(c)) => Ok(EventKind::Unplug(ChargeSessionReference { evse_index: e, connector_id: c })),
            _ => Err(String::from_str("unplug event requires evse_index and connector_id")),
        },
        Some(EventType::Faulted) => Ok(EventKind::Faulted(ids)),
        Some(EventType::FaultCleared) => Ok(EventKind::FaultCleared(ids)),
        Some(EventType::RemoteStart) => Ok(EventKind::RemoteStart(remote_reference(evse_index, connector_id))),
        Some(EventType::RemoteStop) => Ok(EventKind::RemoteStop(remote_reference(evse_index, connector_id))),
        None => {
            let mut m = String::from_str("unknown event type: ");
            m.append(event_type);
            Err(m)
        },
    }
}

/// The connector of a remote start or stop.
fn remote_reference(evse_index: Option<u32>, connector_id: Option<u32>) -> (r: ChargeSessionReference)
    ensures
        r == default_reference(evse_index, connector_id),
{
    ChargeSessionReference {
        evse_index: match evse_index {
            Some(e) => e,
            None => 1,
        },
        connector_id: match connector_id {
            Some(c) => c,
            None => 1,
        },
    }
}

/// The connectors of an EVSE with `count` of them: 1 to `count`.
pub open spec fn numbered_connectors(count: u32) -> Seq<u32> {
    Seq::new(count as nat, |i: int| (i + 1) as u32)
}

/// Numbers the connectors of an EVSE from 1 to `count`.
pub fn evse_connector_ids(count: u32) -> (r: Vec<u32>)
    ensures
        r@ == numbered_connectors(count),
{
    let mut ids: Vec<u32> = Vec::new();
    let mut i: u32 = 0;
    while i < count
        invariant
            i <= count,
            ids@ == numbered_connectors(i),
        decreases count - i,
    {
        i = i + 1;
        ids.push(i);
        assert(ids@ =~= numbered_connectors(i));
    }
    ids
}

/// The EVSEs that the first `n` EVSE requests set up; a later request for the same
/// EVSE replaces an earlier one.
pub open spec fn requested_layout(evses: Seq<CreateCPRESTEVSERequest>, n: int) -> Map<u32, Seq<u32>>
    decreases n,
{
    if n <= 0 || n > evses.len() {
        Map::empty()
    } else {
        requested_layout(evses, n - 1).insert(evses[n - 1].evse_index, numbered_connectors(evses[n - 1].connector_count))
    }
}

/// The EVSEs of a REST-created charge point, each with its numbered connectors.
pub fn rest_evse_layout(evses: &Vec<CreateCPRESTEVSERequest>) -> (r: Vec<EvseLayout>)
    ensures
        distinct_evses(r@),
        layout_map(r@) == requested_layout(evses@, evses@.len() as int),
{
    let mut ls: Vec<EvseLayout> = Vec::new();
    let mut i: usize = 0;
    proof {
        assert(layout_map(ls@) =~= Map::empty());
    }
    while i < evses.len()
        invariant
            i <= evses@.len(),
            distinct_evses(ls@),
            layout_map(ls@) == requested_layout(evses@, i as int),
        decreases evses@.len() - i,
    {
        let e = evses[i];
        let ids = evse_connector_ids(e.connector_count);
        put_evse(&mut ls, e.evse_index, ids);
        i = i + 1;
    }
    ls
}

/// Whether `v` is the device model variable made of the REST variable `rv` of a
/// component named `component`: its OCPP 1.6 key is the one given, or the
/// component's name followed by the variable's; it is a writable string whose value
/// and default are the value given.
pub open spec fn variable_from_rest(component: Seq<char>, rv: CreateCPRESTConfigurationVariable, v: Variable) -> bool {
    &&& v.instance is None
    &&& v.name == rv.name
    &&& v.ocpp16_key matches Some(k) && k@ == match rv.ocpp16_key {
        Some(given) => given@,
        None => component + rv.name@,
    }
    &&& v.value == Some(rv.value)
    &&& v.required == match rv.required {
        Some(b) => b,
        None => false,
    }
    &&& v.attributes.mutability@ == "Writable"@
    &&& v.attributes.type_string matches Some(t) && t@ == "String"@
    &&& v.characteristics.data_type@ == "String"@
    &&& v.characteristics.unit is None
    &&& v.characteristics.values_list is None
    &&& v.characteristics.max_limit is None
    &&& v.characteristics.min_limit is None
    &&& v.used is None
    &&& v.default_value == Some(ValueType::String(rv.value))
}

/// Whether `c` is the device model component made of the REST component `rc`.
pub open spec fn component_from_rest(rc: CreateCPRESTConfigurationComponent, c: ComponentView) -> bool {
    &&& c.instance == rc.instance
    &&& c.name == rc.name
    &&& c.evse == rc.evse
    &&& c.connector == rc.connector
    &&& c.variables.len() == rc.variables@.len()
    &&& forall|j: int| 0 <= j < c.variables.len() ==> variable_from_rest(rc.name@, rc.variables@[j], #[trigger] c.variables[j])
}

/// Whether `c` is an empty top-level component named `name`.
pub open spec fn bare_component(c: ComponentView, name: Seq<char>) -> bool {
    &&& c.instance is None
    &&& c.name@ == name
    &&& c.evse is None
    &&& c.connector is None
    &&& c.variables.len() == 0
}

/// A text copy of a literal.
fn text(s: &str) -> (r: String)
    ensures
        r@ == s@,
{
    String::from_str(s)
}

/// The device model variable made of a REST variable.
fn variable_of_rest(component: &String, rv: &CreateCPRESTConfigurationVariable) -> (v: Variable)
    ensures
        variable_from_rest(component@, *rv, v),
{
    let key = match &rv.ocpp16_key {
        Some(k) => k.clone(),
        None => {
            let mut k = component.clone();
            k.append(rv.name.as_str());
            k
        },
    };
    let required = match rv.required {
        Some(b) => b,
        None => false,
    };
    Variable {
        instance: None,
        name: rv.name.clone(),
        ocpp16_key: Some(key),
        value: Some(rv.value.clone()),
        required,
        attributes: Attributes { mutability: text("Writable"), type_string: Some(text("String")) },
        characteristics: Characteristics {
            data_type: text("String"),
            unit: None,
            values_list: None,
            max_limit: None,
            min_limit: None,
        },
        used: None,
        default_value: Some(ValueType::String(rv.value.clone())),
    }
}

/// The device model component made of a REST component.
fn component_of_rest(rc: &CreateCPRESTConfigurationComponent) -> (c: Components)
    ensures
        component_from_rest(*rc, c@),
{
    let mut variables: Vec<Variable> = Vec::new();
    let mut j: usize = 0;
    while j < rc.variables.len()
        invariant
            j <= rc.variables@.len(),
            variables@.len() == j,
            forall|k: int| 0 <= k < j ==> variable_from_rest(rc.name@, rc.variables@[k], #[trigger] variables@[k]),
        decreases rc.variables@.len() - j,
    {
        let v = variable_of_rest(&rc.name, &rc.variables[j]);
        variables.push(v);
        j = j + 1;
    }
    Components {
        instance: rc.instance.clone(),
        name: rc.name.clone(),
        evse: rc.evse,
        connector: rc.connector,
        variables,
    }
}

/// The device model of a REST-created charge point: the components given, or, where
/// none are given, the empty `AlignedDataCtrlr` and `OCPPCommCtrlr` components.
pub fn variables_from_rest(configuration: &Option<Vec<CreateCPRESTConfigurationComponent>>) -> (r: GetVariableData)
    ensures
        match *configuration {
            Some(cs) => r@.len() == cs@.len() && forall|i: int|
                0 <= i < cs@.len() ==> component_from_rest(cs@[i], #[trigger] r@[i]),
            None => r@.len() == 2 && bare_component(r@[0], "AlignedDataCtrlr"@) && bare_component(
                r@[1],
                "OCPPCommCtrlr"@,
            ),
        },
{
    match configuration {
        Some(cs) => {
            let mut components: Vec<Components> = Vec::new();
            let mut i: usize = 0;
            while i < cs.len()
                invariant
                    i <= cs@.len(),
                    components@.len() == i,
                    forall|k: int| 0 <= k < i ==> component_from_rest(cs@[k], #[trigger] components@[k]@),
                decreases cs@.len() - i,
            {
                let c = component_of_rest(&cs[i]);
                components.push(c);
                i = i + 1;
            }
            let r = GetVariableData { components };
            assert forall|k: int| 0 <= k < cs@.len() implies component_from_rest(cs@[k], #[trigger] r@[k]) by {
                assert(r@[k] == r.components@[k]@);
            }
            r
        },
        None => {
            let aligned = Components {
                instance: None,
                name: text("AlignedDataCtrlr"),
                evse: None,
                connector: None,
                variables: Vec::new(),
            };
            let comm = Components {
                instance: None,
                name: text("OCPPCommCtrlr"),
                evse: None,
                connector: None,
                variables: Vec::new(),
            };
            let r = GetVariableData { components: vec![aligned, comm] };
            assert(r@[0] == r.components@[0]@);
            assert(r@[1] == r.components@[1]@);
            r
        },
    }
}

/// The identity and connection settings of a charge point.
#[derive(Clone, Debug, PartialEq, Eq)]
pub struct CPSettings {
    pub username: Option<String>,
    pub password: Option<String>,
    pub supported_protocol_versions: Option<String>,
    pub selected_protocol: Option<String>,
    pub serial: String,
    pub model: String,
    pub vendor: String,
    pub base_url: String,
}

/// The protocols that every charge point offers.
pub open spec fn supported_protocols() -> Seq<char> {
    "ocpp1.6, ocpp2.0.1"@
}

/// The central system that REST-created charge points connect to.
pub open spec fn rest_base_url() -> Seq<char> {
    "ws://127.0.0.1:8180/steve/websocket/CentralSystemService/"@
}

/// The settings of a charge point created from a REST request: the request's own,
/// with the protocol it names as the selected one.
pub fn settings_from_rest(request: &CreateCPFromRESTRequest) -> (r: CPSettings)
    ensures
        r.username == request.username,
        r.password == request.password,
        r.supported_protocol_versions matches Some(s) && s@ == supported_protocols(),
        r.selected_protocol == Some(request.protocol),
        r.serial == request.serial,
        r.model == request.model,
        r.vendor == request.vendor,
        r.base_url@ == rest_base_url(),
{
    CPSettings {
        username: request.username.clone(),
        password: request.password.clone(),
        supported_protocol_versions: Some(text("ocpp1.6, ocpp2.0.1")),
        selected_protocol: Some(request.protocol.clone()),
        serial: request.serial.clone(),
        model: request.model.clone(),
        vendor: request.vendor.clone(),
        base_url: text("ws://127.0.0.1:8180/steve/websocket/CentralSystemService/"),
    }
}

/// A given text, or a default one.
pub open spec fn text_or(t: Option<String>, default: Seq<char>) -> Seq<char> {
    match t {
        Some(s) => s@,
        None => default,
    }
}

/// The settings of a charge point created from its configuration file, where
/// `info` is the file's charge point section: what the file gives, else the serial
/// `cp_` and the charge point's number, `unknown` for model and vendor, OCPP 1.6 as
/// the protocol and no base URL.
pub fn settings_from_file(info: &Option<CPFileInfo>, cp_id: usize) -> (r: CPSettings)
    ensures
        match *info {
            Some(i) => {
                &&& r.username == i.username
                &&& r.password == i.password
                &&& r.selected_protocol matches Some(p) && p@ == text_or(i.protocol, "ocpp1.6"@)
                &&& r.serial@ == text_or(i.serial, "cp_"@ + decimal(cp_id as nat))
                &&& r.model@ == text_or(i.model, "unknown"@)
                &&& r.vendor@ == text_or(i.vendor, "unknown"@)
                &&& r.base_url@ == text_or(i.base_url, ""@)
            },
            None => {
                &&& r.username is None
                &&& r.password is None
                &&& r.selected_protocol matches Some(p) && p@ == "ocpp1.6"@
                &&& r.serial@ == "cp_"@ + decimal(cp_id as nat)
                &&& r.model@ == "unknown"@
                &&& r.vendor@ == "unknown"@
                &&& r.base_url@ == ""@
            },
        },
        r.supported_protocol_versions matches Some(s) && s@ == supported_protocols(),
{
    let empty = CPFileInfo {
        username: None,
        password: None,
        vendor: None,
        model: None,
        serial: None,
        protocol: None,
        base_url: None,
    };
    let i = match info {
        Some(i) => i,
        None => &empty,
    };
    let given_or = |t: &Option<String>, default: &str| -> (r: String)
        ensures
            r@ == text_or(*t, default@),
    {
        match t {
            Some(s) => s.clone(),
            None => String::from_str(default),
        }
    };
    let mut default_serial = String::from_str("cp_");
    default_serial.append(u64_to_decimal(cp_id as u64).as_str());
    let serial = match &i.serial {
        Some(s) => s.clone(),
        None => default_serial,
    };
    CPSettings {
        username: i.username.clone(),
        password: i.password.clone(),
        supported_protocol_versions: Some(text("ocpp1.6, ocpp2.0.1")),
        selected_protocol: Some(given_or(&i.protocol, "ocpp1.6")),
        serial,
        model: given_or(&i.model, "unknown"),
        vendor: given_or(&i.vendor, "unknown"),
        base_url: given_or(&i.base_url, ""),
    }
}

impl CreateCPResponse {
    /// The answer to creating charge point `cp_id` from its configuration files.
    pub fn from_file(cp_id: usize) -> (r: Self)
        ensures
            r.cp_id == cp_id,
            r.message@ == "CP "@ + decimal(cp_id as nat) + " created successfully from file"@,
    {
        let mut message = String::from_str("CP ");
        message.append(u64_to_decimal(cp_id as u64).as_str());
        message.append(" created successfully from file");
        CreateCPResponse { cp_id, message }
    }

    /// The answer to creating charge point `cp_id` from REST parameters.
    pub fn from_rest(cp_id: usize) -> (r: Self)
        ensures
            r.cp_id == cp_id,
            r.message@ == "CP "@ + decimal(cp_id as nat) + " created successfully from REST parameters"@,
    {
        let mut message = String::from_str("CP ");
        message.append(u64_to_decimal(cp_id as u64).as_str());
        message.append(" created successfully from REST parameters");
        CreateCPResponse { cp_id, message }
    }
}

impl CreateMultipleCPsResponse {
    /// The answer to creating the charge points `cp_ids`.
    pub fn created(cp_ids: Vec<usize>) -> (r: Self)
        ensures
            r.cp_ids@ == cp_ids@,
            r.message@ == "Created "@ + decimal(cp_ids@.len()) + " charge points successfully"@,
    {
        let mut message = String::from_str("Created ");
        message.append(u64_to_decimal(cp_ids.len() as u64).as_str());
        message.append(" charge points successfully");
        CreateMultipleCPsResponse { cp_ids, message }
    }
}

impl ErrorResponse {
    /// The answer to a request for a charge point that does not exist.
    pub fn not_found(cp_id: usize) -> (r: Self)
        ensures
            r.error@ == "Charge point not found"@,
            r.details matches Some(d) && d@ == "No charge point with ID "@ + decimal(cp_id as nat),
    {
        let mut details = String::from_str("No charge point with ID ");
        details.append(u64_to_decimal(cp_id as u64).as_str());
        ErrorResponse { error: String::from_str("Charge point not found"), details: Some(details) }
    }

    /// The answer to an event that could not be added, with the reason.
    pub fn event_refused(reason: String) -> (r: Self)
        ensures
            r.error@ == "Failed to add event"@,
            r.details == Some(reason),
    {
        ErrorResponse { error: String::from_str("Failed to add event"), details: Some(reason) }
    }
}

} // verus!
