//! The command interface: commands read from JSON text, and the events they
//! schedule.

use vstd::prelude::*;
use vstd::string::*;
use crate::cp_data::{AuthorizationType, RFID};
use crate::events::{
    AuthorizationModel, EventKind, EventModel, ScheduledEvent, ScheduledEventModel,
    event_result_model, require_reference, required_reference,
};
use crate::json::{
    JsonDocument, JsonDocumentModel, item_bool, item_number_text, item_text, item_unsigned,
    json_parse_outcome, member, member_bool, member_number_text, member_text, member_unsigned,
    parse_json,
};
use crate::text::{opt_text, str_eq};

verus! {

/// The description of the command interface that `HELP` prints.
pub const CLI_HELP_TEXT: &'static str = r#"
OCPP Charger Simulator - CLI Interface
======================================

This CLI allows creating and managing virtual charging stations for testing OCPP protocols.

COMMANDS:

1. CREATE_CHARGER
   Description: Create a new charging station/EVSE
   Required Parameters:
     - evse_id: u32 (unique identifier for EVSE, e.g., 1, 2, 3)
     - connector_id: u32 (connector ID within EVSE, usually 1-4)
     - is_ac: bool (true for AC charging, false for DC)
   
   Example JSON:
   {
     "command": "CREATE_CHARGER",
     "evse_id": 1,
     "connector_id": 1,
     "is_ac": true
   }

2. CREATE_EVENT
   Description: Create a scheduled event for testing (authorize, plug, charge, unplug, etc.)
   Required Parameters:
     - event_type: string - One of:
         * "authorize" - Trigger RFID authorization
         * "plug" - Connect EV to charger
         * "unplug" - Disconnect EV from charger
         * "remote_start" - Start charging from server
         * "remote_stop" - Stop charging from server
         * "local_stop" - Local stop request
     - duration: u32 (seconds until event occurs, 0 for immediate)
   
   Optional Parameters (for "plug" and "authorize" events):
     - evse_index: u32 (EVSE to use, required for "plug")
     - connector_id: u32 (connector to use, required for "plug")
     - id_tag: string (RFID tag ID for "authorize" events, default: "DEFAULT_TAG")
     - ev_power: f32 (EV charging power in kW, default: 7.0)
     - ev_capacity: f32 (EV battery capacity in kWh, default: 50.0)
     - ev_soc: f32 (starting State of Charge 0-100%, default: 20.0)
     - ev_final_soc: f32 (target State of Charge 0-100%, default: 80.0)
   
   Example JSON - Authorize:
   {
     "command": "CREATE_EVENT",
     "event_type": "authorize",
     "duration": 2,
     "id_tag": "MYTAG123"
   }
   
   Example JSON - Plug EV:
   {
     "command": "CREATE_EVENT",
     "event_type": "plug",
     "duration": 5,
     "evse_index": 1,
     "connector_id": 1,
     "ev_power": 7.4,
     "ev_capacity": 60.0,
     "ev_soc": 15.0,
     "ev_final_soc": 85.0
   }
   
   Example JSON - Remote Start:
   {
     "command": "CREATE_EVENT",
     "event_type": "remote_start",
     "duration": 10,
     "evse_index": 1,
     "connector_id": 1
   }

3. LIST_CHARGERS
   Description: List all configured chargers/EVSEs
   Example JSON:
   {
     "command": "LIST_CHARGERS"
   }

4. LIST_EVENTS
   Description: List all scheduled events
   Example JSON:
   {
     "command": "LIST_EVENTS"
   }

5. GET_STATUS
   Description: Get current status of charger
   Example JSON:
   {
     "command": "GET_STATUS"
   }

RESPONSE FORMAT:
All commands return JSON responses with the following structure:
{
  "success": bool,
  "message": string,
  "data": object (optional, command-specific)
}

ERROR HANDLING:
If a command fails, the response will include:
{
  "success": false,
  "message": "Error description",
  "error_code": string (optional)
}

PROTOCOL SUPPORT:
- OCPP 1.6 (StartTransaction, StopTransaction, MeterValues, etc.)
- OCPP 2.0.1 (TransactionEvent, MeterValues, GetVariables, etc.)
"#;

/// A request to create a charger: an EVSE with one connector.
#[derive(Clone, Copy, Debug, PartialEq, Eq)]
pub struct CreateChargerCommand {
    pub evse_id: u32,
    pub connector_id: u32,
    pub is_ac: bool,
}

/// A command of the command interface. The vehicle figures of a `CREATE_EVENT`
/// are kept as the text of the JSON numbers they were given as.
#[derive(Clone, Debug, PartialEq, Eq)]
pub enum CliCommand {
    CreateCharger { evse_id: u32, connector_id: u32, is_ac: bool },
    CreateEvent {
        event_type: String,
        duration: u32,
        evse_index: Option<u32>,
        connector_id: Option<u32>,
        id_tag: Option<String>,
        ev_power: Option<String>,
        ev_capacity: Option<String>,
        ev_soc: Option<String>,
        ev_final_soc: Option<String>,
    },
    ListChargers,
    ListEvents,
    GetStatus,
    Help,
}

/// The mathematical value of a [`CliCommand`].
pub enum CliCommandModel {
    CreateCharger { evse_id: u32, connector_id: u32, is_ac: bool },
    CreateEvent {
        event_type: Seq<char>,
        duration: u32,
        evse_index: Option<u32>,
        connector_id: Option<u32>,
        id_tag: Option<Seq<char>>,
        ev_power: Option<Seq<char>>,
        ev_capacity: Option<Seq<char>>,
        ev_soc: Option<Seq<char>>,
        ev_final_soc: Option<Seq<char>>,
    },
    ListChargers,
    ListEvents,
    GetStatus,
    Help,
}

impl View for CliCommand {
    type V = CliCommandModel;

    open spec fn view(&self) -> CliCommandModel {
        match self {
            CliCommand::CreateCharger { evse_id, connector_id, is_ac } => CliCommandModel::CreateCharger {
                evse_id: *evse_id,
                connector_id: *connector_id,
                is_ac: *is_ac,
            },
            CliCommand::CreateEvent {
                event_type,
                duration,
                evse_index,
                connector_id,
                id_tag,
                ev_power,
                ev_capacity,
                ev_soc,
                ev_final_soc,
            } => CliCommandModel::CreateEvent {
                event_type: event_type@,
                duration: *duration,
                evse_index: *evse_index,
                connector_id: *connector_id,
                id_tag: opt_text(*id_tag),
                ev_power: opt_text(*ev_power),
                ev_capacity: opt_text(*ev_capacity),
                ev_soc: opt_text(*ev_soc),
                ev_final_soc: opt_text(*ev_final_soc),
            },
            CliCommand::ListChargers => CliCommandModel::ListChargers,
            CliCommand::ListEvents => CliCommandModel::ListEvents,
            CliCommand::GetStatus => CliCommandModel::GetStatus,
            CliCommand::Help => CliCommandModel::Help,
        }
    }
}

/// The model of a result that carries a command or an error message.
pub open spec fn command_result_model(r: Result<CliCommand, String>) -> Result<CliCommandModel, Seq<char>> {
    match r {
        Ok(c) => Ok(c@),
        Err(m) => Err(m@),
    }
}

/// The help text of the command interface.
pub fn cli_help() -> (r: String)
    ensures
        r@ == CLI_HELP_TEXT@,
{
    String::from_str(CLI_HELP_TEXT)
}

/// A JSON number read as a `u32`: its value where it fits in a `u32`, none where
/// it is missing or too large.
pub open spec fn narrowed(v: Option<u64>) -> Option<u32> {
    match v {
        Some(x) => if x <= u32::MAX {
            Some(x as u32)
        } else {
            None
        },
        None => None,
    }
}

/// The `CREATE_CHARGER` command that a document describes.
pub open spec fn charger_command(doc: JsonDocumentModel) -> Result<CliCommandModel, Seq<char>> {
    match narrowed(item_unsigned(member(doc, "evse_id"@))) {
        None => Err("Missing or invalid evse_id"@),
        Some(e) => match narrowed(item_unsigned(member(doc, "connector_id"@))) {
            None => Err("Missing or invalid connector_id"@),
            Some(c) => match item_bool(member(doc, "is_ac"@)) {
                None => Err("Missing or invalid is_ac"@),
                Some(a) => Ok(CliCommandModel::CreateCharger { evse_id: e, connector_id: c, is_ac: a }),
            },
        },
    }
}

/// The `CREATE_EVENT` command that a document describes.
pub open spec fn event_command(doc: JsonDocumentModel) -> Result<CliCommandModel, Seq<char>> {
    match item_text(member(doc, "event_type"@)) {
        None => Err("Missing or invalid event_type"@),
        Some(t) => match narrowed(item_unsigned(member(doc, "duration"@))) {
            None => Err("Missing or invalid duration"@),
            Some(d) => Ok(CliCommandModel::CreateEvent {
                event_type: t,
                duration: d,
                evse_index: narrowed(item_unsigned(member(doc, "evse_index"@))),
                connector_id: narrowed(item_unsigned(member(doc, "connector_id"@))),
                id_tag: item_text(member(doc, "id_tag"@)),
                ev_power: item_number_text(member(doc, "ev_power"@)),
                ev_capacity: item_number_text(member(doc, "ev_capacity"@)),
                ev_soc: item_number_text(member(doc, "ev_soc"@)),
                ev_final_soc: item_number_text(member(doc, "ev_final_soc"@)),
            }),
        },
    }
}

/// The command that a parsed document describes, by its `command` member.
pub open spec fn document_command(doc: JsonDocumentModel) -> Result<CliCommandModel, Seq<char>> {
    match item_text(member(doc, "command"@)) {
        None => Err("Missing 'command' field"@),
        Some(c) => if c == "CREATE_CHARGER"@ {
            charger_command(doc)
        } else if c == "CREATE_EVENT"@ {
            event_command(doc)
        } else if c == "LIST_CHARGERS"@ {
            Ok(CliCommandModel::ListChargers)
        } else if c == "LIST_EVENTS"@ {
            Ok(CliCommandModel::ListEvents)
        } else if c == "GET_STATUS"@ {
            Ok(CliCommandModel::GetStatus)
        } else if c == "HELP"@ {
            Ok(CliCommandModel::Help)
        } else {
            Err("Unknown command: "@ + c)
        },
    }
}

/// The command that a JSON text describes.
pub open spec fn text_command(outcome: Result<JsonDocumentModel, Seq<char>>) -> Result<CliCommandModel, Seq<char>> {
    match outcome {
        Ok(doc) => document_command(doc),
        Err(e) => Err("Invalid JSON: "@ + e),
    }
}

/// A member that must be a JSON number that fits in a `u32`, or the message that
/// names it.
fn required_unsigned(doc: &JsonDocument, key: &str, message: &str) -> (r: Result<u32, String>)
    ensures
        match narrowed(item_unsigned(member(doc@, key@))) {
            Some(v) => r == Ok::<u32, String>(v),
            None => r matches Err(m) && m@ == message@,
        },
{
    match optional_unsigned(doc, key) {
        Some(v) => Ok(v),
        None => Err(String::from_str(message)),
    }
}

/// Reads the `CREATE_CHARGER` command of a document.
fn charger_from_document(doc: &JsonDocument) -> (r: Result<CliCommand, String>)
    ensures
        command_result_model(r) == charger_command(doc@),
{
    let evse_id = match required_unsigned(doc, "evse_id", "Missing or invalid evse_id") {
        Ok(v) => v,
        Err(m) => return Err(m),
    };
    let connector_id = match required_unsigned(doc, "connector_id", "Missing or invalid connector_id") {
        Ok(v) => v,
        Err(m) => return Err(m),
    };
    match member_bool(doc, "is_ac") {
        Some(is_ac) => Ok(CliCommand::CreateCharger { evse_id, connector_id, is_ac }),
        None => Err(String::from_str("Missing or invalid is_ac")),
    }
}

/// An optional member read as a `u32`.
fn optional_unsigned(doc: &JsonDocument, key: &str) -> (r: Option<u32>)
    ensures
        r == narrowed(item_unsigned(member(doc@, key@))),
{
    match member_unsigned(doc, key) {
        Some(v) => if v <= 0xffff_ffffu64 {
            Some(v as u32)
        } else {
            None
        },
        None => None,
    }
}

/// Reads the `CREATE_EVENT` command of a document.
fn event_from_document(doc: &JsonDocument) -> (r: Result<CliCommand, String>)
    ensures
        command_result_model(r) == event_command(doc@),
{
    let event_type = match member_text(doc, "event_type") {
        Some(t) => t,
        None => return Err(String::from_str("Missing or invalid event_type")),
    };
    let duration = match required_unsigned(doc, "duration", "Missing or invalid duration") {
        Ok(v) => v,
        Err(m) => return Err(m),
    };
    let evse_index = optional_unsigned(doc, "evse_index");
    let connector_id = optional_unsigned(doc, "connector_id");
    let id_tag = member_text(doc, "id_tag");
    let ev_power = member_number_text(doc, "ev_power");
    let ev_capacity = member_number_text(doc, "ev_capacity");
    let ev_soc = member_number_text(doc, "ev_soc");
    let ev_final_soc = member_number_text(doc, "ev_final_soc");
    Ok(CliCommand::CreateEvent {
        event_type,
        duration,
        evse_index,
        connector_id,
        id_tag,
        ev_power,
        ev_capacity,
        ev_soc,
        ev_final_soc,
    })
}

/// Reads a command from a parsed JSON document.
pub fn parse_command_document(doc: &JsonDocument) -> (r: Result<CliCommand, String>)
    ensures
        command_result_model(r) == document_command(doc@),
{
    let command = match member_text(doc, "command") {
        Some(c) => c,
        None => return Err(String::from_str("Missing 'command' field")),
    };
    let c = command.as_str();
    if str_eq(c, "CREATE_CHARGER") {
        charger_from_document(doc)
    } else if str_eq(c, "CREATE_EVENT") {
        event_from_document(doc)
    } else if str_eq(c, "LIST_CHARGERS") {
        Ok(CliCommand::ListChargers)
    } else if str_eq(c, "LIST_EVENTS") {
        Ok(CliCommand::ListEvents)
    } else if str_eq(c, "GET_STATUS") {
        Ok(CliCommand::GetStatus)
    } else if str_eq(c, "HELP") {
        Ok(CliCommand::Help)
    } else {
        let mut m = String::from_str("Unknown command: ");
        m.append(c);
        Err(m)
    }
}

/// Reads a command from JSON text.
pub fn parse_command(json_str: &str) -> (r: Result<CliCommand, String>)
    ensures
        command_result_model(r) == text_command(json_parse_outcome(json_str@)),
{
    match parse_json(json_str) {
        Ok(doc) => parse_command_document(&doc),
        Err(e) => {
            let mut m = String::from_str("Invalid JSON: ");
            m.append(e.as_str());
            Err(m)
        },
    }
}

/// The event that a `CREATE_EVENT` command schedules.
pub open spec fn command_event(cmd: CliCommandModel) -> Result<ScheduledEventModel, Seq<char>> {
    match cmd {
        CliCommandModel::CreateEvent { event_type, duration, evse_index, connector_id, id_tag, .. } => {
            let scheduled = |e: EventModel| ScheduledEventModel { duration, event: e };
            if event_type == "authorize"@ {
                let tag = match id_tag {
                    Some(t) => t,
                    None => "DEFAULT_TAG"@,
                };
                Ok(scheduled(EventModel::Authorize(AuthorizationModel::Rfid(tag))))
            } else if event_type == "plug"@ {
                match required_reference(evse_index, connector_id, "plug"@) {
                    Ok(r) => Ok(scheduled(EventModel::Plug(r))),
                    Err(m) => Err(m),
                }
            } else if event_type == "unplug"@ {
                match required_reference(evse_index, connector_id, "unplug"@) {
                    Ok(r) => Ok(scheduled(EventModel::Unplug(r))),
                    Err(m) => Err(m),
                }
            } else if event_type == "remote_start"@ {
                match required_reference(evse_index, connector_id, "remote_start"@) {
                    Ok(r) => Ok(scheduled(EventModel::RemoteStart(r))),
                    Err(m) => Err(m),
                }
            } else if event_type == "remote_stop"@ {
                match required_reference(evse_index, connector_id, "remote_stop"@) {
                    Ok(r) => Ok(scheduled(EventModel::RemoteStop(r))),
                    Err(m) => Err(m),
                }
            } else if event_type == "local_stop"@ {
                Ok(scheduled(EventModel::LocalStop))
            } else {
                Err("Unknown event type: "@ + event_type
                    + ". Valid types: authorize, plug, unplug, remote_start, remote_stop, local_stop"@)
            }
        },
        _ => Err("Command is not a CREATE_EVENT"@),
    }
}

/// Builds the event that a `CREATE_EVENT` command schedules. The vehicle of a plug
/// event is described by the command's own figures, apart from the event.
pub fn build_event_from_command(cmd: &CliCommand) -> (r: Result<ScheduledEvent, String>)
    ensures
        event_result_model(r) == command_event(cmd@),
{
    match cmd {
        CliCommand::CreateEvent { event_type, duration, evse_index, connector_id, id_tag, .. } => {
            let t = event_type.as_str();
            let event = if str_eq(t, "authorize") {
                let tag = match id_tag {
                    Some(s) => s.clone(),
                    None => String::from_str("DEFAULT_TAG"),
                };
                EventKind::Authorize(AuthorizationType::RFID(RFID { id_tag: tag }))
            } else if str_eq(t, "plug") {
                match require_reference(*evse_index, *connector_id, "plug") {
                    Ok(r) => EventKind::Plug(r),
                    Err(m) => return Err(m),
                }
            } else if str_eq(t, "unplug") {
                match require_reference(*evse_index, *connector_id, "unplug") {
                    Ok(r) => EventKind::Unplug(r),
                    Err(m) => return Err(m),
                }
            } else if str_eq(t, "remote_start") {
                match require_reference(*evse_index, *connector_id, "remote_start") {
                    Ok(r) => EventKind::RemoteStart(r),
                    Err(m) => return Err(m),
                }
            } else if str_eq(t, "remote_stop") {
                match require_reference(*evse_index, *connector_id, "remote_stop") {
                    Ok(r) => EventKind::RemoteStop(r),
                    Err(m) => return Err(m),
                }
            } else if str_eq(t, "local_stop") {
                EventKind::LocalStop
            } else {
                let mut m = String::from_str("Unknown event type: ");
                m.append(t);
                m.append(". Valid types: authorize, plug, unplug, remote_start, remote_stop, local_stop");
                return Err(m);
            };
            Ok(ScheduledEvent { duration: *duration, event })
        },
        _ => Err(String::from_str("Command is not a CREATE_EVENT")),
    }
}

} // verus!
