//! What a charge point says to its central system: which protocol it speaks, which
//! identifiers it authorizes with, which status it reports, and which EVSE a remote
//! start or stop is for.

use vstd::prelude::*;
use vstd::string::*;
use crate::charging::contains_u32;
use crate::cp_data::{AuthorizationType, MessageReference};
use crate::text::{before_first, lemma_split_on_nonempty, split_on, split_text, str_eq, trimmed};

verus! {

/// The OCPP versions that a charge point can speak.
#[derive(Clone, Copy, Debug, PartialEq, Eq)]
pub enum ProtocolVersion {
    Ocpp1_6,
    Ocpp2_0_1,
}

/// The protocol a charge point connects with: the one selected, else the first of
/// the comma-separated supported ones (OCPP 1.6 when none are listed), trimmed.
pub open spec fn chosen_protocol(selected: Option<String>, supported: Option<String>) -> Seq<char> {
    match selected {
        Some(p) => p@,
        None => trimmed(
            before_first(
                match supported {
                    Some(s) => s@,
                    None => "ocpp1.6"@,
                },
                ',',
            ),
        ),
    }
}

/// The protocol name a charge point connects with.
pub fn select_protocol(selected: &Option<String>, supported: &Option<String>) -> (r: String)
    ensures
        r@ == chosen_protocol(*selected, *supported),
{
    match selected {
        Some(p) => p.clone(),
        None => {
            let list = match supported {
                Some(s) => s.clone(),
                None => "ocpp1.6".to_owned(),
            };
            let pieces = split_text(list.as_str(), ',');
            proof {
                lemma_split_on_nonempty(list@, ',');
                assert(pieces@.map_values(|p: String| p@)[0] == pieces@[0]@);
            }
            pieces[0].as_str().trim().to_owned()
        },
    }
}

/// A selected protocol is the one a charge point connects with, whatever protocols
/// it lists as supported.
pub proof fn lemma_selected_protocol_wins(p: String, supported: Option<String>)
    ensures
        chosen_protocol(Some(p), supported) == p@,
{
}

/// The protocol version that a protocol name stands for.
pub open spec fn version_named(name: Seq<char>) -> Option<ProtocolVersion> {
    if name == "ocpp1.6"@ {
        Some(ProtocolVersion::Ocpp1_6)
    } else if name == "ocpp2.0.1"@ {
        Some(ProtocolVersion::Ocpp2_0_1)
    } else {
        None
    }
}

/// The protocol version that a protocol name stands for, if it is one the charge
/// point speaks.
pub fn protocol_version(name: &str) -> (r: Option<ProtocolVersion>)
    ensures
        r == version_named(name@),
{
    if str_eq(name, "ocpp1.6") {
        Some(ProtocolVersion::Ocpp1_6)
    } else if str_eq(name, "ocpp2.0.1") {
        Some(ProtocolVersion::Ocpp2_0_1)
    } else {
        None
    }
}

/// The address a charge point connects to: the central system's base address
/// followed by the charge point's serial number.
pub fn connection_address(base_url: &str, serial: &str) -> (r: String)
    ensures
        r@ == base_url@ + serial@,
{
    let mut out = base_url.to_owned();
    out.append(serial);
    out
}

/// The id tag that an OCPP 1.6 Authorize request carries: only RFID cards are sent.
pub fn authorize_id_tag(authorization: &AuthorizationType) -> (r: Option<String>)
    ensures
        match *authorization {
            AuthorizationType::RFID(rfid) => r == Some(rfid.id_tag),
            _ => r is None,
        },
{
    match authorization {
        AuthorizationType::RFID(rfid) => Some(rfid.id_tag.clone()),
        _ => None,
    }
}

/// The id tag that an OCPP 1.6 StartTransaction carries: that of an RFID card or of
/// a remote start; other authorizations cannot start a transaction.
pub fn start_transaction_id_tag(authorization: &Option<AuthorizationType>) -> (r: Result<String, String>)
    ensures
        match *authorization {
            Some(AuthorizationType::RFID(rfid)) => r == Ok::<String, String>(rfid.id_tag),
            Some(AuthorizationType::Remote(rfid)) => r == Ok::<String, String>(rfid.id_tag),
            _ => r matches Err(m) && m@ == "StartTransaction requires RFID authorization"@,
        },
{
    match authorization {
        Some(AuthorizationType::RFID(rfid)) => Ok(rfid.id_tag.clone()),
        Some(AuthorizationType::Remote(rfid)) => Ok(rfid.id_tag.clone()),
        _ => Err("StartTransaction requires RFID authorization".to_owned()),
    }
}

/// The kinds of OCPP 2.0.1 id tokens that a charge point sends.
#[derive(Clone, Copy, Debug, PartialEq, Eq)]
pub enum IdTokenKind {
    ISO15693,
    EMAID,
}

/// The OCPP 2.0.1 id token for an authorization: an RFID card or a remote start by
/// its tag, plug and charge by a fixed token.
pub fn authorize_id_token(authorization: &AuthorizationType) -> (r: (String, IdTokenKind))
    ensures
        match *authorization {
            AuthorizationType::RFID(rfid) => r.0 == rfid.id_tag && r.1 == IdTokenKind::ISO15693,
            AuthorizationType::Remote(rfid) => r.0 == rfid.id_tag && r.1 == IdTokenKind::ISO15693,
            AuthorizationType::PlugAndCharge(_) => r.0@ == "PlugAndChargeToken"@ && r.1
                == IdTokenKind::EMAID,
        },
{
    match authorization {
        AuthorizationType::RFID(rfid) => (rfid.id_tag.clone(), IdTokenKind::ISO15693),
        AuthorizationType::Remote(rfid) => (rfid.id_tag.clone(), IdTokenKind::ISO15693),
        AuthorizationType::PlugAndCharge(_) => ("PlugAndChargeToken".to_owned(), IdTokenKind::EMAID),
    }
}

/// The scheduled event whose authorization an accepted Authorize answer confirms:
/// the one the request referred to by index, when the answer is an acceptance.
pub fn authorized_event_index(accepted: bool, reference: &Option<MessageReference>) -> (r: Option<usize>)
    ensures
        r == (match *reference {
            Some(MessageReference::EventIndex(i)) => if accepted {
                Some(i)
            } else {
                None
            },
            _ => None,
        }),
{
    match reference {
        Some(MessageReference::EventIndex(i)) => if accepted {
            Some(*i)
        } else {
            None
        },
        _ => None,
    }
}

/// The statuses that a connector reports.
#[derive(Clone, Copy, Debug, PartialEq, Eq)]
pub enum ChargePointStatusKind {
    Available,
    Preparing,
    Charging,
    SuspendedEVSE,
    SuspendedEV,
    Finishing,
    Reserved,
    Unavailable,
    Faulted,
}

/// The status that a status name reports; unknown names report `Available`.
pub open spec fn status_named(name: Seq<char>) -> ChargePointStatusKind {
    if name == "Available"@ {
        ChargePointStatusKind::Available
    } else if name == "Preparing"@ {
        ChargePointStatusKind::Preparing
    } else if name == "Charging"@ {
        ChargePointStatusKind::Charging
    } else if name == "SuspendedEVSE"@ {
        ChargePointStatusKind::SuspendedEVSE
    } else if name == "SuspendedEV"@ {
        ChargePointStatusKind::SuspendedEV
    } else if name == "Finishing"@ {
        ChargePointStatusKind::Finishing
    } else if name == "Reserved"@ {
        ChargePointStatusKind::Reserved
    } else if name == "Unavailable"@ {
        ChargePointStatusKind::Unavailable
    } else if name == "Faulted"@ {
        ChargePointStatusKind::Faulted
    } else {
        ChargePointStatusKind::Available
    }
}

/// The status that a status name reports in a StatusNotification.
pub fn charge_point_status(name: &str) -> (r: ChargePointStatusKind)
    ensures
        r == status_named(name@),
{
    if str_eq(name, "Available") {
        ChargePointStatusKind::Available
    } else if str_eq(name, "Preparing") {
        ChargePointStatusKind::Preparing
    } else if str_eq(name, "Charging") {
        ChargePointStatusKind::Charging
    } else if str_eq(name, "SuspendedEVSE") {
        ChargePointStatusKind::SuspendedEVSE
    } else if str_eq(name, "SuspendedEV") {
        ChargePointStatusKind::SuspendedEV
    } else if str_eq(name, "Finishing") {
        ChargePointStatusKind::Finishing
    } else if str_eq(name, "Reserved") {
        ChargePointStatusKind::Reserved
    } else if str_eq(name, "Unavailable") {
        ChargePointStatusKind::Unavailable
    } else if str_eq(name, "Faulted") {
        ChargePointStatusKind::Faulted
    } else {
        ChargePointStatusKind::Available
    }
}

/// What a remote request needs to know of one EVSE.
#[derive(Clone, Debug, PartialEq, Eq)]
pub struct EvseSnapshot {
    pub evse_index: u32,
    pub connector_ids: Vec<u32>,
    pub plugged_in: Option<u32>,
    pub status: String,
}

/// Whether an EVSE could take a remote start without a named connector: a vehicle
/// is plugged in and it is not charging.
pub open spec fn ready_for_remote_start(e: EvseSnapshot) -> bool {
    e.plugged_in is Some && e.status@ != "Charging"@
}

/// The position of the first EVSE from `i` on that has connector `c`.
pub open spec fn first_with_connector_from(evses: Seq<EvseSnapshot>, c: u32, i: int) -> Option<int>
    decreases evses.len() - i,
{
    if i < 0 || i >= evses.len() {
        None
    } else if evses[i].connector_ids@.contains(c) {
        Some(i)
    } else {
        first_with_connector_from(evses, c, i + 1)
    }
}

/// The positions, from `i` on, of the EVSEs ready for a remote start.
pub open spec fn ready_from(evses: Seq<EvseSnapshot>, i: int) -> Seq<int>
    decreases evses.len() - i,
{
    if i < 0 || i >= evses.len() {
        Seq::empty()
    } else if ready_for_remote_start(evses[i]) {
        seq![i] + ready_from(evses, i + 1)
    } else {
        ready_from(evses, i + 1)
    }
}

/// The EVSE that a remote start is for: the first EVSE with the named connector; with
/// no connector named, the only EVSE unless it is charging, or among several the one
/// EVSE ready for it when there is exactly one.
pub open spec fn remote_start_target(connector: Option<u32>, evses: Seq<EvseSnapshot>) -> Option<u32> {
    match connector {
        Some(c) => match first_with_connector_from(evses, c, 0) {
            Some(i) => Some(evses[i].evse_index),
            None => None,
        },
        None => if evses.len() == 1 {
            if evses[0].status@ != "Charging"@ {
                Some(evses[0].evse_index)
            } else {
                None
            }
        } else if ready_from(evses, 0).len() == 1 {
            Some(evses[ready_from(evses, 0)[0]].evse_index)
        } else {
            None
        },
    }
}

proof fn lemma_ready_from_bounds(evses: Seq<EvseSnapshot>, i: int)
    requires
        0 <= i,
    ensures
        forall|k: int| 0 <= k < ready_from(evses, i).len() ==> i <= #[trigger] ready_from(evses, i)[k] < evses.len(),
    decreases evses.len() - i,
{
    if i < evses.len() {
        lemma_ready_from_bounds(evses, i + 1);
        let rest = ready_from(evses, i + 1);
        if ready_for_remote_start(evses[i]) {
            assert forall|k: int| 0 <= k < ready_from(evses, i).len() implies i <= #[trigger] ready_from(
                evses,
                i,
            )[k] < evses.len() by {
                if k > 0 {
                    assert(ready_from(evses, i)[k] == rest[k - 1]);
                }
            }
        }
    }
}

proof fn lemma_ready_from_none(evses: Seq<EvseSnapshot>, i: int)
    requires
        0 <= i,
        forall|k: int| i <= k < evses.len() ==> (#[trigger] evses[k]).plugged_in is None || evses[k].status@ == "Charging"@,
    ensures
        ready_from(evses, i).len() == 0,
    decreases evses.len() - i,
{
    if i < evses.len() {
        lemma_ready_from_none(evses, i + 1);
    }
}

proof fn lemma_ready_from_single(evses: Seq<EvseSnapshot>, i: int, j: int)
    requires
        0 <= i <= j < evses.len(),
        evses[j].plugged_in is Some,
        evses[j].status@ != "Charging"@,
        forall|k: int|
            i <= k < evses.len() && k != j ==> (#[trigger] evses[k]).plugged_in is None || evses[k].status@
                == "Charging"@,
    ensures
        ready_from(evses, i) == seq![j],
    decreases j - i,
{
    if i < j {
        lemma_ready_from_single(evses, i + 1, j);
    } else {
        lemma_ready_from_none(evses, j + 1);
        assert(ready_from(evses, j) =~= seq![j] + ready_from(evses, j + 1));
    }
}

proof fn lemma_ready_from_ready(evses: Seq<EvseSnapshot>, i: int)
    requires
        0 <= i,
    ensures
        forall|k: int|
            0 <= k < ready_from(evses, i).len() ==> (#[trigger] evses[ready_from(evses, i)[k]]).plugged_in is Some
                && evses[ready_from(evses, i)[k]].status@ != "Charging"@,
    decreases evses.len() - i,
{
    if i < evses.len() {
        lemma_ready_from_ready(evses, i + 1);
        let rest = ready_from(evses, i + 1);
        if ready_for_remote_start(evses[i]) {
            assert forall|k: int| 0 <= k < ready_from(evses, i).len() implies (#[trigger] evses[ready_from(
                evses,
                i,
            )[k]]).plugged_in is Some && evses[ready_from(evses, i)[k]].status@ != "Charging"@ by {
                if k > 0 {
                    assert(ready_from(evses, i)[k] == rest[k - 1]);
                }
            }
        }
    }
}

/// A remote start that names no connector, with several EVSEs, goes to the one EVSE
/// that has a vehicle plugged in and is not charging, whatever the charging EVSEs
/// are; and whatever EVSE such a remote start goes to has a vehicle plugged in and
/// is not charging.
pub proof fn lemma_remote_start_picks_ready_evse(evses: Seq<EvseSnapshot>, j: int)
    requires
        evses.len() > 1,
    ensures
        0 <= j < evses.len() && evses[j].plugged_in is Some && evses[j].status@ != "Charging"@ && (forall|k: int|
            0 <= k < evses.len() && k != j ==> (#[trigger] evses[k]).plugged_in is None || evses[k].status@
                == "Charging"@) ==> remote_start_target(None, evses) == Some(evses[j].evse_index),
        remote_start_target(None, evses) matches Some(x) ==> exists|k: int|
            0 <= k < evses.len() && (#[trigger] evses[k]).evse_index == x && evses[k].plugged_in is Some
                && evses[k].status@ != "Charging"@,
{
    if 0 <= j < evses.len() && evses[j].plugged_in is Some && evses[j].status@ != "Charging"@ && (forall|k: int|
        0 <= k < evses.len() && k != j ==> (#[trigger] evses[k]).plugged_in is None || evses[k].status@
            == "Charging"@) {
        lemma_ready_from_single(evses, 0, j);
    }
    lemma_ready_from_ready(evses, 0);
    lemma_ready_from_bounds(evses, 0);
    if let Some(x) = remote_start_target(None, evses) {
        let p = ready_from(evses, 0)[0];
        assert(evses[p].plugged_in is Some);
    }
}

proof fn lemma_first_with_connector(evses: Seq<EvseSnapshot>, c: u32, i: int)
    requires
        0 <= i,
    ensures
        first_with_connector_from(evses, c, i) matches Some(k) ==> i <= k < evses.len()
            && evses[k].connector_ids@.contains(c) && forall|l: int|
            i <= l < k ==> !(#[trigger] evses[l]).connector_ids@.contains(c),
        first_with_connector_from(evses, c, i) is None ==> forall|l: int|
            i <= l < evses.len() ==> !(#[trigger] evses[l]).connector_ids@.contains(c),
    decreases evses.len() - i,
{
    if i < evses.len() && !evses[i].connector_ids@.contains(c) {
        lemma_first_with_connector(evses, c, i + 1);
    }
}

/// A remote start that names a connector goes to the first EVSE that has that
/// connector, whatever the EVSEs' vehicles and statuses, and is refused only when
/// no EVSE has it.
pub proof fn lemma_remote_start_follows_connector(evses: Seq<EvseSnapshot>, c: u32)
    ensures
        remote_start_target(Some(c), evses) matches Some(x) ==> exists|k: int|
            0 <= k < evses.len() && (#[trigger] evses[k]).evse_index == x && evses[k].connector_ids@.contains(c)
                && forall|l: int| 0 <= l < k ==> !(#[trigger] evses[l]).connector_ids@.contains(c),
        remote_start_target(Some(c), evses) is None <==> forall|l: int|
            0 <= l < evses.len() ==> !(#[trigger] evses[l]).connector_ids@.contains(c),
{
    lemma_first_with_connector(evses, c, 0);
    if let Some(k) = first_with_connector_from(evses, c, 0) {
        assert(evses[k].connector_ids@.contains(c));
    }
}

/// Chooses the EVSE that a remote start is for, from the EVSEs in the order given.
pub fn remote_start_evse(connector: Option<u32>, evses: &Vec<EvseSnapshot>) -> (r: Option<u32>)
    ensures
        r == remote_start_target(connector, evses@),
{
    match connector {
        Some(c) => {
            let mut i: usize = 0;
            while i < evses.len()
                invariant
                    0 <= i <= evses@.len(),
                    connector == Some(c),
                    first_with_connector_from(evses@, c, 0) == first_with_connector_from(evses@, c, i as int),
                decreases evses@.len() - i,
            {
                if contains_u32(&evses[i].connector_ids, c) {
                    assert(first_with_connector_from(evses@, c, i as int) == Some(i as int));
                    return Some(evses[i].evse_index);
                }
                i = i + 1;
            }
            None
        },
        None => {
            if evses.len() == 1 {
                if !str_eq(evses[0].status.as_str(), "Charging") {
                    Some(evses[0].evse_index)
                } else {
                    None
                }
            } else {
                let mut i: usize = evses.len();
                let mut count: usize = 0;
                let mut first: u32 = 0;
                while i > 0
                    invariant
                        0 <= i <= evses@.len(),
                        connector is None,
                        evses@.len() != 1,
                        evses@.len() == evses.len(),
                        count as int == ready_from(evses@, i as int).len(),
                        count > 0 ==> first == evses@[ready_from(evses@, i as int)[0]].evse_index,
                        count <= evses@.len() - i,
                    decreases i,
                {
                    i = i - 1;
                    let e = &evses[i];
                    proof {
                        lemma_ready_from_bounds(evses@, i as int + 1);
                    }
                    assert(count < evses@.len());
                    if e.plugged_in.is_some() && !str_eq(e.status.as_str(), "Charging") {
                        assert(ready_from(evses@, i as int) == seq![i as int] + ready_from(evses@, i as int + 1));
                        assert(ready_from(evses@, i as int)[0] == i as int);
                        first = e.evse_index;
                        count = count + 1;
                    }
                }
                if count == 1 {
                    Some(first)
                } else {
                    None
                }
            }
        },
    }
}

/// The position of the first charging EVSE from `i` on.
pub open spec fn first_charging_from(evses: Seq<EvseSnapshot>, i: int) -> Option<int>
    decreases evses.len() - i,
{
    if i < 0 || i >= evses.len() {
        None
    } else if evses[i].status@ == "Charging"@ {
        Some(i)
    } else {
        first_charging_from(evses, i + 1)
    }
}

/// The EVSE that a remote stop is for: the first one that is charging.
pub fn remote_stop_evse(evses: &Vec<EvseSnapshot>) -> (r: Option<u32>)
    ensures
        r == (match first_charging_from(evses@, 0) {
            Some(i) => Some(evses@[i].evse_index),
            None => None,
        }),
{
    let mut i: usize = 0;
    while i < evses.len()
        invariant
            0 <= i <= evses@.len(),
            first_charging_from(evses@, 0) == first_charging_from(evses@, i as int),
        decreases evses@.len() - i,
    {
        if str_eq(evses[i].status.as_str(), "Charging") {
            return Some(evses[i].evse_index);
        }
        i = i + 1;
    }
    None
}

} // verus!
