//! The decisions of a charge point: when charging starts and stops, how faults are
//! set and cleared, which EVSEs the device model defines, which protocol to speak,
//! and which EVSE a remote request is for.

use vstd::prelude::*;
use vstd::string::*;
use crate::cp_data::{AuthorizationType, ComponentView, GetVariableData, MessageReference};
use crate::text::{before_first, split_text, str_eq, trimmed, split_on};

verus! {

/// The connector that charging starts on, when it may start: the session is
/// authorized, a vehicle is plugged in, charging has not started, and the connector
/// is not among the faulted connectors.
pub open spec fn start_connector(
    authorized: bool,
    plugged_in: Option<u32>,
    started: bool,
    faulted: Seq<u32>,
) -> Option<u32> {
    let connector = match plugged_in {
        Some(c) => c,
        None => 1u32,
    };
    let is_faulted = faulted.contains(connector);
    if authorized && plugged_in is Some && !started && !is_faulted {
        Some(connector)
    } else {
        None
    }
}

/// A vehicle plugged into a connector that is anywhere among the faulted
/// connectors never starts charging, whatever else holds; on a connector that is
/// not faulted, an authorized session starts charging on the plugged connector
/// unless it is already charging.
pub proof fn lemma_faulted_connector_blocks_start(
    authorized: bool,
    c: u32,
    started: bool,
    faulted: Seq<u32>,
    k: int,
)
    ensures
        faulted.contains(c) ==> start_connector(authorized, Some(c), started, faulted) is None,
        0 <= k < faulted.len() && faulted[k] == c ==> start_connector(authorized, Some(c), started, faulted)
            is None,
        !faulted.contains(c) && authorized && !started ==> start_connector(authorized, Some(c), started, faulted)
            == Some(c),
        start_connector(authorized, None, started, faulted) is None,
{
    if 0 <= k < faulted.len() && faulted[k] == c {
        assert(faulted.contains(c));
    }
}

/// Whether `v` holds `x`.
pub fn contains_u32(v: &Vec<u32>, x: u32) -> (r: bool)
    ensures
        r == v@.contains(x),
{
    let mut i: usize = 0;
    while i < v.len()
        invariant
            0 <= i <= v@.len(),
            forall|k: int| 0 <= k < i ==> v@[k] != x,
        decreases v@.len() - i,
    {
        if v[i] == x {
            assert(v@[i as int] == x);
            return true;
        }
        i = i + 1;
    }
    false
}

/// Decides whether charging starts on an EVSE, and on which connector.
pub fn charging_start_connector(
    authorized: bool,
    plugged_in: Option<u32>,
    started: bool,
    faulted_connectors: &Vec<u32>,
) -> (r: Option<u32>)
    ensures
        r == start_connector(authorized, plugged_in, started, faulted_connectors@),
{
    let connector = match plugged_in {
        Some(c) => c,
        None => 1,
    };
    let is_faulted = contains_u32(faulted_connectors, connector);
    if authorized && plugged_in.is_some() && !started && !is_faulted {
        Some(connector)
    } else {
        None
    }
}

/// The connector that a stop reports when charging was going on: the plugged-in
/// connector, or 0.
pub fn charging_stop_connector(started: bool, plugged_in: Option<u32>) -> (r: Option<u32>)
    ensures
        r == (if started {
            Some(
                match plugged_in {
                    Some(c) => c,
                    None => 0u32,
                },
            )
        } else {
            None
        }),
{
    if started {
        Some(
            match plugged_in {
                Some(c) => c,
                None => 0,
            },
        )
    } else {
        None
    }
}

/// The faulted connectors after the first `n` of `ids` are faulted: each one not
/// already faulted is added at the end.
pub open spec fn faults_added(faulted: Seq<u32>, ids: Seq<u32>, n: int) -> Seq<u32>
    decreases n,
{
    if n <= 0 || n > ids.len() {
        faulted
    } else {
        let before = faults_added(faulted, ids, n - 1);
        if before.contains(ids[n - 1]) {
            before
        } else {
            before.push(ids[n - 1])
        }
    }
}

/// The faulted connectors after a fault on `ids`: all of the EVSE's connectors when
/// `ids` is empty, else the former ones with each of `ids` added once.
pub open spec fn after_fault(faulted: Seq<u32>, ids: Seq<u32>, connectors: Seq<u32>) -> Seq<u32> {
    if ids.len() == 0 {
        connectors
    } else {
        faults_added(faulted, ids, ids.len() as int)
    }
}

/// The faulted connectors after the faults on `ids` clear: none when `ids` is empty,
/// else the former ones that are not in `ids`, in order.
pub open spec fn after_fault_cleared(faulted: Seq<u32>, ids: Seq<u32>) -> Seq<u32> {
    if ids.len() == 0 {
        Seq::empty()
    } else {
        faulted.filter(absent_from(ids))
    }
}

/// The predicate of connectors not in `ids`.
pub open spec fn absent_from(ids: Seq<u32>) -> spec_fn(u32) -> bool {
    |c: u32| !ids.contains(c)
}

/// Marks connectors of an EVSE as faulted: all of `connectors` when `ids` is empty,
/// otherwise each of `ids` that is not faulted yet.
pub fn apply_fault(faulted: &mut Vec<u32>, ids: &Vec<u32>, connectors: &Vec<u32>)
    ensures
        final(faulted)@ == after_fault(old(faulted)@, ids@, connectors@),
{
    if ids.len() == 0 {
        *faulted = connectors.clone();
        return ;
    }
    let mut k: usize = 0;
    while k < ids.len()
        invariant
            0 <= k <= ids@.len(),
            ids@.len() > 0,
            faulted@ == faults_added(old(faulted)@, ids@, k as int),
        decreases ids@.len() - k,
    {
        let id = ids[k];
        if !contains_u32(faulted, id) {
            faulted.push(id);
        }
        k = k + 1;
    }
}

/// Clears faults on connectors of an EVSE: on all of them when `ids` is empty,
/// otherwise on each of `ids`.
pub fn clear_fault(faulted: &mut Vec<u32>, ids: &Vec<u32>)
    ensures
        final(faulted)@ == after_fault_cleared(old(faulted)@, ids@),
{
    if ids.len() == 0 {
        faulted.clear();
        return ;
    }
    let ghost orig = faulted@;
    let ghost keep = absent_from(ids@);
    let mut kept: Vec<u32> = Vec::new();
    let mut k: usize = 0;
    proof {
        reveal(Seq::filter);
        assert(orig.take(0) =~= Seq::<u32>::empty());
    }
    while k < faulted.len()
        invariant
            0 <= k <= orig.len(),
            faulted@ == orig,
            keep == absent_from(ids@),
            kept@ == orig.take(k as int).filter(keep),
        decreases orig.len() - k,
    {
        let c = faulted[k];
        proof {
            crate::device_model::lemma_filter_push(orig.take(k as int), keep, c);
            assert(orig.take(k + 1) =~= orig.take(k as int).push(c));
        }
        let absent = !contains_u32(ids, c);
        assert(keep(c) == absent);
        if absent {
            kept.push(c);
        }
        k = k + 1;
    }
    proof {
        assert(orig.take(orig.len() as int) =~= orig);
    }
    *faulted = kept;
}

proof fn lemma_faults_added_contains(faulted: Seq<u32>, ids: Seq<u32>, n: int)
    requires
        0 <= n <= ids.len(),
    ensures
        forall|k: int| 0 <= k < n ==> faults_added(faulted, ids, n).contains(#[trigger] ids[k]),
        forall|c: u32| faulted.contains(c) ==> #[trigger] faults_added(faulted, ids, n).contains(c),
        faults_added(faulted, ids, n).len() >= faulted.len(),
        forall|k: int| 0 <= k < faulted.len() ==> #[trigger] faults_added(faulted, ids, n)[k] == faulted[k],
        forall|k: int|
            faulted.len() <= k < faults_added(faulted, ids, n).len() ==> ids.take(n).contains(
                #[trigger] faults_added(faulted, ids, n)[k],
            ),
    decreases n,
{
    if n > 0 {
        lemma_faults_added_contains(faulted, ids, n - 1);
        let before = faults_added(faulted, ids, n - 1);
        let after = faults_added(faulted, ids, n);
        assert forall|k: int| faulted.len() <= k < after.len() implies ids.take(n).contains(
            #[trigger] after[k],
        ) by {
            if k < before.len() {
                assert(after[k] == before[k]);
                assert(ids.take(n - 1).contains(before[k]));
                let m = choose|m: int| 0 <= m < n - 1 && #[trigger] ids.take(n - 1)[m] == before[k];
                assert(ids.take(n)[m] == before[k]);
            } else {
                assert(after[k] == ids[n - 1]);
                assert(ids.take(n)[n - 1] == ids[n - 1]);
            }
        }
        assert forall|k: int| 0 <= k < n implies after.contains(#[trigger] ids[k]) by {
            if k < n - 1 {
                assert(before.contains(ids[k]));
                if !before.contains(ids[n - 1]) {
                    let m = choose|m: int| 0 <= m < before.len() && #[trigger] before[m] == ids[k];
                    assert(before.push(ids[n - 1])[m] == ids[k]);
                }
            } else if !before.contains(ids[n - 1]) {
                assert(before.push(ids[n - 1])[before.len() as int] == ids[n - 1]);
            }
        }
        assert forall|c: u32| faulted.contains(c) implies #[trigger] after.contains(c) by {
            assert(before.contains(c));
            if !before.contains(ids[n - 1]) {
                let m = choose|m: int| 0 <= m < before.len() && #[trigger] before[m] == c;
                assert(before.push(ids[n - 1])[m] == c);
            }
        }
    }
}

/// After a fault on some connectors, each of them is faulted, and every connector
/// faulted before still is.
pub proof fn lemma_fault_marks_connectors(faulted: Seq<u32>, ids: Seq<u32>, connectors: Seq<u32>)
    requires
        ids.len() > 0,
    ensures
        forall|k: int| 0 <= k < ids.len() ==> after_fault(faulted, ids, connectors).contains(#[trigger] ids[k]),
        forall|c: u32| faulted.contains(c) ==> #[trigger] after_fault(faulted, ids, connectors).contains(c),
{
    lemma_faults_added_contains(faulted, ids, ids.len() as int);
}

/// After the faults on some connectors clear, none of them is faulted.
pub proof fn lemma_clear_unmarks_connectors(faulted: Seq<u32>, ids: Seq<u32>)
    ensures
        forall|c: u32| ids.contains(c) ==> !(#[trigger] after_fault_cleared(faulted, ids).contains(c)),
{
    if ids.len() > 0 {
        let keep = absent_from(ids);
        assert forall|c: u32| ids.contains(c) implies !(#[trigger] after_fault_cleared(faulted, ids).contains(c)) by {
            if faulted.filter(keep).contains(c) {
                faulted.filter_lemma(keep);
                let m = choose|m: int| 0 <= m < faulted.filter(keep).len() && #[trigger] faulted.filter(keep)[m] == c;
                assert(keep(faulted.filter(keep)[m]));
            }
        }
    }
}

/// A fault on connectors that were not faulted, cleared again, leaves the faulted
/// connectors as they were.
pub proof fn lemma_fault_then_clear_restores(faulted: Seq<u32>, ids: Seq<u32>, connectors: Seq<u32>)
    requires
        ids.len() > 0,
        forall|c: u32| ids.contains(c) ==> !faulted.contains(c),
    ensures
        after_fault_cleared(after_fault(faulted, ids, connectors), ids) == faulted,
{
    let added = faults_added(faulted, ids, ids.len() as int);
    lemma_faults_added_contains(faulted, ids, ids.len() as int);
    let keep = absent_from(ids);
    assert(ids.take(ids.len() as int) =~= ids);
    assert forall|k: int| 0 <= k < faulted.len() implies keep(#[trigger] faulted[k]) by {
        assert(faulted.contains(faulted[k]));
    }
    assert forall|k: int| faulted.len() <= k < added.len() implies !keep(#[trigger] added[k]) by {
        assert(ids.take(ids.len() as int).contains(added[k]));
    }
    lemma_filter_prefix_then_excluded(added, faulted, keep);
}

proof fn lemma_filter_prefix_then_excluded(s: Seq<u32>, prefix: Seq<u32>, keep: spec_fn(u32) -> bool)
    requires
        prefix.len() <= s.len(),
        forall|k: int| 0 <= k < prefix.len() ==> #[trigger] s[k] == prefix[k],
        forall|k: int| 0 <= k < prefix.len() ==> keep(#[trigger] prefix[k]),
        forall|k: int| prefix.len() <= k < s.len() ==> !keep(#[trigger] s[k]),
    ensures
        s.filter(keep) == prefix,
    decreases s.len(),
{
    reveal(Seq::filter);
    if s.len() > prefix.len() {
        lemma_filter_prefix_then_excluded(s.drop_last(), prefix, keep);
        assert(!keep(s[s.len() - 1]));
    } else if s.len() > 0 {
        lemma_filter_prefix_then_excluded(s.drop_last(), prefix.drop_last(), keep);
        assert(keep(prefix[prefix.len() - 1]));
        assert(s =~= prefix);
        assert(prefix.drop_last().push(prefix.last()) =~= prefix);
    } else {
        assert(prefix =~= Seq::<u32>::empty());
    }
}

/// The connectors that a fault or a cleared fault is reported for: 1 to 4 when no
/// connector was named, else the named ones.
pub fn fault_notification_connectors(ids: &Vec<u32>) -> (r: Vec<u32>)
    ensures
        r@ == (if ids@.len() == 0 {
            seq![1u32, 2u32, 3u32, 4u32]
        } else {
            ids@
        }),
{
    if ids.len() == 0 {
        let r = vec![1u32, 2, 3, 4];
        assert(r@ =~= seq![1u32, 2u32, 3u32, 4u32]);
        r
    } else {
        ids.clone()
    }
}

/// The status of an EVSE whose faults have cleared.
pub open spec fn status_after_clear(started: bool, plugged_in: Option<u32>) -> Seq<char> {
    if started {
        "Charging"@
    } else if plugged_in is Some {
        "Preparing"@
    } else {
        "Available"@
    }
}

/// The status an EVSE returns to when its faults clear: charging, preparing with a
/// vehicle plugged in, or available.
pub fn status_after_fault_cleared(started: bool, plugged_in: Option<u32>) -> (r: String)
    ensures
        r@ == status_after_clear(started, plugged_in),
{
    if started {
        "Charging".to_owned()
    } else if plugged_in.is_some() {
        "Preparing".to_owned()
    } else {
        "Available".to_owned()
    }
}

/// The EVSEs that the device model defines, each with its connectors.
#[derive(Clone, Debug, PartialEq, Eq)]
pub struct EvseLayout {
    pub evse_index: u32,
    pub connector_ids: Vec<u32>,
}

/// The EVSEs defined by the first `n` components: an EVSE component (re)defines its
/// EVSE with no connectors; a connector component with an EVSE and a connector
/// number adds the connector to that EVSE.
pub open spec fn layout_upto(cs: Seq<ComponentView>, n: int) -> Map<u32, Seq<u32>>
    decreases n,
{
    if n <= 0 || n > cs.len() {
        Map::empty()
    } else {
        let before = layout_upto(cs, n - 1);
        let c = cs[n - 1];
        let after_evse = if c.name@ == "EVSE"@ {
            before.insert(c.evse->0, Seq::empty())
        } else {
            before
        };
        if c.name@ == "Connector"@ && c.evse is Some && c.connector is Some {
            after_evse.insert(c.evse->0, after_evse[c.evse->0].push(c.connector->0))
        } else {
            after_evse
        }
    }
}

/// Whether the first `n` components define a layout: each EVSE component names its
/// EVSE, and each connector component with an EVSE and a connector number names an
/// EVSE defined before it.
pub open spec fn layout_defined_upto(cs: Seq<ComponentView>, n: int) -> bool
    decreases n,
{
    if n <= 0 || n > cs.len() {
        true
    } else {
        let c = cs[n - 1];
        &&& layout_defined_upto(cs, n - 1)
        &&& c.name@ == "EVSE"@ ==> c.evse is Some
        &&& (c.name@ == "Connector"@ && c.evse is Some && c.connector is Some) ==> (c.name@
            == "EVSE"@ || layout_upto(cs, n - 1).contains_key(c.evse->0))
    }
}

/// The map from EVSE number to connectors that a list of layouts stands for.
pub open spec fn layout_map(ls: Seq<EvseLayout>) -> Map<u32, Seq<u32>> {
    Map::new(
        |e: u32| exists|i: int| 0 <= i < ls.len() && ls[i].evse_index == e,
        |e: u32|
            ls[choose|i: int| 0 <= i < ls.len() && ls[i].evse_index == e].connector_ids@,
    )
}

/// No two layouts are for the same EVSE.
pub open spec fn distinct_evses(ls: Seq<EvseLayout>) -> bool {
    forall|i: int, j: int|
        0 <= i < j < ls.len() ==> (#[trigger] ls[i]).evse_index != (#[trigger] ls[j]).evse_index
}

fn find_evse(ls: &Vec<EvseLayout>, evse: u32) -> (r: Option<usize>)
    requires
        distinct_evses(ls@),
    ensures
        match r {
            Some(i) => i < ls@.len() && ls@[i as int].evse_index == evse && layout_map(ls@).contains_key(evse),
            None => !layout_map(ls@).contains_key(evse),
        },
{
    let mut i: usize = 0;
    while i < ls.len()
        invariant
            0 <= i <= ls@.len(),
            forall|k: int| 0 <= k < i ==> (#[trigger] ls@[k]).evse_index != evse,
        decreases ls@.len() - i,
    {
        if ls[i].evse_index == evse {
            assert(layout_map(ls@).dom().contains(evse));
            return Some(i);
        }
        i = i + 1;
    }
    None
}

proof fn lemma_layout_map_at(ls: Seq<EvseLayout>, i: int)
    requires
        distinct_evses(ls),
        0 <= i < ls.len(),
    ensures
        layout_map(ls).contains_key(ls[i].evse_index),
        layout_map(ls)[ls[i].evse_index] == ls[i].connector_ids@,
{
    let e = ls[i].evse_index;
    let c = choose|c: int| 0 <= c < ls.len() && ls[c].evse_index == e;
    if c != i {
        if c < i {
            assert(ls[c].evse_index != ls[i].evse_index);
        } else {
            assert(ls[i].evse_index != ls[c].evse_index);
        }
    }
}

proof fn lemma_layout_map_update(ls: Seq<EvseLayout>, i: int, l: EvseLayout)
    requires
        distinct_evses(ls),
        0 <= i < ls.len(),
        l.evse_index == ls[i].evse_index,
    ensures
        distinct_evses(ls.update(i, l)),
        layout_map(ls.update(i, l)) == layout_map(ls).insert(l.evse_index, l.connector_ids@),
{
    let after = ls.update(i, l);
    assert forall|a: int, b: int| 0 <= a < b < after.len() implies (#[trigger] after[a]).evse_index
        != (#[trigger] after[b]).evse_index by {
        assert(ls[a].evse_index != ls[b].evse_index);
    }
    let m1 = layout_map(after);
    let m2 = layout_map(ls).insert(l.evse_index, l.connector_ids@);
    assert forall|e: u32| m1.contains_key(e) <==> m2.contains_key(e) by {
        if m2.contains_key(e) && e != l.evse_index {
            let c = choose|c: int| 0 <= c < ls.len() && ls[c].evse_index == e;
            assert(after[c].evse_index == e);
        }
        if m1.contains_key(e) {
            let c = choose|c: int| 0 <= c < after.len() && after[c].evse_index == e;
            if c != i {
                assert(ls[c].evse_index == e);
            }
        }
        if e == l.evse_index {
            assert(after[i].evse_index == e);
        }
    }
    assert forall|e: u32| m1.contains_key(e) implies m1[e] == m2[e] by {
        let c = choose|c: int| 0 <= c < after.len() && after[c].evse_index == e;
        lemma_layout_map_at(after, c);
        if c != i {
            lemma_layout_map_at(ls, c);
        }
    }
    assert(m1 =~= m2);
}

proof fn lemma_layout_map_push(ls: Seq<EvseLayout>, l: EvseLayout)
    requires
        distinct_evses(ls),
        !layout_map(ls).contains_key(l.evse_index),
    ensures
        distinct_evses(ls.push(l)),
        layout_map(ls.push(l)) == layout_map(ls).insert(l.evse_index, l.connector_ids@),
{
    let after = ls.push(l);
    assert forall|a: int, b: int| 0 <= a < b < after.len() implies (#[trigger] after[a]).evse_index
        != (#[trigger] after[b]).evse_index by {
        if b == ls.len() {
            assert(after[a] == ls[a]);
            if ls[a].evse_index == l.evse_index {
                assert(layout_map(ls).dom().contains(l.evse_index));
            }
        } else {
            assert(ls[a].evse_index != ls[b].evse_index);
        }
    }
    let m1 = layout_map(after);
    let m2 = layout_map(ls).insert(l.evse_index, l.connector_ids@);
    assert forall|e: u32| m1.contains_key(e) <==> m2.contains_key(e) by {
        if m2.contains_key(e) && e != l.evse_index {
            let c = choose|c: int| 0 <= c < ls.len() && ls[c].evse_index == e;
            assert(after[c].evse_index == e);
        }
        if m1.contains_key(e) && e != l.evse_index {
            let c = choose|c: int| 0 <= c < after.len() && after[c].evse_index == e;
            assert(ls[c].evse_index == e);
        }
        if e == l.evse_index {
            assert(after[ls.len() as int].evse_index == e);
        }
    }
    assert forall|e: u32| m1.contains_key(e) implies m1[e] == m2[e] by {
        let c = choose|c: int| 0 <= c < after.len() && after[c].evse_index == e;
        lemma_layout_map_at(after, c);
        if c != ls.len() {
            lemma_layout_map_at(ls, c);
        }
    }
    assert(m1 =~= m2);
}

/// Sets the connectors of one EVSE, adding the EVSE when it is not there yet.
pub(crate) fn put_evse(ls: &mut Vec<EvseLayout>, evse_index: u32, connector_ids: Vec<u32>)
    requires
        distinct_evses(old(ls)@),
    ensures
        distinct_evses(final(ls)@),
        layout_map(final(ls)@) == layout_map(old(ls)@).insert(evse_index, connector_ids@),
{
    let l = EvseLayout { evse_index, connector_ids };
    match find_evse(ls, evse_index) {
        Some(i) => {
            proof {
                lemma_layout_map_update(ls@, i as int, l);
            }
            ls.set(i, l);
        },
        None => {
            proof {
                lemma_layout_map_push(ls@, l);
            }
            ls.push(l);
        },
    }
}

/// Whether the device model defines its EVSEs without referring to a missing one.
pub fn evse_layout_defined(data: &GetVariableData) -> (r: bool)
    ensures
        r == layout_defined_upto(data@, data@.len() as int),
{
    let mut ls: Vec<EvseLayout> = Vec::new();
    let mut i: usize = 0;
    while i < data.components.len()
        invariant
            0 <= i <= data@.len(),
            data@.len() == data.components@.len(),
            distinct_evses(ls@),
            layout_map(ls@) == layout_upto(data@, i as int),
            layout_defined_upto(data@, i as int),
        decreases data.components@.len() - i,
    {
        let comp = &data.components[i];
        assert(data@[i as int] == comp@);
        let is_evse = str_eq(comp.name.as_str(), "EVSE");
        if is_evse {
            match comp.evse {
                Some(e) => put_evse(&mut ls, e, Vec::new()),
                None => {
                    proof { lemma_layout_defined_stops(data@, i as int + 1, data@.len() as int); }
                    return false;
                },
            }
        }
        if str_eq(comp.name.as_str(), "Connector") {
            match (comp.evse, comp.connector) {
                (Some(e), Some(c)) => match find_evse(&ls, e) {
                    Some(k) => {
                        let mut connectors = ls[k].connector_ids.clone();
                        proof { lemma_layout_map_at(ls@, k as int); }
                        connectors.push(c);
                        put_evse(&mut ls, e, connectors);
                    },
                    None => {
                        proof { lemma_layout_defined_stops(data@, i as int + 1, data@.len() as int); }
                        return false;
                    },
                },
                _ => {},
            }
        }
        proof {
            assert(layout_map(ls@) =~= layout_upto(data@, i as int + 1));
        }
        i = i + 1;
    }
    true
}

proof fn lemma_layout_defined_stops(cs: Seq<ComponentView>, k: int, n: int)
    requires
        0 < k <= n <= cs.len(),
        !layout_defined_upto(cs, k),
    ensures
        !layout_defined_upto(cs, n),
    decreases n - k,
{
    if k < n {
        lemma_layout_defined_stops(cs, k, n - 1);
    }
}

proof fn lemma_layout_defined_prefix(cs: Seq<ComponentView>, k: int, n: int)
    requires
        0 <= k <= n <= cs.len(),
        layout_defined_upto(cs, n),
    ensures
        layout_defined_upto(cs, k),
    decreases n - k,
{
    if k < n {
        lemma_layout_defined_prefix(cs, k, n - 1);
    }
}

/// The EVSEs that the device model defines, with their connectors in the order the
/// components list them.
pub fn evse_layout(data: &GetVariableData) -> (r: Vec<EvseLayout>)
    requires
        layout_defined_upto(data@, data@.len() as int),
    ensures
        distinct_evses(r@),
        layout_map(r@) == layout_upto(data@, data@.len() as int),
{
    let mut ls: Vec<EvseLayout> = Vec::new();
    let mut i: usize = 0;
    while i < data.components.len()
        invariant
            0 <= i <= data@.len(),
            data@.len() == data.components@.len(),
            distinct_evses(ls@),
            layout_map(ls@) == layout_upto(data@, i as int),
            layout_defined_upto(data@, data@.len() as int),
        decreases data.components@.len() - i,
    {
        let comp = &data.components[i];
        assert(data@[i as int] == comp@);
        proof { lemma_layout_defined_prefix(data@, i as int + 1, data@.len() as int); }
        if str_eq(comp.name.as_str(), "EVSE") {
            match comp.evse {
                Some(e) => put_evse(&mut ls, e, Vec::new()),
                None => {},
            }
        }
        if str_eq(comp.name.as_str(), "Connector") {
            match (comp.evse, comp.connector) {
                (Some(e), Some(c)) => match find_evse(&ls, e) {
                    Some(k) => {
                        let mut connectors = ls[k].connector_ids.clone();
                        proof { lemma_layout_map_at(ls@, k as int); }
                        connectors.push(c);
                        put_evse(&mut ls, e, connectors);
                    },
                    None => {},
                },
                _ => {},
            }
        }
        proof {
            assert(layout_map(ls@) =~= layout_upto(data@, i as int + 1));
        }
        i = i + 1;
    }
    ls
}

/// The seconds since the Unix epoch of an RFC 3339 time as `chrono` reads it, or
/// none where it refuses the text.
pub uninterp spec fn rfc3339_timestamp(text: Seq<char>) -> Option<i64>;

/// Reads an RFC 3339 time with `chrono::DateTime::parse_from_rfc3339` and gives its
/// `timestamp`, the seconds since the Unix epoch; the result is named
/// [`rfc3339_timestamp`] of the text.
#[verifier::external_body]
fn parse_rfc3339_timestamp(text: &str) -> (r: Option<i64>)
    ensures
        r == rfc3339_timestamp(text@),
{
    match chrono::DateTime::parse_from_rfc3339(text) {
        Ok(t) => Some(t.timestamp()),
        Err(_) => None,
    }
}

/// The current time in seconds since the Unix epoch, from
/// `chrono::Utc::now().timestamp()`. It depends on the clock; nothing is stated.
#[verifier::external_body]
fn now_timestamp() -> (r: i64) {
    chrono::Utc::now().timestamp()
}

/// Whether a time trigger set for `at` (seconds since the Unix epoch) has fired at
/// `now`: the moment has come.
pub fn time_trigger_due(now: i64, at: i64) -> (r: bool)
    ensures
        r == (now >= at),
{
    now >= at
}

/// Whether the time trigger set for the RFC 3339 time `at_time` has fired by now;
/// none where the text is not such a time. Whether it has fired depends on the
/// clock, read at the call.
pub fn time_trigger_fired(at_time: &str) -> (r: Option<bool>)
    ensures
        r is None <==> rfc3339_timestamp(at_time@) is None,
{
    match parse_rfc3339_timestamp(at_time) {
        Some(at) => Some(time_trigger_due(now_timestamp(), at)),
        None => None,
    }
}

/// Whether meter values are sent now while charging: the sample interval has passed
/// since the last report, or a trigger asks for an extra one.
pub fn meter_values_due(elapsed_secs: u64, interval_secs: u64, extra_trigger: bool) -> (r: bool)
    ensures
        r == (elapsed_secs >= interval_secs || extra_trigger),
{
    elapsed_secs >= interval_secs || extra_trigger
}

} // verus!
