//! Counting the messages that charge points send and receive, per message type and
//! per charge point.

use vstd::prelude::*;
use vstd::string::*;
use crate::text::str_eq;
use std::collections::HashMap;

verus! {

/// Statistics for one message type.
#[derive(Clone, Debug, PartialEq, Eq)]
pub struct MessageTypeStats {
    pub message_type: String,
    pub sent_count: u64,
    pub sent_success: u64,
    pub sent_fail: u64,
    pub received_count: u64,
    pub received_success: u64,
    pub received_fail: u64,
}

impl MessageTypeStats {
    /// Every message counted is counted as a success or as a failure.
    pub open spec fn well_formed(&self) -> bool {
        &&& self.sent_count == self.sent_success + self.sent_fail
        &&& self.received_count == self.received_success + self.received_fail
    }

    /// Whether recording one more sent message fits the counters.
    pub open spec fn can_record_sent(&self, success: bool) -> bool {
        &&& self.sent_count < u64::MAX
        &&& success ==> self.sent_success < u64::MAX
        &&& !success ==> self.sent_fail < u64::MAX
    }

    /// Whether recording one more received message fits the counters.
    pub open spec fn can_record_received(&self, success: bool) -> bool {
        &&& self.received_count < u64::MAX
        &&& success ==> self.received_success < u64::MAX
        &&& !success ==> self.received_fail < u64::MAX
    }

    /// `after` is `self` with one more sent message, counted as a success or a failure.
    pub open spec fn sent_recorded(&self, after: MessageTypeStats, success: bool) -> bool {
        &&& after.message_type == self.message_type
        &&& after.sent_count == self.sent_count + 1
        &&& after.sent_success == self.sent_success + (if success { 1int } else { 0int })
        &&& after.sent_fail == self.sent_fail + (if success { 0int } else { 1int })
        &&& after.received_count == self.received_count
        &&& after.received_success == self.received_success
        &&& after.received_fail == self.received_fail
    }

    /// `after` is `self` with one more received message, counted as a success or a
    /// failure.
    pub open spec fn received_recorded(&self, after: MessageTypeStats, success: bool) -> bool {
        &&& after.message_type == self.message_type
        &&& after.sent_count == self.sent_count
        &&& after.sent_success == self.sent_success
        &&& after.sent_fail == self.sent_fail
        &&& after.received_count == self.received_count + 1
        &&& after.received_success == self.received_success + (if success { 1int } else { 0int })
        &&& after.received_fail == self.received_fail + (if success { 0int } else { 1int })
    }

    /// Whether these are the statistics of a type before any message is counted.
    pub open spec fn is_fresh(&self) -> bool {
        &&& self.sent_count == 0
        &&& self.sent_success == 0
        &&& self.sent_fail == 0
        &&& self.received_count == 0
        &&& self.received_success == 0
        &&& self.received_fail == 0
    }

    /// Statistics for `message_type` with nothing counted yet.
    pub fn new(message_type: String) -> (r: Self)
        ensures
            r.message_type == message_type,
            r.is_fresh(),
            r.well_formed(),
    {
        MessageTypeStats {
            message_type,
            sent_count: 0,
            sent_success: 0,
            sent_fail: 0,
            received_count: 0,
            received_success: 0,
            received_fail: 0,
        }
    }

    /// Counts one sent message, as a success or a failure.
    pub fn record_sent(&mut self, success: bool)
        requires
            old(self).can_record_sent(success),
        ensures
            old(self).sent_recorded(*final(self), success),
    {
        self.sent_count = self.sent_count + 1;
        if success {
            self.sent_success = self.sent_success + 1;
        } else {
            self.sent_fail = self.sent_fail + 1;
        }
    }

    /// Counts one received message, as a success or a failure.
    pub fn record_received(&mut self, success: bool)
        requires
            old(self).can_record_received(success),
        ensures
            old(self).received_recorded(*final(self), success),
    {
        self.received_count = self.received_count + 1;
        if success {
            self.received_success = self.received_success + 1;
        } else {
            self.received_fail = self.received_fail + 1;
        }
    }
}

/// Recording a message keeps every counted message counted as a success or a failure.
pub proof fn lemma_recording_keeps_counts_consistent(
    before: MessageTypeStats,
    after: MessageTypeStats,
    success: bool,
)
    requires
        before.well_formed(),
        before.sent_recorded(after, success) || before.received_recorded(after, success),
    ensures
        after.well_formed(),
{
}

/// Where the statistics for `message_type` stand among `messages`.
pub open spec fn stats_position(messages: Seq<MessageTypeStats>, message_type: Seq<char>) -> Option<
    int,
> {
    if exists|i: int| 0 <= i < messages.len() && messages[i].message_type@ == message_type {
        Some(
            choose|i: int| 0 <= i < messages.len() && messages[i].message_type@ == message_type,
        )
    } else {
        None
    }
}

/// No two entries are for the same message type.
pub open spec fn distinct_types(messages: Seq<MessageTypeStats>) -> bool {
    forall|i: int, j: int|
        0 <= i < j < messages.len() ==> (#[trigger] messages[i]).message_type@
            != (#[trigger] messages[j]).message_type@
}

/// Summary statistics for a single charge point: one entry per message type.
#[derive(Clone, Debug, PartialEq, Eq)]
pub struct CPSummary {
    pub cp_id: usize,
    pub cp_serial: String,
    pub messages: Vec<MessageTypeStats>,
}

/// What recording a message of `message_type` makes of a charge point's entries:
/// the entry of that type (a fresh one appended when there was none) changes as
/// `changed` says, and every other entry stays.
pub open spec fn type_entry_changed(
    before: Seq<MessageTypeStats>,
    after: Seq<MessageTypeStats>,
    message_type: Seq<char>,
    changed: spec_fn(MessageTypeStats, MessageTypeStats) -> bool,
) -> bool {
    match stats_position(before, message_type) {
        Some(i) => {
            &&& after.len() == before.len()
            &&& forall|k: int| 0 <= k < before.len() && k != i ==> #[trigger] after[k] == before[k]
            &&& changed(before[i], after[i])
        },
        None => {
            &&& after.len() == before.len() + 1
            &&& forall|k: int| 0 <= k < before.len() ==> #[trigger] after[k] == before[k]
            &&& after.last().message_type@ == message_type
            &&& exists|fresh: MessageTypeStats|
                fresh.message_type@ == message_type && fresh.is_fresh() && changed(
                    fresh,
                    #[trigger] after.last(),
                )
        },
    }
}

/// Whether the entry for `message_type`, if there is one, can count one more sent
/// message.
pub open spec fn summary_can_record_sent(
    messages: Seq<MessageTypeStats>,
    message_type: Seq<char>,
    success: bool,
) -> bool {
    match stats_position(messages, message_type) {
        Some(i) => messages[i].can_record_sent(success),
        None => true,
    }
}

/// Whether the entry for `message_type`, if there is one, can count one more
/// received message.
pub open spec fn summary_can_record_received(
    messages: Seq<MessageTypeStats>,
    message_type: Seq<char>,
    success: bool,
) -> bool {
    match stats_position(messages, message_type) {
        Some(i) => messages[i].can_record_received(success),
        None => true,
    }
}

fn find_type(messages: &Vec<MessageTypeStats>, message_type: &str) -> (r: Option<usize>)
    ensures
        match r {
            Some(i) => i < messages@.len() && messages@[i as int].message_type@ == message_type@,
            None => stats_position(messages@, message_type@) is None,
        },
{
    let mut i: usize = 0;
    while i < messages.len()
        invariant
            0 <= i <= messages@.len(),
            forall|k: int| 0 <= k < i ==> (#[trigger] messages@[k]).message_type@ != message_type@,
        decreases messages@.len() - i,
    {
        if str_eq(messages[i].message_type.as_str(), message_type) {
            return Some(i);
        }
        i = i + 1;
    }
    None
}

proof fn lemma_position_unique(messages: Seq<MessageTypeStats>, message_type: Seq<char>, i: int)
    requires
        distinct_types(messages),
        0 <= i < messages.len(),
        messages[i].message_type@ == message_type,
    ensures
        stats_position(messages, message_type) == Some(i),
{
    let c = choose|c: int| 0 <= c < messages.len() && messages[c].message_type@ == message_type;
    if c < i {
        assert(messages[c].message_type@ != messages[i].message_type@);
    } else if c > i {
        assert(messages[i].message_type@ != messages[c].message_type@);
    }
}

impl CPSummary {
    /// The summary of a charge point before any message is counted.
    pub fn new(cp_id: usize, cp_serial: String) -> (r: Self)
        ensures
            r.cp_id == cp_id,
            r.cp_serial == cp_serial,
            r.messages@.len() == 0,
    {
        CPSummary { cp_id, cp_serial, messages: Vec::new() }
    }

    /// Whether one more sent message of `message_type` fits the counters.
    pub fn sent_fits(&self, message_type: &str, success: bool) -> (r: bool)
        requires
            distinct_types(self.messages@),
        ensures
            r == summary_can_record_sent(self.messages@, message_type@, success),
    {
        match find_type(&self.messages, message_type) {
            Some(i) => {
                proof {
                    lemma_position_unique(self.messages@, message_type@, i as int);
                }
                let m = &self.messages[i];
                m.sent_count < u64::MAX && (if success {
                    m.sent_success < u64::MAX
                } else {
                    m.sent_fail < u64::MAX
                })
            },
            None => true,
        }
    }

    /// Whether one more received message of `message_type` fits the counters.
    pub fn received_fits(&self, message_type: &str, success: bool) -> (r: bool)
        requires
            distinct_types(self.messages@),
        ensures
            r == summary_can_record_received(self.messages@, message_type@, success),
    {
        match find_type(&self.messages, message_type) {
            Some(i) => {
                proof {
                    lemma_position_unique(self.messages@, message_type@, i as int);
                }
                let m = &self.messages[i];
                m.received_count < u64::MAX && (if success {
                    m.received_success < u64::MAX
                } else {
                    m.received_fail < u64::MAX
                })
            },
            None => true,
        }
    }

    /// Counts one sent message of `message_type`, adding an entry for the type when
    /// there is none.
    pub fn record_sent(&mut self, message_type: &str, success: bool)
        requires
            distinct_types(old(self).messages@),
            summary_can_record_sent(old(self).messages@, message_type@, success),
        ensures
            final(self).cp_id == old(self).cp_id,
            final(self).cp_serial == old(self).cp_serial,
            distinct_types(final(self).messages@),
            type_entry_changed(
                old(self).messages@,
                final(self).messages@,
                message_type@,
                |a: MessageTypeStats, b: MessageTypeStats| a.sent_recorded(b, success),
            ),
    {
        let i = self.entry_for(message_type);
        let mut entry = self.messages.remove(i);
        entry.record_sent(success);
        self.messages.insert(i, entry);
        proof {
            self.lemma_after_change(old(self).messages@, message_type@, i as int);
        }
    }

    /// Counts one received message of `message_type`, adding an entry for the type
    /// when there is none.
    pub fn record_received(&mut self, message_type: &str, success: bool)
        requires
            distinct_types(old(self).messages@),
            summary_can_record_received(old(self).messages@, message_type@, success),
        ensures
            final(self).cp_id == old(self).cp_id,
            final(self).cp_serial == old(self).cp_serial,
            distinct_types(final(self).messages@),
            type_entry_changed(
                old(self).messages@,
                final(self).messages@,
                message_type@,
                |a: MessageTypeStats, b: MessageTypeStats| a.received_recorded(b, success),
            ),
    {
        let i = self.entry_for(message_type);
        let mut entry = self.messages.remove(i);
        entry.record_received(success);
        self.messages.insert(i, entry);
        proof {
            self.lemma_after_change(old(self).messages@, message_type@, i as int);
        }
    }

    /// The position of the entry for `message_type`, appending a fresh one when
    /// there is none.
    fn entry_for(&mut self, message_type: &str) -> (i: usize)
        requires
            distinct_types(old(self).messages@),
        ensures
            final(self).cp_id == old(self).cp_id,
            final(self).cp_serial == old(self).cp_serial,
            distinct_types(final(self).messages@),
            i < final(self).messages@.len(),
            final(self).messages@[i as int].message_type@ == message_type@,
            match stats_position(old(self).messages@, message_type@) {
                Some(k) => i == k && final(self).messages@ == old(self).messages@,
                None => {
                    &&& i == old(self).messages@.len()
                    &&& final(self).messages@.len() == old(self).messages@.len() + 1
                    &&& final(self).messages@.drop_last() == old(self).messages@
                    &&& final(self).messages@[i as int].is_fresh()
                },
            },
    {
        match find_type(&self.messages, message_type) {
            Some(i) => {
                proof {
                    lemma_position_unique(self.messages@, message_type@, i as int);
                }
                i
            },
            None => {
                let fresh = MessageTypeStats::new(message_type.to_owned());
                self.messages.push(fresh);
                proof {
                    let ms = self.messages@;
                    assert(ms.drop_last() =~= old(self).messages@);
                    assert forall|a: int, b: int| 0 <= a < b < ms.len() implies (#[trigger] ms[a]).message_type@
                        != (#[trigger] ms[b]).message_type@ by {
                        if b == ms.len() - 1 {
                            assert(ms[a] == old(self).messages@[a]);
                        } else {
                            assert(ms[a] == old(self).messages@[a]);
                            assert(ms[b] == old(self).messages@[b]);
                        }
                    }
                }
                self.messages.len() - 1
            },
        }
    }

    proof fn lemma_after_change(&self, before: Seq<MessageTypeStats>, message_type: Seq<char>, i: int)
        requires
            distinct_types(before),
            0 <= i < self.messages@.len(),
            self.messages@[i].message_type@ == message_type,
            match stats_position(before, message_type) {
                Some(k) => i == k && self.messages@.len() == before.len() && forall|m: int|
                    0 <= m < before.len() && m != i ==> #[trigger] self.messages@[m] == before[m],
                None => i == before.len() && self.messages@.len() == before.len() + 1 && forall|
                    m: int,
                | 0 <= m < before.len() ==> #[trigger] self.messages@[m] == before[m],
            },
        ensures
            distinct_types(self.messages@),
    {
        let ms = self.messages@;
        assert forall|a: int, b: int| 0 <= a < b < ms.len() implies (#[trigger] ms[a]).message_type@
            != (#[trigger] ms[b]).message_type@ by {
            if a != i && b != i {
                assert(ms[a] == before[a]);
                assert(ms[b] == before[b]);
            } else if a == i {
                assert(ms[b] == before[b]);
                if stats_position(before, message_type) is None {
                    assert(before[b].message_type@ != message_type);
                }
            } else {
                assert(ms[a] == before[a]);
                if stats_position(before, message_type) is None {
                    assert(before[a].message_type@ != message_type);
                }
            }
        }
    }
}

/// The number of sent messages of type `t` that `messages` count: that of its entry,
/// or 0 when there is none.
pub open spec fn sent_total(messages: Seq<MessageTypeStats>, t: Seq<char>) -> int {
    match stats_position(messages, t) {
        Some(i) => messages[i].sent_count as int,
        None => 0,
    }
}

/// The number of received messages of type `t` that `messages` count.
pub open spec fn received_total(messages: Seq<MessageTypeStats>, t: Seq<char>) -> int {
    match stats_position(messages, t) {
        Some(i) => messages[i].received_count as int,
        None => 0,
    }
}

/// Changing the entry of one type leaves where the entry of any other type stands,
/// and that entry.
proof fn lemma_other_entry_kept(
    before: Seq<MessageTypeStats>,
    after: Seq<MessageTypeStats>,
    t: Seq<char>,
    u: Seq<char>,
    changed: spec_fn(MessageTypeStats, MessageTypeStats) -> bool,
)
    requires
        distinct_types(before),
        distinct_types(after),
        type_entry_changed(before, after, t, changed),
        forall|a: MessageTypeStats, b: MessageTypeStats| #[trigger] changed(a, b) ==> b.message_type@ == a.message_type@,
        u != t,
    ensures
        stats_position(after, u) == stats_position(before, u),
        stats_position(before, u) matches Some(j) ==> after[j] == before[j],
{
    match stats_position(before, u) {
        Some(j) => {
            if let Some(i) = stats_position(before, t) {
                assert(before[i].message_type@ == t);
                assert(j != i);
            }
            assert(after[j] == before[j]);
            lemma_position_unique(after, u, j);
        },
        None => {
            if exists|k: int| 0 <= k < after.len() && after[k].message_type@ == u {
                let k = choose|k: int| 0 <= k < after.len() && after[k].message_type@ == u;
                match stats_position(before, t) {
                    Some(i) => {
                        if k == i {
                            assert(changed(before[i], after[i]));
                            assert(before[i].message_type@ == t);
                        } else {
                            assert(after[k] == before[k]);
                        }
                    },
                    None => {
                        if k < before.len() {
                            assert(after[k] == before[k]);
                        } else {
                            assert(after[k] == after.last());
                        }
                    },
                }
            }
        },
    }
}

/// The counts of a charge point's summary are the messages recorded in it: counting
/// a sent message of one type adds one to the sent messages of that type and leaves
/// its received messages, and the counts of every other type, as they were.
pub proof fn lemma_record_sent_counts(
    before: Seq<MessageTypeStats>,
    after: Seq<MessageTypeStats>,
    t: Seq<char>,
    u: Seq<char>,
    success: bool,
)
    requires
        distinct_types(before),
        distinct_types(after),
        type_entry_changed(before, after, t, |a: MessageTypeStats, b: MessageTypeStats| a.sent_recorded(b, success)),
    ensures
        sent_total(after, t) == sent_total(before, t) + 1,
        received_total(after, t) == received_total(before, t),
        u != t ==> sent_total(after, u) == sent_total(before, u) && received_total(after, u)
            == received_total(before, u),
{
    let changed = |a: MessageTypeStats, b: MessageTypeStats| a.sent_recorded(b, success);
    match stats_position(before, t) {
        Some(i) => {
            assert(changed(before[i], after[i]));
            lemma_position_unique(after, t, i);
        },
        None => {
            let fresh = choose|fresh: MessageTypeStats|
                fresh.message_type@ == t && fresh.is_fresh() && changed(fresh, #[trigger] after.last());
            lemma_position_unique(after, t, after.len() - 1);
        },
    }
    if u != t {
        lemma_other_entry_kept(before, after, t, u, changed);
    }
}

/// Counting a received message of one type adds one to the received messages of
/// that type and leaves its sent messages, and the counts of every other type, as
/// they were.
pub proof fn lemma_record_received_counts(
    before: Seq<MessageTypeStats>,
    after: Seq<MessageTypeStats>,
    t: Seq<char>,
    u: Seq<char>,
    success: bool,
)
    requires
        distinct_types(before),
        distinct_types(after),
        type_entry_changed(before, after, t, |a: MessageTypeStats, b: MessageTypeStats| a.received_recorded(b, success)),
    ensures
        received_total(after, t) == received_total(before, t) + 1,
        sent_total(after, t) == sent_total(before, t),
        u != t ==> sent_total(after, u) == sent_total(before, u) && received_total(after, u)
            == received_total(before, u),
{
    let changed = |a: MessageTypeStats, b: MessageTypeStats| a.received_recorded(b, success);
    match stats_position(before, t) {
        Some(i) => {
            assert(changed(before[i], after[i]));
            lemma_position_unique(after, t, i);
        },
        None => {
            let fresh = choose|fresh: MessageTypeStats|
                fresh.message_type@ == t && fresh.is_fresh() && changed(fresh, #[trigger] after.last());
            lemma_position_unique(after, t, after.len() - 1);
        },
    }
    if u != t {
        lemma_other_entry_kept(before, after, t, u, changed);
    }
}

/// A summary with nothing recorded counts no message of any type.
pub proof fn lemma_fresh_summary_counts_nothing(t: Seq<char>)
    ensures
        sent_total(Seq::<MessageTypeStats>::empty(), t) == 0,
        received_total(Seq::<MessageTypeStats>::empty(), t) == 0,
{
}

/// The six counters of a message type.
pub struct Counts {
    pub sent: int,
    pub sent_success: int,
    pub sent_fail: int,
    pub received: int,
    pub received_success: int,
    pub received_fail: int,
}

/// No message counted.
pub open spec fn no_counts() -> Counts {
    Counts { sent: 0, sent_success: 0, sent_fail: 0, received: 0, received_success: 0, received_fail: 0 }
}

/// The counters of one entry.
pub open spec fn entry_counts(m: MessageTypeStats) -> Counts {
    Counts {
        sent: m.sent_count as int,
        sent_success: m.sent_success as int,
        sent_fail: m.sent_fail as int,
        received: m.received_count as int,
        received_success: m.received_success as int,
        received_fail: m.received_fail as int,
    }
}

/// The counters of message type `t` in a charge point's entries: those of its
/// entry, or none counted when it has none.
pub open spec fn type_counts(messages: Seq<MessageTypeStats>, t: Seq<char>) -> Counts {
    match stats_position(messages, t) {
        Some(i) => entry_counts(messages[i]),
        None => no_counts(),
    }
}

/// One message recorded: its type, whether it was sent or received, and whether
/// it went through.
pub struct Recording {
    pub message_type: Seq<char>,
    pub sent: bool,
    pub success: bool,
}

/// The counters with one more message recorded as `r` says.
pub open spec fn counts_with(c: Counts, r: Recording) -> Counts {
    let s = if r.success { 1int } else { 0int };
    let f = if r.success { 0int } else { 1int };
    if r.sent {
        Counts { sent: c.sent + 1, sent_success: c.sent_success + s, sent_fail: c.sent_fail + f, ..c }
    } else {
        Counts {
            received: c.received + 1,
            received_success: c.received_success + s,
            received_fail: c.received_fail + f,
            ..c
        }
    }
}

/// The counters of message type `t` that the recordings `recs` make: each sent
/// message of that type counted as sent, as a success or a failure, and each
/// received one as received.
pub open spec fn recorded_counts(recs: Seq<Recording>, t: Seq<char>) -> Counts
    decreases recs.len(),
{
    if recs.len() == 0 {
        no_counts()
    } else if recs.last().message_type == t {
        counts_with(recorded_counts(recs.drop_last(), t), recs.last())
    } else {
        recorded_counts(recs.drop_last(), t)
    }
}

/// Whether `after` is a charge point's entries once `r` is recorded in `before`,
/// as [`CPSummary::record_sent`] and [`CPSummary::record_received`] record it.
pub open spec fn recording_step(before: Seq<MessageTypeStats>, after: Seq<MessageTypeStats>, r: Recording) -> bool {
    if r.sent {
        type_entry_changed(before, after, r.message_type, |a: MessageTypeStats, b: MessageTypeStats| a.sent_recorded(b, r.success))
    } else {
        type_entry_changed(before, after, r.message_type, |a: MessageTypeStats, b: MessageTypeStats| a.received_recorded(b, r.success))
    }
}

/// Recording one message counts it under its type and leaves every other type's
/// counters as they were.
pub proof fn lemma_recording_step_counts(
    before: Seq<MessageTypeStats>,
    after: Seq<MessageTypeStats>,
    r: Recording,
    u: Seq<char>,
)
    requires
        distinct_types(before),
        distinct_types(after),
        recording_step(before, after, r),
    ensures
        type_counts(after, u) == (if r.message_type == u {
            counts_with(type_counts(before, u), r)
        } else {
            type_counts(before, u)
        }),
{
    let t = r.message_type;
    let changed = if r.sent {
        |a: MessageTypeStats, b: MessageTypeStats| a.sent_recorded(b, r.success)
    } else {
        |a: MessageTypeStats, b: MessageTypeStats| a.received_recorded(b, r.success)
    };
    assert(type_entry_changed(before, after, t, changed));
    if u == t {
        match stats_position(before, t) {
            Some(i) => {
                assert(changed(before[i], after[i]));
                lemma_position_unique(after, t, i);
            },
            None => {
                let fresh = choose|fresh: MessageTypeStats|
                    fresh.message_type@ == t && fresh.is_fresh() && changed(fresh, #[trigger] after.last());
                assert(changed(fresh, after.last()));
                lemma_position_unique(after, t, after.len() - 1);
            },
        }
    } else {
        lemma_other_entry_kept(before, after, t, u, changed);
    }
}

/// The counts of a charge point's summary are the messages recorded in it: after
/// a run of recordings from no entries, each message type's counters are those
/// the recordings of that type make.
pub proof fn lemma_recordings_counted(states: Seq<Seq<MessageTypeStats>>, recs: Seq<Recording>, t: Seq<char>)
    requires
        states.len() == recs.len() + 1,
        states[0].len() == 0,
        forall|k: int| 0 <= k < states.len() ==> distinct_types(#[trigger] states[k]),
        forall|k: int| 0 <= k < recs.len() ==> recording_step(#[trigger] states[k], states[k + 1], recs[k]),
    ensures
        type_counts(states.last(), t) == recorded_counts(recs, t),
    decreases recs.len(),
{
    if recs.len() == 0 {
        assert(stats_position(states[0], t) is None);
    } else {
        let n = recs.len() - 1;
        let s2 = states.drop_last();
        let r2 = recs.drop_last();
        assert forall|k: int| 0 <= k < s2.len() implies distinct_types(#[trigger] s2[k]) by {
            assert(s2[k] == states[k]);
        }
        assert forall|k: int| 0 <= k < r2.len() implies recording_step(#[trigger] s2[k], s2[k + 1], r2[k]) by {
            assert(s2[k] == states[k] && s2[k + 1] == states[k + 1] && r2[k] == recs[k]);
            assert(recording_step(states[k], states[k + 1], recs[k]));
        }
        lemma_recordings_counted(s2, r2, t);
        assert(s2.last() == states[n]);
        assert(recording_step(states[n], states[n + 1], recs[n]));
        assert(distinct_types(states[n]));
        assert(distinct_types(states[n + 1]));
        lemma_recording_step_counts(states[n], states[n + 1], recs[n], t);
        assert(states.last() == states[n + 1]);
        assert(recs.last() == recs[n]);
    }
}

/// An RFC 3339 time stamp in UTC as `chrono` writes one: at least the four digits
/// of the year, then `-MM-DDTHH:MM:SS`, and the zero offset `+00:00` at the end.
pub open spec fn utc_timestamp(s: Seq<char>) -> bool {
    &&& s.len() >= 25
    &&& s.subrange(s.len() - 6, s.len() as int) == seq!['+', '0', '0', ':', '0', '0']
}

/// The current time as RFC 3339 text, from `chrono::Utc::now().to_rfc3339()`.
/// Its digits depend on the clock and are not stated; what is stated is the shape
/// that `to_rfc3339` writes for every instant: a date and time of at least 19
/// characters (four for a year from 0 to 9999, a sign and at least four digits
/// otherwise), followed by the offset, which for `Utc` is written `+00:00` since
/// `to_rfc3339` never uses `Z`.
#[verifier::external_body]
fn now_rfc3339() -> (r: String)
    ensures
        utc_timestamp(r@),
{
    chrono::Utc::now().to_rfc3339()
}

/// The statistics of a whole test run: the summary of each charge point, filed
/// under its number.
#[derive(Clone, Debug, PartialEq, Eq)]
pub struct TestSummary {
    pub cps: HashMap<usize, CPSummary>,
    pub start_time: String,
    pub end_time: String,
}

/// Each summary is filed under its charge point's number and counts each message
/// type once.
pub open spec fn summaries_well_formed(cps: Map<usize, CPSummary>) -> bool {
    forall|k: usize| #[trigger] cps.contains_key(k) ==> cps[k].cp_id == k && distinct_types(cps[k].messages@)
}

/// Filing a summary under its charge point's number, its message types distinct,
/// keeps the summaries well formed.
pub proof fn lemma_summary_filed_well_formed(cps: Map<usize, CPSummary>, cp: CPSummary)
    requires
        summaries_well_formed(cps),
        distinct_types(cp.messages@),
    ensures
        summaries_well_formed(cps.insert(cp.cp_id, cp)),
{
}

/// One message recorded for a charge point of a test run.
pub struct RunRecording {
    pub cp_id: usize,
    pub cp_serial: Seq<char>,
    pub recording: Recording,
}

/// Whether `after` is a test run's summaries once `r` is recorded in `before`, as
/// [`TestSummary::get_or_create_cp`] followed by [`CPSummary::record_sent`] or
/// [`CPSummary::record_received`] records it: the charge point's summary (a new
/// one with the given serial number when it had none) counts one more message.
pub open spec fn summary_step(before: Map<usize, CPSummary>, after: Map<usize, CPSummary>, r: RunRecording) -> bool {
    exists|cp: CPSummary|
        {
            &&& after == before.insert(r.cp_id, cp)
            &&& recording_step(
                match before.get(r.cp_id) {
                    Some(old) => old.messages@,
                    None => Seq::empty(),
                },
                #[trigger] cp.messages@,
                r.recording,
            )
            &&& cp.cp_serial@ == match before.get(r.cp_id) {
                Some(old) => old.cp_serial@,
                None => r.cp_serial,
            }
        }
}

/// The serial number a charge point's summary is filed with: that of the first
/// recording for it.
pub open spec fn first_serial(recs: Seq<RunRecording>, c: usize) -> Option<Seq<char>>
    decreases recs.len(),
{
    if recs.len() == 0 {
        None
    } else {
        match first_serial(recs.drop_last(), c) {
            Some(s) => Some(s),
            None => if recs.last().cp_id == c {
                Some(recs.last().cp_serial)
            } else {
                None
            },
        }
    }
}

/// The counters of message type `t` that the recordings for charge point `c` make.
pub open spec fn cp_recorded_counts(recs: Seq<RunRecording>, c: usize, t: Seq<char>) -> Counts
    decreases recs.len(),
{
    if recs.len() == 0 {
        no_counts()
    } else if recs.last().cp_id == c && recs.last().recording.message_type == t {
        counts_with(cp_recorded_counts(recs.drop_last(), c, t), recs.last().recording)
    } else {
        cp_recorded_counts(recs.drop_last(), c, t)
    }
}

/// The statistics of a test run are the messages recorded in it: after a run of
/// recordings from no summaries, a charge point has a summary exactly when a
/// message was recorded for it, filed with the serial number of the first
/// recording for it, and each of its message types counts the messages recorded
/// for it of that type, sent and received, successes and failures.
pub proof fn lemma_run_recordings_counted(
    states: Seq<Map<usize, CPSummary>>,
    recs: Seq<RunRecording>,
    c: usize,
    t: Seq<char>,
)
    requires
        states.len() == recs.len() + 1,
        states[0] == Map::<usize, CPSummary>::empty(),
        forall|k: int| 0 <= k < states.len() ==> summaries_well_formed(#[trigger] states[k]),
        forall|k: int| 0 <= k < recs.len() ==> summary_step(#[trigger] states[k], states[k + 1], recs[k]),
    ensures
        states.last().contains_key(c) <==> first_serial(recs, c) is Some,
        states.last().contains_key(c) ==> states.last()[c].cp_serial@ == first_serial(recs, c)->0,
        states.last().contains_key(c) ==> type_counts(states.last()[c].messages@, t) == cp_recorded_counts(
            recs,
            c,
            t,
        ),
        !states.last().contains_key(c) ==> cp_recorded_counts(recs, c, t) == no_counts(),
    decreases recs.len(),
{
    if recs.len() > 0 {
        let n = recs.len() - 1;
        let s2 = states.drop_last();
        let r2 = recs.drop_last();
        assert forall|k: int| 0 <= k < s2.len() implies summaries_well_formed(#[trigger] s2[k]) by {
            assert(s2[k] == states[k]);
        }
        assert forall|k: int| 0 <= k < r2.len() implies summary_step(#[trigger] s2[k], s2[k + 1], r2[k]) by {
            assert(s2[k] == states[k] && s2[k + 1] == states[k + 1] && r2[k] == recs[k]);
            assert(summary_step(states[k], states[k + 1], recs[k]));
        }
        lemma_run_recordings_counted(s2, r2, c, t);
        let before = states[n];
        let after = states[n + 1];
        let r = recs[n];
        assert(s2.last() == before);
        assert(states.last() == after);
        assert(recs.last() == r);
        assert(summary_step(before, after, r));
        assert(summaries_well_formed(before));
        assert(summaries_well_formed(after));
        let cp = choose|cp: CPSummary|
            {
                &&& after == before.insert(r.cp_id, cp)
                &&& recording_step(
                    match before.get(r.cp_id) {
                        Some(old) => old.messages@,
                        None => Seq::empty(),
                    },
                    #[trigger] cp.messages@,
                    r.recording,
                )
                &&& cp.cp_serial@ == match before.get(r.cp_id) {
                    Some(old) => old.cp_serial@,
                    None => r.cp_serial,
                }
            };
        if r.cp_id == c {
            assert(after.contains_key(c));
            assert(after[c] == cp);
            assert(distinct_types(cp.messages@));
            let prior = match before.get(c) {
                Some(old) => old.messages@,
                None => Seq::<MessageTypeStats>::empty(),
            };
            if before.contains_key(c) {
                assert(distinct_types(before[c].messages@));
            } else {
                assert(stats_position(prior, t) is None);
            }
            lemma_recording_step_counts(prior, cp.messages@, r.recording, t);
        } else {
            assert(after.contains_key(c) == before.contains_key(c));
            if before.contains_key(c) {
                assert(after[c] == before[c]);
            }
        }
    }
}

impl TestSummary {
    /// A summary with no charge points, started now.
    pub fn new() -> (r: Self)
        ensures
            r.cps@ == Map::<usize, CPSummary>::empty(),
            utc_timestamp(r.start_time@),
            r.end_time@.len() == 0,
    {
        TestSummary { cps: HashMap::new(), start_time: now_rfc3339(), end_time: String::new() }
    }

    /// Marks the summary as ended now.
    pub fn finalize(&mut self)
        ensures
            final(self).cps == old(self).cps,
            final(self).start_time == old(self).start_time,
            utc_timestamp(final(self).end_time@),
    {
        self.end_time = now_rfc3339();
    }

    /// The summary of charge point `cp_id`, filed with `cp_serial` and nothing
    /// counted when there is none yet.
    pub fn get_or_create_cp(&mut self, cp_id: usize, cp_serial: String) -> (r: &mut CPSummary)
        requires
            summaries_well_formed(old(self).cps@),
        ensures
            final(self).start_time == old(self).start_time,
            final(self).end_time == old(self).end_time,
            r.cp_id == cp_id,
            distinct_types(r.messages@),
            match old(self).cps@.get(cp_id) {
                Some(s) => *r == s,
                None => r.cp_serial == cp_serial && r.messages@.len() == 0,
            },
            final(self).cps@ == old(self).cps@.insert(cp_id, *final(r)),
    {
        proof {
            broadcast use vstd::std_specs::hash::group_hash_axioms;
        }
        self.cps.entry(cp_id).or_insert(CPSummary::new(cp_id, cp_serial))
    }
}

} // verus!
