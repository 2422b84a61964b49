//! The event queue of a charge point: scheduled events wait until they are due and
//! come out earliest first; events added while the scenario runs get the next
//! number.

use vstd::prelude::*;
use crate::events::{EventKind, EventModel};

verus! {

/// An event in the queue: when it is due, its number among the charge point's
/// events, and the event.
#[derive(Debug)]
pub struct QueuedEvent {
    pub due: u64,
    pub index: usize,
    pub event: EventKind,
}

/// The mathematical value of a [`QueuedEvent`].
pub struct QueuedEventModel {
    pub due: u64,
    pub index: usize,
    pub event: EventModel,
}

impl View for QueuedEvent {
    type V = QueuedEventModel;

    open spec fn view(&self) -> QueuedEventModel {
        QueuedEventModel { due: self.due, index: self.index, event: self.event@ }
    }
}

/// The waiting events and the number that the next added event gets.
pub struct EventQueue {
    pub items: Vec<QueuedEvent>,
    pub next_index: usize,
}

/// The models of queued events.
pub open spec fn queued_models(items: Seq<QueuedEvent>) -> Seq<QueuedEventModel> {
    items.map_values(|e: QueuedEvent| e@)
}

/// Whether event `i` is due no later than any other.
pub open spec fn earliest(q: Seq<QueuedEventModel>, i: int) -> bool {
    &&& 0 <= i < q.len()
    &&& forall|j: int| 0 <= j < q.len() ==> q[i].due <= #[trigger] q[j].due
}

/// Whether event `i` is the first of the events due earliest.
pub open spec fn first_earliest(q: Seq<QueuedEventModel>, i: int) -> bool {
    &&& earliest(q, i)
    &&& forall|j: int| 0 <= j < i ==> q[i].due < #[trigger] q[j].due
}

/// Whether the events stand in the order of their numbers.
pub open spec fn numbered_in_order(q: Seq<QueuedEventModel>) -> bool {
    forall|i: int, j: int| 0 <= i < j < q.len() ==> (#[trigger] q[i]).index < (#[trigger] q[j]).index
}

impl EventQueue {
    /// The waiting events.
    pub open spec fn waiting(&self) -> Seq<QueuedEventModel> {
        queued_models(self.items@)
    }

    /// Every waiting event has a number below the next one, and the waiting events
    /// stand in the order of their numbers.
    pub open spec fn well_formed(&self) -> bool {
        &&& forall|i: int| 0 <= i < self.items@.len() ==> (#[trigger] self.items@[i]).index < self.next_index
        &&& numbered_in_order(self.waiting())
    }

    /// The queue of a scenario's events, each due at the moment given beside it and
    /// numbered by its place in the scenario.
    pub fn new(initial: Vec<(u64, EventKind)>) -> (r: Self)
        ensures
            r.well_formed(),
            r.next_index == initial@.len(),
            r.waiting().len() == initial@.len(),
            forall|i: int|
                0 <= i < initial@.len() ==> #[trigger] r.waiting()[i] == (QueuedEventModel {
                    due: initial@[i].0,
                    index: i as usize,
                    event: initial@[i].1@,
                }),
    {
        let mut items: Vec<QueuedEvent> = Vec::new();
        let mut rest = initial;
        let ghost original = rest@;
        let n = rest.len();
        let mut taken: Vec<(u64, EventKind)> = Vec::new();
        // Move the events out in order: reverse once, then pop from the end.
        let mut k: usize = 0;
        while k < n
            invariant
                k <= n,
                n == original.len(),
                rest@ == original.subrange(0, (n - k) as int),
                taken@.len() == k,
                forall|j: int| 0 <= j < k ==> #[trigger] taken@[j] == original[n - 1 - j],
            decreases n - k,
        {
            let e = rest.pop().unwrap();
            taken.push(e);
            k = k + 1;
            assert(rest@ =~= original.subrange(0, (n - k) as int));
        }
        let mut i: usize = 0;
        while i < n
            invariant
                i <= n,
                n == original.len(),
                taken@.len() == n - i,
                forall|j: int| 0 <= j < n - i ==> #[trigger] taken@[j] == original[n - 1 - j],
                items@.len() == i,
                forall|j: int|
                    0 <= j < i ==> (#[trigger] items@[j])@ == (QueuedEventModel {
                        due: original[j].0,
                        index: j as usize,
                        event: original[j].1@,
                    }),
            decreases n - i,
        {
            let (due, event) = taken.pop().unwrap();
            items.push(QueuedEvent { due, index: i, event });
            i = i + 1;
        }
        let r = EventQueue { items, next_index: n };
        assert forall|j: int| 0 <= j < initial@.len() implies #[trigger] r.waiting()[j] == (QueuedEventModel {
            due: initial@[j].0,
            index: j as usize,
            event: initial@[j].1@,
        }) by {
            assert(r.waiting()[j] == r.items@[j]@);
        }
        r
    }

    /// Adds an event due at `due`; it gets the next number.
    pub fn insert(&mut self, due: u64, event: EventKind)
        requires
            old(self).well_formed(),
            old(self).next_index < usize::MAX,
        ensures
            final(self).well_formed(),
            final(self).next_index == old(self).next_index + 1,
            final(self).waiting() == old(self).waiting().push(
                QueuedEventModel { due, index: old(self).next_index, event: event@ },
            ),
    {
        let index = self.next_index;
        self.items.push(QueuedEvent { due, index, event });
        self.next_index = index + 1;
        assert(self.waiting() =~= old(self).waiting().push(
            QueuedEventModel { due, index, event: event@ },
        ));
    }

    /// The moment the earliest waiting event is due, if any waits.
    pub fn next_due(&self) -> (r: Option<u64>)
        ensures
            match r {
                Some(d) => exists|i: int| earliest(self.waiting(), i) && self.waiting()[i].due == d,
                None => self.waiting().len() == 0,
            },
    {
        match self.earliest_position() {
            Some(i) => {
                assert(self.waiting()[i as int] == self.items@[i as int]@);
                Some(self.items[i].due)
            },
            None => None,
        }
    }

    /// The position of the first of the earliest events.
    fn earliest_position(&self) -> (r: Option<usize>)
        ensures
            match r {
                Some(i) => first_earliest(self.waiting(), i as int),
                None => self.waiting().len() == 0,
            },
    {
        if self.items.len() == 0 {
            return None;
        }
        let ghost w = self.waiting();
        let mut best: usize = 0;
        let mut i: usize = 1;
        assert(w[0] == self.items@[0]@);
        while i < self.items.len()
            invariant
                w == self.waiting(),
                w.len() == self.items@.len(),
                0 <= best < i <= self.items@.len(),
                forall|j: int| 0 <= j < i ==> w[best as int].due <= #[trigger] w[j].due,
                forall|j: int| 0 <= j < best ==> w[best as int].due < #[trigger] w[j].due,
            decreases self.items@.len() - i,
        {
            assert(w[i as int] == self.items@[i as int]@);
            assert(w[best as int] == self.items@[best as int]@);
            if self.items[i].due < self.items[best].due {
                best = i;
            }
            i = i + 1;
        }
        Some(best)
    }

    /// Takes out the earliest waiting event when it is due at `now` or before, the
    /// first queued among several due at the same moment; the others stay as they
    /// were.
    pub fn pop_due(&mut self, now: u64) -> (r: Option<QueuedEvent>)
        requires
            old(self).well_formed(),
        ensures
            final(self).well_formed(),
            final(self).next_index == old(self).next_index,
            match r {
                Some(e) => exists|i: int|
                    first_earliest(old(self).waiting(), i) && old(self).waiting()[i] == e@ && e.due <= now
                        && final(self).waiting() == old(self).waiting().remove(i),
                None => final(self).waiting() == old(self).waiting() && forall|j: int|
                    0 <= j < old(self).waiting().len() ==> now < #[trigger] old(self).waiting()[j].due,
            },
    {
        match self.earliest_position() {
            Some(i) => {
                let ghost w = self.waiting();
                assert(w[i as int] == self.items@[i as int]@);
                if self.items[i].due <= now {
                    let e = self.items.remove(i);
                    assert(self.waiting() =~= w.remove(i as int));
                    assert(forall|j: int| 0 <= j < self.items@.len() ==> #[trigger] self.items@[j] == old(self).items@[
                        if j < i { j } else { j + 1 }
                    ]);
                    Some(e)
                } else {
                    None
                }
            },
            None => None,
        }
    }
}

/// Events come out of the queue in the order they are due: once the earliest
/// event is taken out, none of those left is due before it.
pub proof fn lemma_popped_is_earliest(q: Seq<QueuedEventModel>, i: int, j: int)
    requires
        earliest(q, i),
        0 <= j < q.remove(i).len(),
    ensures
        q[i].due <= q.remove(i)[j].due,
{
    let k = if j < i { j } else { j + 1 };
    assert(q.remove(i)[j] == q[k]);
}

/// Events come out of the queue in the order they are due, and events due at the
/// same moment in the order they were queued: the event taken out after the first
/// of the earliest is due no earlier, and if it is due at the same moment, it has a
/// later number.
pub proof fn lemma_events_leave_in_order(q: Seq<QueuedEventModel>, i: int, k: int)
    requires
        numbered_in_order(q),
        first_earliest(q, i),
        first_earliest(q.remove(i), k),
    ensures
        q[i].due <= q.remove(i)[k].due,
        q[i].due == q.remove(i)[k].due ==> q[i].index < q.remove(i)[k].index,
{
    if k < i {
        assert(q.remove(i)[k] == q[k]);
    } else {
        assert(q.remove(i)[k] == q[k + 1]);
    }
}

/// Whether event `a` runs before event `b`: it is due earlier, or due at the same
/// moment with a lower number.
pub open spec fn runs_before(a: QueuedEventModel, b: QueuedEventModel) -> bool {
    a.due < b.due || (a.due == b.due && a.index < b.index)
}

/// A step of a charge point's event loop: an event is added to the queue, or the
/// event at a position is taken out to run.
pub enum QueueStep {
    Insert(QueuedEventModel),
    Take(int),
}

/// The waiting events and the events taken out, in order, after `steps` from the
/// waiting events `q`.
pub open spec fn run_steps(q: Seq<QueuedEventModel>, steps: Seq<QueueStep>) -> (
    Seq<QueuedEventModel>,
    Seq<QueuedEventModel>,
)
    decreases steps.len(),
{
    if steps.len() == 0 {
        (q, Seq::empty())
    } else {
        let (waiting, taken) = run_steps(q, steps.drop_last());
        match steps.last() {
            QueueStep::Insert(e) => (waiting.push(e), taken),
            QueueStep::Take(i) => (waiting.remove(i), taken.push(waiting[i])),
        }
    }
}

/// Whether an event added while the queue runs is as [`EventQueue::insert`] adds
/// it: its number is above those of the events waiting and of those taken out,
/// and it is due no earlier than the last event taken out.
pub open spec fn fresh_event(e: QueuedEventModel, waiting: Seq<QueuedEventModel>, taken: Seq<QueuedEventModel>) -> bool {
    &&& forall|j: int| 0 <= j < waiting.len() ==> (#[trigger] waiting[j]).index < e.index
    &&& forall|j: int| 0 <= j < taken.len() ==> (#[trigger] taken[j]).index < e.index
    &&& taken.len() > 0 ==> taken.last().due <= e.due
}

/// Whether every step of a run is one the queue takes: added events are fresh, and
/// each event taken out is the first of those due earliest, as
/// [`EventQueue::pop_due`] takes it.
pub open spec fn valid_run(q: Seq<QueuedEventModel>, steps: Seq<QueueStep>) -> bool
    decreases steps.len(),
{
    if steps.len() == 0 {
        true
    } else {
        let (waiting, taken) = run_steps(q, steps.drop_last());
        &&& valid_run(q, steps.drop_last())
        &&& match steps.last() {
            QueueStep::Insert(e) => fresh_event(e, waiting, taken),
            QueueStep::Take(i) => first_earliest(waiting, i),
        }
    }
}

/// What holds after every run: the waiting events stay in number order, the events
/// taken out are in run order, every waiting event runs after those taken out, and
/// no number is taken out twice.
pub open spec fn run_invariant(waiting: Seq<QueuedEventModel>, taken: Seq<QueuedEventModel>) -> bool {
    &&& numbered_in_order(waiting)
    &&& forall|a: int, b: int| 0 <= a < b < taken.len() ==> runs_before(#[trigger] taken[a], #[trigger] taken[b])
    &&& forall|a: int, j: int|
        0 <= a < taken.len() && 0 <= j < waiting.len() ==> runs_before(#[trigger] taken[a], #[trigger] waiting[j])
    &&& forall|a: int, b: int| 0 <= a < b < taken.len() ==> (#[trigger] taken[a]).index != (#[trigger] taken[b]).index
    &&& forall|a: int, j: int|
        0 <= a < taken.len() && 0 <= j < waiting.len() ==> (#[trigger] taken[a]).index != (#[trigger] waiting[j]).index
}

proof fn lemma_run_invariant(q: Seq<QueuedEventModel>, steps: Seq<QueueStep>)
    requires
        numbered_in_order(q),
        valid_run(q, steps),
    ensures
        run_invariant(run_steps(q, steps).0, run_steps(q, steps).1),
    decreases steps.len(),
{
    if steps.len() > 0 {
        lemma_run_invariant(q, steps.drop_last());
        let (waiting, taken) = run_steps(q, steps.drop_last());
        match steps.last() {
            QueueStep::Insert(e) => {
                let w2 = waiting.push(e);
                assert forall|a: int, j: int| 0 <= a < taken.len() && 0 <= j < w2.len() implies runs_before(
                    #[trigger] taken[a],
                    #[trigger] w2[j],
                ) by {
                    if j < waiting.len() {
                        assert(w2[j] == waiting[j]);
                    } else {
                        assert(w2[j] == e);
                        if a < taken.len() - 1 {
                            assert(runs_before(taken[a], taken[taken.len() - 1]));
                        }
                    }
                }
                assert forall|a: int, j: int| 0 <= a < taken.len() && 0 <= j < w2.len() implies (
                #[trigger] taken[a]).index != (#[trigger] w2[j]).index by {
                    if j < waiting.len() {
                        assert(w2[j] == waiting[j]);
                    }
                }
                assert forall|i: int, j: int| 0 <= i < j < w2.len() implies (#[trigger] w2[i]).index < (
                #[trigger] w2[j]).index by {
                    if j < waiting.len() {
                        assert(w2[i] == waiting[i] && w2[j] == waiting[j]);
                    } else {
                        assert(w2[i] == waiting[i]);
                    }
                }
            },
            QueueStep::Take(i) => {
                let x = waiting[i];
                let w2 = waiting.remove(i);
                let t2 = taken.push(x);
                assert forall|k: int| 0 <= k < w2.len() implies w2[k] == waiting[if k < i {
                    k
                } else {
                    k + 1
                }] by {}
                assert forall|a: int, b: int| 0 <= a < b < t2.len() implies runs_before(
                    #[trigger] t2[a],
                    #[trigger] t2[b],
                ) by {
                    if b < taken.len() {
                        assert(t2[a] == taken[a] && t2[b] == taken[b]);
                    } else {
                        assert(t2[a] == taken[a] && t2[b] == x);
                    }
                }
                assert forall|a: int, b: int| 0 <= a < b < t2.len() implies (#[trigger] t2[a]).index != (
                #[trigger] t2[b]).index by {
                    if b < taken.len() {
                        assert(t2[a] == taken[a] && t2[b] == taken[b]);
                    } else {
                        assert(t2[a] == taken[a] && t2[b] == x);
                    }
                }
                assert forall|a: int, j: int| 0 <= a < t2.len() && 0 <= j < w2.len() implies runs_before(
                    #[trigger] t2[a],
                    #[trigger] w2[j],
                ) by {
                    let k = if j < i {
                        j
                    } else {
                        j + 1
                    };
                    assert(w2[j] == waiting[k]);
                    if a < taken.len() {
                        assert(t2[a] == taken[a]);
                    } else {
                        assert(t2[a] == x);
                        assert(x.due <= waiting[k].due);
                        if k < i {
                            assert(x.due < waiting[k].due);
                        } else {
                            assert(x.index < waiting[k].index);
                        }
                    }
                }
                assert forall|a: int, j: int| 0 <= a < t2.len() && 0 <= j < w2.len() implies (
                #[trigger] t2[a]).index != (#[trigger] w2[j]).index by {
                    let k = if j < i {
                        j
                    } else {
                        j + 1
                    };
                    assert(w2[j] == waiting[k]);
                    if a < taken.len() {
                        assert(t2[a] == taken[a]);
                    } else {
                        assert(t2[a] == x);
                    }
                }
                assert forall|a: int, b: int| 0 <= a < b < w2.len() implies (#[trigger] w2[a]).index < (
                #[trigger] w2[b]).index by {
                    let ka = if a < i {
                        a
                    } else {
                        a + 1
                    };
                    let kb = if b < i {
                        b
                    } else {
                        b + 1
                    };
                    assert(w2[a] == waiting[ka] && w2[b] == waiting[kb]);
                }
            },
        }
    }
}

/// Whatever a charge point's event loop does, adding events as
/// [`EventQueue::insert`] numbers them and taking out events as
/// [`EventQueue::pop_due`] chooses them, the events run in the order they are due,
/// those due at the same moment in the order of their numbers, and no event runs
/// twice.
pub proof fn lemma_events_run_in_order(q: Seq<QueuedEventModel>, steps: Seq<QueueStep>)
    requires
        numbered_in_order(q),
        valid_run(q, steps),
    ensures
        forall|a: int, b: int|
            0 <= a < b < run_steps(q, steps).1.len() ==> runs_before(
                #[trigger] run_steps(q, steps).1[a],
                #[trigger] run_steps(q, steps).1[b],
            ),
        forall|a: int, b: int|
            0 <= a < b < run_steps(q, steps).1.len() ==> (#[trigger] run_steps(q, steps).1[a]).index != (
            #[trigger] run_steps(q, steps).1[b]).index,
{
    lemma_run_invariant(q, steps);
}

} // verus!
