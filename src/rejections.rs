use std::collections::HashMap;
use vstd::prelude::*;

verus! {

/// What the engine reports about a promise's rejection.
pub enum PromiseRejectEvent<V> {
    /// The promise was rejected with this error and no handler was attached.
    RejectWithNoHandler(V),
    /// A handler was attached to a promise after it had been rejected.
    HandlerAddedAfterReject,
    /// The promise was rejected after it had already been resolved.
    RejectAfterResolved,
    /// The promise was resolved a second time.
    ResolveAfterResolved,
}

/// How one event changes a table that maps promise identities to the errors
/// they were rejected with.
pub open spec fn reject_transition<V>(
    table: Map<i32, V>,
    promise_id: i32,
    event: PromiseRejectEvent<V>,
) -> Map<i32, V> {
    match event {
        PromiseRejectEvent::RejectWithNoHandler(error) => table.insert(promise_id, error),
        PromiseRejectEvent::HandlerAddedAfterReject => table.remove(promise_id),
        _ => table,
    }
}

/// The table after `events`, each a promise identity and what the engine
/// reported about it, in the order they came.
pub open spec fn apply_events<V>(table: Map<i32, V>, events: Seq<(i32, PromiseRejectEvent<V>)>) -> Map<
    i32,
    V,
>
    decreases events.len(),
{
    if events.len() == 0 {
        table
    } else {
        reject_transition(apply_events(table, events.drop_last()), events.last().0, events.last().1)
    }
}

/// A promise that gains a handler after its rejection is not unhandled at
/// the end, unless it is rejected with no handler again afterwards.
pub proof fn lemma_caught_rejection_cleared<V>(
    table: Map<i32, V>,
    events: Seq<(i32, PromiseRejectEvent<V>)>,
    promise_id: i32,
    caught_at: int,
)
    requires
        0 <= caught_at < events.len(),
        events[caught_at] == (promise_id, PromiseRejectEvent::<V>::HandlerAddedAfterReject),
        forall|k: int|
            caught_at < k < events.len() && events[k].0 == promise_id ==> !(
            events[k].1 is RejectWithNoHandler),
    ensures
        !apply_events(table, events).contains_key(promise_id),
    decreases events.len(),
{
    if caught_at < events.len() - 1 {
        let rest = events.drop_last();
        assert forall|k: int|
            caught_at < k < rest.len() && rest[k].0 == promise_id implies !(
            rest[k].1 is RejectWithNoHandler) by {
            assert(rest[k] == events[k]);
        }
        lemma_caught_rejection_cleared(table, rest, promise_id, caught_at);
    }
}

/// A promise rejected with no handler, and never given one afterwards, is
/// still in the table at the end.
pub proof fn lemma_uncaught_rejection_kept<V>(
    table: Map<i32, V>,
    events: Seq<(i32, PromiseRejectEvent<V>)>,
    promise_id: i32,
    rejected_at: int,
)
    requires
        0 <= rejected_at < events.len(),
        events[rejected_at].0 == promise_id,
        events[rejected_at].1 is RejectWithNoHandler,
        forall|k: int|
            rejected_at < k < events.len() && events[k].0 == promise_id ==> !(
            events[k].1 is HandlerAddedAfterReject),
    ensures
        apply_events(table, events).contains_key(promise_id),
    decreases events.len(),
{
    if rejected_at < events.len() - 1 {
        let rest = events.drop_last();
        assert forall|k: int|
            rejected_at < k < rest.len() && rest[k].0 == promise_id implies !(
            rest[k].1 is HandlerAddedAfterReject) by {
            assert(rest[k] == events[k]);
        }
        lemma_uncaught_rejection_kept(table, rest, promise_id, rejected_at);
    }
}

/// What a completion reports, when it hands back the table that `events`
/// left: a promise caught after its rejection is not in the report, and a
/// promise rejected and never caught is.
pub proof fn lemma_completion_report<V>(
    table: Map<i32, V>,
    events: Seq<(i32, PromiseRejectEvent<V>)>,
    report: Map<i32, V>,
    promise_id: i32,
    at: int,
)
    requires
        report == apply_events(table, events),
        0 <= at < events.len(),
        events[at].0 == promise_id,
    ensures
        events[at].1 is HandlerAddedAfterReject && (forall|k: int|
            at < k < events.len() && events[k].0 == promise_id ==> !(
            events[k].1 is RejectWithNoHandler)) ==> !report.contains_key(promise_id),
        events[at].1 is RejectWithNoHandler && (forall|k: int|
            at < k < events.len() && events[k].0 == promise_id ==> !(
            events[k].1 is HandlerAddedAfterReject)) ==> report.contains_key(promise_id),
{
    if events[at].1 is HandlerAddedAfterReject && (forall|k: int|
        at < k < events.len() && events[k].0 == promise_id ==> !(
        events[k].1 is RejectWithNoHandler)) {
        assert(events[at] == (promise_id, PromiseRejectEvent::<V>::HandlerAddedAfterReject));
        lemma_caught_rejection_cleared(table, events, promise_id, at);
    }
    if events[at].1 is RejectWithNoHandler && (forall|k: int|
        at < k < events.len() && events[k].0 == promise_id ==> !(
        events[k].1 is HandlerAddedAfterReject)) {
        lemma_uncaught_rejection_kept(table, events, promise_id, at);
    }
}

/// Applying one more event is one more step of the table: a run of
/// `on_event` calls keeps the table equal to `apply_events` of the events
/// seen so far.
pub proof fn lemma_apply_events_push<V>(
    table: Map<i32, V>,
    events: Seq<(i32, PromiseRejectEvent<V>)>,
    promise_id: i32,
    event: PromiseRejectEvent<V>,
)
    ensures
        apply_events(table, events.push((promise_id, event))) == reject_transition(
            apply_events(table, events),
            promise_id,
            event,
        ),
{
    assert(events.push((promise_id, event)).drop_last() =~= events);
}

/// The promises that were rejected with no handler, and not handled since,
/// keyed by the promise's identity hash.
pub struct RejectionTable<V> {
    table: HashMap<i32, V>,
}

impl<V> RejectionTable<V> {
    /// The table as a map from promise identity to error.
    pub closed spec fn view(&self) -> Map<i32, V> {
        self.table@
    }

    /// An empty table.
    pub fn new() -> (r: Self)
        ensures
            r@ == Map::<i32, V>::empty(),
    {
        RejectionTable { table: HashMap::new() }
    }

    /// The number of unhandled rejections recorded.
    pub fn len(&self) -> (r: usize)
        ensures
            r == self@.len(),
    {
        broadcast use vstd::std_specs::hash::group_hash_axioms;

        self.table.len()
    }

    /// Whether no unhandled rejection is recorded.
    pub fn is_empty(&self) -> (r: bool)
        ensures
            r == (self@ == Map::<i32, V>::empty()),
    {
        let r = self.table.is_empty();
        proof {
            if r {
                assert(self@ =~= Map::<i32, V>::empty());
            } else {
                assert(self@.dom() != Set::<i32>::empty());
            }
        }
        r
    }

    /// Whether a rejection of the promise `promise_id` is recorded.
    pub fn contains(&self, promise_id: i32) -> (r: bool)
        ensures
            r == self@.contains_key(promise_id),
    {
        broadcast use vstd::std_specs::hash::group_hash_axioms;

        self.table.contains_key(&promise_id)
    }

    /// Applies one event of the engine to the table.
    pub fn on_event(&mut self, promise_id: i32, event: PromiseRejectEvent<V>)
        ensures
            final(self)@ == reject_transition(old(self)@, promise_id, event),
    {
        broadcast use vstd::std_specs::hash::group_hash_axioms;

        match event {
            PromiseRejectEvent::RejectWithNoHandler(error) => {
                let _ = self.table.insert(promise_id, error);
            },
            PromiseRejectEvent::HandlerAddedAfterReject => {
                let _ = self.table.remove(&promise_id);
            },
            PromiseRejectEvent::RejectAfterResolved => {},
            PromiseRejectEvent::ResolveAfterResolved => {},
        }
    }

    /// Empties the table and hands back what it held.
    pub fn take_all(&mut self) -> (r: HashMap<i32, V>)
        ensures
            final(self)@ == Map::<i32, V>::empty(),
            r@ == old(self)@,
    {
        let mut r: HashMap<i32, V> = HashMap::new();
        core::mem::swap(&mut self.table, &mut r);
        r
    }
}

} // verus!
