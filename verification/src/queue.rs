//! Event queue with batching.

use vstd::prelude::*;

use crate::types::TrackerEvent;

verus! {

/// Event queue that batches events for sending.
///
/// Its view is the sequence of pending events in enqueue order. The queue has
/// no hard capacity: `max_size` is only the threshold at which a flush is
/// reported as due.
#[derive(Debug)]
pub struct EventQueue {
    events: Vec<TrackerEvent>,
    max_size: usize,
}

impl View for EventQueue {
    type V = Seq<TrackerEvent>;

    closed spec fn view(&self) -> Seq<TrackerEvent> {
        self.events@
    }
}

impl EventQueue {
    /// The flush threshold the queue was created with.
    pub closed spec fn spec_max_size(&self) -> usize {
        self.max_size
    }

    /// Create a new event queue.
    pub fn new(max_size: usize) -> (r: EventQueue)
        ensures
            r@ == Seq::<TrackerEvent>::empty(),
            r.spec_max_size() == max_size,
    {
        EventQueue { events: Vec::new(), max_size }
    }

    /// Add an event to the tail of the queue. Always succeeds: whether the
    /// client still accepts events is decided one layer up.
    pub fn enqueue(&mut self, event: TrackerEvent)
        ensures
            final(self)@ == old(self)@.push(event),
            final(self).spec_max_size() == old(self).spec_max_size(),
    {
        self.events.push(event);
    }

    /// True iff the queue holds at least `max_size` events and a flush is due.
    pub fn should_flush(&self) -> (r: bool)
        ensures
            r == (self@.len() >= self.spec_max_size()),
    {
        self.events.len() >= self.max_size
    }

    /// The number of events in the queue.
    pub fn len(&self) -> (r: usize)
        ensures
            r == self@.len(),
    {
        self.events.len()
    }

    /// True iff the queue holds no events.
    pub fn is_empty(&self) -> (r: bool)
        ensures
            r == (self@.len() == 0),
    {
        self.events.len() == 0
    }

    /// Remove and return all queued events, in their enqueue order, leaving
    /// the queue empty. On an empty queue this returns an empty batch.
    pub fn drain(&mut self) -> (r: Vec<TrackerEvent>)
        ensures
            r@ == old(self)@,
            final(self)@ == Seq::<TrackerEvent>::empty(),
            final(self).spec_max_size() == old(self).spec_max_size(),
    {
        let mut taken: Vec<TrackerEvent> = Vec::new();
        core::mem::swap(&mut taken, &mut self.events);
        taken
    }

    /// Prepend events to the front of the queue, ahead of everything already
    /// there; the order inside `events_to_add` and the order of the existing
    /// contents are both kept. Used to requeue a batch after a failed send.
    /// Requeueing an empty batch leaves the queue unchanged.
    pub fn requeue(&mut self, events_to_add: Vec<TrackerEvent>)
        ensures
            final(self)@ == events_to_add@ + old(self)@,
            events_to_add@.len() == 0 ==> final(self)@ == old(self)@,
            final(self).spec_max_size() == old(self).spec_max_size(),
    {
        proof {
            if events_to_add@.len() == 0 {
                assert(events_to_add@ + self@ =~= self@);
            }
        }
        if events_to_add.is_empty() {
            return;
        }
        let mut combined = events_to_add;
        combined.append(&mut self.events);
        self.events = combined;
    }
}

/// Order preservation: events drained from a queue come back in enqueue
/// order. Enqueueing `a`, `b`, `c` in turn extends the pending sequence by
/// exactly `[a, b, c]`, so a drain after the three enqueues ends in `a`, `b`,
/// `c` in that order.
pub proof fn lemma_enqueue_preserves_order(
    q: Seq<TrackerEvent>,
    a: TrackerEvent,
    b: TrackerEvent,
    c: TrackerEvent,
)
    ensures
        q.push(a).push(b).push(c) == q + seq![a, b, c],
{
    assert(q.push(a).push(b).push(c) =~= q + seq![a, b, c]);
}

/// Requeue ordering: after a failed batch is put back, the pending sequence
/// is the batch followed by what the queue already held. The batch keeps its
/// internal order and comes strictly before the older contents, which keep
/// theirs.
pub proof fn lemma_requeue_preserves_order(batch: Seq<TrackerEvent>, q: Seq<TrackerEvent>)
    ensures
        (batch + q).len() == batch.len() + q.len(),
        forall|i: int| 0 <= i < batch.len() ==> (batch + q)[i] == batch[i],
        forall|i: int| 0 <= i < q.len() ==> (batch + q)[batch.len() + i] == q[i],
{
}

} // verus!
