//! Client core: flush coordination and lifecycle.
//!
//! `ClientCore` is the shared state of one client: the pending-event queue
//! and the one-way shutdown flag. Every decision the client makes — whether
//! an event is accepted, when a batch is due, what a timer tick should do,
//! which shutdown call performs the terminal flush — is a method here with a
//! full contract. The surrounding runtime holds a `ClientCore` behind a lock,
//! calls these methods inside short critical sections, and performs the
//! network sends and timer sleeps between them.

use vstd::prelude::*;

use crate::error::Error;
use crate::queue::EventQueue;
use crate::types::IngestPayload;
use crate::types::SourceType;
use crate::types::TrackerEvent;

verus! {

/// What one tick of the periodic flush timer should do.
pub enum TickStep {
    /// The client is shut down: the timer loop must stop.
    Stop,
    /// Nothing is pending: skip this tick.
    Idle,
    /// Send this payload; on failure, hand its events to `fail_flush`.
    Send(IngestPayload),
}

/// The verified core of a client: pending events plus the lifecycle flag.
#[derive(Debug)]
pub struct ClientCore {
    queue: EventQueue,
    shutdown: bool,
}

impl ClientCore {
    /// The pending events, in enqueue order.
    pub closed spec fn spec_pending(&self) -> Seq<TrackerEvent> {
        self.queue@
    }

    /// True iff the client has been shut down (a one-way transition).
    pub closed spec fn spec_shutdown(&self) -> bool {
        self.shutdown
    }

    /// The batch-size threshold at which a flush becomes due.
    pub closed spec fn spec_max_batch_size(&self) -> usize {
        self.queue.spec_max_size()
    }

    /// Create an active core with an empty queue.
    pub fn new(max_batch_size: usize) -> (r: ClientCore)
        ensures
            r.spec_pending() == Seq::<TrackerEvent>::empty(),
            !r.spec_shutdown(),
            r.spec_max_batch_size() == max_batch_size,
    {
        ClientCore { queue: EventQueue::new(max_batch_size), shutdown: false }
    }

    /// The number of pending events. A point-in-time snapshot: concurrent
    /// callers must not assume it still holds after the lock is released.
    pub fn pending_event_count(&self) -> (r: usize)
        ensures
            r == self.spec_pending().len(),
    {
        self.queue.len()
    }

    /// True iff the client has been shut down.
    pub fn is_shutdown(&self) -> (r: bool)
        ensures
            r == self.spec_shutdown(),
    {
        self.shutdown
    }

    /// Reject the caller with `Error::Shutdown` iff the client is shut down.
    pub fn ensure_not_shutdown(&self) -> (r: Result<(), Error>)
        ensures
            r is Ok <==> !self.spec_shutdown(),
            self.spec_shutdown() ==> r == Result::<(), Error>::Err(Error::Shutdown),
    {
        if self.shutdown {
            return Err(Error::Shutdown);
        }
        Ok(())
    }

    /// Accept an event, or reject it once the client is shut down.
    ///
    /// On an active client the event is appended to the queue and the call
    /// returns `Ok(flush_due)`, where `flush_due` says whether the queue has
    /// now reached the batch-size threshold (the caller then performs a
    /// flush). On a shut-down client nothing changes and the call returns
    /// `Err(Error::Shutdown)`.
    pub fn enqueue_and_maybe_flush(&mut self, event: TrackerEvent) -> (r: Result<bool, Error>)
        ensures
            final(self).spec_shutdown() == old(self).spec_shutdown(),
            final(self).spec_max_batch_size() == old(self).spec_max_batch_size(),
            old(self).spec_shutdown() ==> {
                &&& r == Result::<bool, Error>::Err(Error::Shutdown)
                &&& final(self).spec_pending() == old(self).spec_pending()
            },
            !old(self).spec_shutdown() ==> {
                &&& final(self).spec_pending() == old(self).spec_pending().push(event)
                &&& r == Result::<bool, Error>::Ok(
                    final(self).spec_pending().len() >= old(self).spec_max_batch_size(),
                )
            },
    {
        if self.shutdown {
            return Err(Error::Shutdown);
        }
        self.queue.enqueue(event);
        Ok(self.queue.should_flush())
    }

    /// Start a flush: atomically drain the queue into a payload.
    ///
    /// Returns `None`, touching nothing, when the queue is empty — an empty
    /// flush never reaches the transport. Otherwise the queue is left empty
    /// and the payload carries every drained event in enqueue order, tagged
    /// with the server source.
    pub fn begin_flush(&mut self) -> (r: Option<IngestPayload>)
        ensures
            final(self).spec_shutdown() == old(self).spec_shutdown(),
            final(self).spec_max_batch_size() == old(self).spec_max_batch_size(),
            match r {
                None => {
                    &&& old(self).spec_pending().len() == 0
                    &&& final(self).spec_pending() == old(self).spec_pending()
                },
                Some(payload) => {
                    &&& old(self).spec_pending().len() > 0
                    &&& payload.source is Server
                    &&& payload.events@ == old(self).spec_pending()
                    &&& final(self).spec_pending() == Seq::<TrackerEvent>::empty()
                },
            },
    {
        if self.queue.is_empty() {
            return None;
        }
        let events = self.queue.drain();
        Some(IngestPayload { source: SourceType::Server, events })
    }

    /// Record a failed send: the whole batch goes back to the front of the
    /// queue, ahead of anything enqueued since, in its original order, so
    /// that no event is lost and failed events are retried before newer ones.
    pub fn fail_flush(&mut self, batch: Vec<TrackerEvent>)
        ensures
            final(self).spec_shutdown() == old(self).spec_shutdown(),
            final(self).spec_max_batch_size() == old(self).spec_max_batch_size(),
            final(self).spec_pending() == batch@ + old(self).spec_pending(),
    {
        self.queue.requeue(batch);
    }

    /// Make the one-way transition to the shut-down state.
    ///
    /// Returns true iff the client was still active, i.e. iff this call is
    /// the one that won; only the winner stops the timer and performs the
    /// terminal flush, so the terminal flush happens exactly once however
    /// many times shutdown is requested. The queue is not touched.
    pub fn begin_shutdown(&mut self) -> (r: bool)
        ensures
            r == !old(self).spec_shutdown(),
            final(self).spec_shutdown(),
            final(self).spec_pending() == old(self).spec_pending(),
            final(self).spec_max_batch_size() == old(self).spec_max_batch_size(),
    {
        let was_shutdown = self.shutdown;
        self.shutdown = true;
        !was_shutdown
    }

    /// Decide one tick of the periodic flush timer: stop once the client is
    /// shut down, skip when nothing is pending, otherwise drain everything
    /// into a payload to send (exactly as a manual flush would).
    pub fn timer_tick(&mut self) -> (r: TickStep)
        ensures
            final(self).spec_shutdown() == old(self).spec_shutdown(),
            final(self).spec_max_batch_size() == old(self).spec_max_batch_size(),
            match r {
                TickStep::Stop => {
                    &&& old(self).spec_shutdown()
                    &&& final(self).spec_pending() == old(self).spec_pending()
                },
                TickStep::Idle => {
                    &&& !old(self).spec_shutdown()
                    &&& old(self).spec_pending().len() == 0
                    &&& final(self).spec_pending() == old(self).spec_pending()
                },
                TickStep::Send(payload) => {
                    &&& !old(self).spec_shutdown()
                    &&& old(self).spec_pending().len() > 0
                    &&& payload.source is Server
                    &&& payload.events@ == old(self).spec_pending()
                    &&& final(self).spec_pending() == Seq::<TrackerEvent>::empty()
                },
            },
    {
        if self.shutdown {
            return TickStep::Stop;
        }
        match self.begin_flush() {
            None => TickStep::Idle,
            Some(payload) => TickStep::Send(payload),
        }
    }
}

/// The lifecycle state after `calls` shutdown requests from state `s`.
pub open spec fn shutdown_after(s: bool, calls: nat) -> bool
    decreases calls,
{
    if calls == 0 {
        s
    } else {
        shutdown_after(true, (calls - 1) as nat)
    }
}

/// Whether the shutdown request with index `i` (counting from 0) wins — that
/// is, finds the client still active — when the state starts at `s` and each
/// request sets the flag, as `begin_shutdown` does.
pub open spec fn shutdown_call_wins(s: bool, i: nat) -> bool
    decreases i,
{
    if i == 0 {
        !s
    } else {
        shutdown_call_wins(true, (i - 1) as nat)
    }
}

/// Shutdown idempotence: starting from an active client, exactly the first
/// of any number of shutdown requests wins, and the client is shut down from
/// then on — so the terminal flush is performed exactly once, no matter how
/// often or from how many callers shutdown is requested.
pub proof fn lemma_shutdown_exactly_once(i: nat)
    ensures
        shutdown_call_wins(false, i) <==> i == 0,
        shutdown_after(false, (i + 1) as nat),
    decreases i,
{
    if i > 0 {
        lemma_shutdown_won_at_most_once((i - 1) as nat);
    }
    lemma_shutdown_stays_shut(i);
}

/// Once shut down, a client never reports a later shutdown request as the
/// winner.
pub proof fn lemma_shutdown_won_at_most_once(i: nat)
    ensures
        !shutdown_call_wins(true, i),
    decreases i,
{
    if i > 0 {
        lemma_shutdown_won_at_most_once((i - 1) as nat);
    }
}

/// The shut-down state is terminal: no number of further requests leaves it.
pub proof fn lemma_shutdown_stays_shut(calls: nat)
    ensures
        shutdown_after(true, calls),
    decreases calls,
{
    if calls > 0 {
        lemma_shutdown_stays_shut((calls - 1) as nat);
    }
}

} // verus!
