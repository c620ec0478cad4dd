//! The custom-event dispatcher.
//!
//! Producers enqueue user events at any time; delivery is deferred. The
//! first enqueue since the last flush schedules one zero-delay deferred
//! callback with the host; further enqueues coalesce into it. When the flush
//! fires, the scheduled-flush flag is cleared and the whole queue is swapped
//! out at once, so events enqueued while the batch is being delivered land in
//! the next batch — never the current one, and never twice.

use vstd::prelude::*;

verus! {

/// The dispatcher state as a mathematical value.
pub ghost struct DispatcherModel<E> {
    /// Events awaiting delivery, in submission order.
    pub queue: Seq<E>,
    /// A deferred flush callback is outstanding.
    pub flush_scheduled: bool,
}

/// What an enqueue call asks of the host layer.
#[derive(Clone, Copy, Debug, PartialEq, Eq, Structural)]
pub enum SendEffect {
    /// First enqueue since the last flush: schedule one zero-delay deferred
    /// callback and record the pending token.
    ScheduleFlush,
    /// A flush is already scheduled; the event coalesces into it.
    FlushAlreadyScheduled,
}

/// The state after one event is enqueued.
pub open spec fn send_transition<E>(m: DispatcherModel<E>, event: E) -> DispatcherModel<E> {
    DispatcherModel { queue: m.queue.push(event), flush_scheduled: true }
}

/// Whether an enqueue in state `m` schedules a new flush.
pub open spec fn send_schedules_flush<E>(m: DispatcherModel<E>) -> bool {
    !m.flush_scheduled
}

/// The batch a flush fired in state `m` delivers: the whole queue, in
/// submission order.
pub open spec fn flush_batch<E>(m: DispatcherModel<E>) -> Seq<E> {
    m.queue
}

/// The state after a flush fires: queue swapped out, flag cleared (before
/// delivery begins, so enqueues made during delivery schedule a new flush).
pub open spec fn flush_transition<E>(m: DispatcherModel<E>) -> DispatcherModel<E> {
    DispatcherModel { queue: Seq::empty(), flush_scheduled: false }
}

/// The state after the events of `events` are enqueued in order.
pub open spec fn after_sends<E>(m: DispatcherModel<E>, events: Seq<E>) -> DispatcherModel<E>
    decreases events.len(),
{
    if events.len() == 0 {
        m
    } else {
        send_transition(after_sends(m, events.drop_last()), events.last())
    }
}

/// Enqueued events are appended in submission order, none lost, none
/// duplicated.
pub proof fn lemma_after_sends_queue<E>(m: DispatcherModel<E>, events: Seq<E>)
    ensures
        after_sends(m, events).queue == m.queue + events,
        events.len() > 0 ==> after_sends(m, events).flush_scheduled,
    decreases events.len(),
{
    if events.len() == 0 {
        assert(after_sends(m, events).queue =~= m.queue + events);
    } else {
        lemma_after_sends_queue(m, events.drop_last());
        assert(m.queue + events.drop_last() + seq![events.last()] =~= m.queue + events);
    }
}

/// Law: all events enqueued between two flushes are delivered by the next
/// flush in exact submission order; events enqueued during a flush's
/// delivery appear only in the following batch — never the current one and
/// never twice.
pub proof fn lemma_flush_order_and_batching<E>(
    m: DispatcherModel<E>,
    events: Seq<E>,
    during: Seq<E>,
)
    requires
        m.queue == Seq::<E>::empty(),
    ensures
        flush_batch(after_sends(m, events)) == events,
        flush_batch(after_sends(flush_transition(after_sends(m, events)), during)) == during,
{
    lemma_after_sends_queue(m, events);
    assert(m.queue + events =~= events);
    let flushed = flush_transition(after_sends(m, events));
    lemma_after_sends_queue(flushed, during);
    assert(flushed.queue + during =~= during);
}

/// The dispatcher: the pending-events buffer and the scheduled-flush flag.
pub struct UserEventSenderWeb<E> {
    queue: Vec<E>,
    flush_scheduled: bool,
}

impl<E> View for UserEventSenderWeb<E> {
    type V = DispatcherModel<E>;

    closed spec fn view(&self) -> DispatcherModel<E> {
        DispatcherModel { queue: self.queue@, flush_scheduled: self.flush_scheduled }
    }
}

impl<E> UserEventSenderWeb<E> {
    /// A fresh dispatcher: empty queue, no flush scheduled.
    pub fn new() -> (r: UserEventSenderWeb<E>)
        ensures
            r@.queue == Seq::<E>::empty(),
            !r@.flush_scheduled,
    {
        UserEventSenderWeb { queue: Vec::new(), flush_scheduled: false }
    }

    /// Enqueue one event at the tail, preserving submission order. The
    /// returned effect tells the host layer whether to schedule the one
    /// deferred flush callback; enqueuing itself always succeeds.
    pub fn send_event(&mut self, event: E) -> (r: SendEffect)
        ensures
            final(self)@ == send_transition(old(self)@, event),
            r == SendEffect::ScheduleFlush <==> send_schedules_flush(old(self)@),
    {
        self.queue.push(event);
        if self.flush_scheduled {
            SendEffect::FlushAlreadyScheduled
        } else {
            self.flush_scheduled = true;
            SendEffect::ScheduleFlush
        }
    }

    /// The flush callback fired: clear the scheduled-flush flag, swap the
    /// whole queue out, and return it for delivery in submission order.
    /// Because the flag and queue are reset before delivery begins, events
    /// enqueued during delivery land in the next batch.
    pub fn begin_flush(&mut self) -> (batch: Vec<E>)
        ensures
            batch@ == flush_batch(old(self)@),
            final(self)@ == flush_transition(old(self)@),
    {
        self.flush_scheduled = false;
        let mut batch: Vec<E> = Vec::new();
        core::mem::swap(&mut batch, &mut self.queue);
        batch
    }

    /// How many events are waiting.
    pub fn pending_len(&self) -> (r: usize)
        ensures
            r == self@.queue.len(),
    {
        self.queue.len()
    }

    /// Whether a flush is currently scheduled.
    pub fn flush_scheduled(&self) -> (r: bool)
        ensures
            r == self@.flush_scheduled,
    {
        self.flush_scheduled
    }
}

} // verus!
