//! The multiplexed event stream.
//!
//! Four producers — the terminal poller (with its tick), the inbound push
//! server, and the two debuggee stream readers — feed one shared queue; a
//! single consumer drains it. `EventQueue` is that queue: `send` enqueues at
//! the back, `next` delivers from the front, and a ghost log of everything
//! already delivered lets the ordering laws be stated and proved: nothing is
//! lost, nothing is duplicated, and each producer's own emission order is
//! preserved.

use vstd::prelude::*;

use crate::app::Snapshot;

verus! {

/// What the logic reads of a key press. Keys the state machine does not
/// react to arrive as `Other`.
#[derive(Clone, Copy, Debug, PartialEq, Eq)]
pub enum KeyCode {
    Esc,
    Char(char),
    Tab,
    BackTab,
    Up,
    Down,
    Other,
}

/// One multiplexed event, tagged by kind; the consumer dispatches by
/// exhaustive case analysis.
#[derive(Clone, Debug, PartialEq, Eq)]
pub enum Event {
    /// Fixed-rate synthetic refresh.
    Tick,
    /// A key press (key releases are never emitted).
    Key(KeyCode),
    /// A mouse event; the state machine ignores its payload.
    Mouse,
    /// Terminal resize to the given width and height.
    Resize(u16, u16),
    /// An unsolicited state push from the debuggee.
    SnapshotReceived(Snapshot),
    /// One completed line of the debuggee's standard output.
    StdoutReceived(String),
    /// One completed line of the debuggee's standard error.
    StderrReceived(String),
}

/// The independent producers that feed the queue.
#[derive(Clone, Copy, Debug, PartialEq, Eq)]
pub enum EventSource {
    /// Terminal input polling and the tick emitter, one loop.
    Terminal,
    /// The embedded server that accepts snapshot pushes.
    PushServer,
    /// The reader over the debuggee's standard output.
    DebuggeeStdout,
    /// The reader over the debuggee's standard error.
    DebuggeeStderr,
}

/// Which producer an event comes from.
pub open spec fn source_of(e: Event) -> EventSource {
    match e {
        Event::Tick => EventSource::Terminal,
        Event::Key(_) => EventSource::Terminal,
        Event::Mouse => EventSource::Terminal,
        Event::Resize(_, _) => EventSource::Terminal,
        Event::SnapshotReceived(_) => EventSource::PushServer,
        Event::StdoutReceived(_) => EventSource::DebuggeeStdout,
        Event::StderrReceived(_) => EventSource::DebuggeeStderr,
    }
}

/// The predicate selecting one producer's events.
pub open spec fn from_source(src: EventSource) -> spec_fn(Event) -> bool {
    |e: Event| source_of(e) == src
}

/// The poll timeout that keeps worst-case tick latency bounded by the tick
/// interval: the time left of the interval, or, once the clock has overrun
/// a whole interval's worth, the interval itself.
pub open spec fn spec_poll_timeout(tick_rate: u64, elapsed: u64) -> u64 {
    if elapsed <= tick_rate {
        (tick_rate - elapsed) as u64
    } else {
        tick_rate
    }
}

/// How long the terminal poller may block for input before it must fall
/// through to tick logic, given the tick interval and the time already
/// elapsed since the last tick, both in milliseconds.
pub fn poll_timeout(tick_rate: u64, elapsed: u64) -> (r: u64)
    ensures
        r == spec_poll_timeout(tick_rate, elapsed),
{
    if elapsed <= tick_rate {
        tick_rate - elapsed
    } else {
        tick_rate
    }
}

/// Whether a full tick interval has passed since the last tick.
pub open spec fn spec_tick_due(tick_rate: u64, elapsed: u64) -> bool {
    elapsed >= tick_rate
}

/// Decide whether the tick emitter must emit now and reset its clock.
pub fn tick_due(tick_rate: u64, elapsed: u64) -> (r: bool)
    ensures
        r == spec_tick_due(tick_rate, elapsed),
{
    elapsed >= tick_rate
}

/// The multi-producer/single-consumer queue that unifies the event stream.
/// Capacity is unbounded by design: producers never block and no event is
/// ever dropped, because losing or reordering UI events is unacceptable.
pub struct EventQueue {
    pending: Vec<Event>,
    delivered_log: Ghost<Seq<Event>>,
}

impl EventQueue {
    /// Every event ever enqueued, in enqueue order.
    pub closed spec fn sent(self) -> Seq<Event> {
        self.delivered_log@ + self.pending@
    }

    /// Every event the consumer has taken, in delivery order.
    pub closed spec fn delivered(self) -> Seq<Event> {
        self.delivered_log@
    }

    /// The events enqueued but not yet delivered, front first.
    pub closed spec fn pending_events(self) -> Seq<Event> {
        self.pending@
    }

    /// A fresh queue: nothing sent, nothing delivered.
    pub fn new() -> (q: EventQueue)
        ensures
            q.sent() == Seq::<Event>::empty(),
            q.delivered() == Seq::<Event>::empty(),
            q.pending_events() == Seq::<Event>::empty(),
    {
        let q = EventQueue { pending: Vec::new(), delivered_log: Ghost(Seq::empty()) };
        proof {
            assert(q.sent() =~= Seq::<Event>::empty());
        }
        q
    }

    /// A producer enqueues one event at the back. Nothing already sent or
    /// delivered moves.
    pub fn send(&mut self, e: Event)
        ensures
            final(self).sent() == old(self).sent().push(e),
            final(self).delivered() == old(self).delivered(),
            final(self).pending_events() == old(self).pending_events().push(e),
    {
        self.pending.push(e);
        proof {
            assert(self.sent() =~= old(self).sent().push(e));
        }
    }

    /// The consumer takes the front event, or `None` on an empty queue.
    /// Delivery removes the event from the pending tail and appends it to
    /// the delivered prefix; the overall emission history never changes.
    pub fn next(&mut self) -> (r: Option<Event>)
        ensures
            final(self).sent() == old(self).sent(),
            old(self).pending_events().len() == 0 ==> (r is None && *final(self) == *old(self)),
            old(self).pending_events().len() > 0 ==> r == Some(old(self).pending_events()[0]),
            old(self).pending_events().len() > 0 ==> final(self).pending_events()
                == old(self).pending_events().drop_first(),
            old(self).pending_events().len() > 0 ==> final(self).delivered()
                == old(self).delivered().push(old(self).pending_events()[0]),
    {
        if self.pending.len() == 0 {
            None
        } else {
            let e = self.pending.remove(0);
            proof {
                self.delivered_log@ = self.delivered_log@.push(e);
                assert(self.pending@ =~= old(self).pending@.drop_first());
                assert(self.sent() =~= old(self).sent());
            }
            Some(e)
        }
    }
}

/// Law: the emission history splits into what was delivered and what is
/// still pending — no event is ever dropped from the queue.
pub proof fn lemma_queue_composition(q: EventQueue)
    ensures
        q.sent() == q.delivered() + q.pending_events(),
{
}

/// Law: the consumer observes every event exactly once and in enqueue
/// order — the delivered sequence is exactly the prefix of the emission
/// history of its own length, so there is no loss, no duplication and no
/// reordering at the channel.
pub proof fn lemma_delivered_is_prefix_of_sent(q: EventQueue)
    ensures
        q.delivered().len() <= q.sent().len(),
        q.delivered() == q.sent().take(q.delivered().len() as int),
{
    assert(q.delivered() =~= q.sent().take(q.delivered().len() as int));
}

/// Law: once the queue is drained, the consumer has observed exactly the
/// events that were sent — every one of them, once, in emission order.
pub proof fn lemma_drained_queue_delivered_everything(q: EventQueue)
    requires
        q.pending_events().len() == 0,
    ensures
        q.delivered() == q.sent(),
{
    assert(q.delivered() =~= q.sent());
}

/// Law: each producer's own order is preserved. Restricted to one source,
/// the emission history is exactly the delivered events of that source
/// followed by the pending ones: the consumer sees a producer's events in
/// that producer's emission order.
pub proof fn lemma_source_order_preserved(q: EventQueue, src: EventSource)
    ensures
        q.sent().filter(from_source(src)) == q.delivered().filter(from_source(src))
            + q.pending_events().filter(from_source(src)),
{
    Seq::filter_distributes_over_add(q.delivered(), q.pending_events(), from_source(src));
}

} // verus!
