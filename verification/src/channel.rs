//! Bounded, typed event mailboxes between tasks: fixed-capacity FIFO
//! channels, multi-producer and single-consumer, where a full channel pushes
//! back on the producer instead of dropping events.
//!
//! The queues themselves live in `embassy_sync` channels held behind opaque
//! structs; their contents are modeled as sequences, and the FIFO behavior
//! each method is trusted for is exactly what `embassy_sync` documents: all
//! data sent becomes available in the same order as it was sent.

use vstd::prelude::*;
use crate::gauge::ToGaugeEvents;
use crate::supervisor::ToMainEvents;

verus! {

/// Capacity of every event channel, in queued events.
pub const CHANNEL_CAPACITY: usize = 10;

/// The events queued in a gauge inbox, oldest first.
pub uninterp spec fn gauge_channel_queue(c: GaugeEventChannel) -> Seq<ToGaugeEvents>;

/// The gauge task's inbox: a bounded FIFO mailbox of inbound gauge events.
/// Holds an `embassy_sync::channel::Channel`, whose locking and waking Verus
/// does not see; every method below is trusted against that crate's source.
#[verifier::external_body]
pub struct GaugeEventChannel {
    inner: embassy_sync::channel::Channel<
        embassy_sync::blocking_mutex::raw::NoopRawMutex,
        ToGaugeEvents,
        10,
    >,
}

impl GaugeEventChannel {
    /// Relies on embassy_sync::channel::Channel::new: a fresh channel holds
    /// no events.
    #[verifier::external_body]
    pub fn new() -> (c: Self)
        ensures
            gauge_channel_queue(c) == Seq::<ToGaugeEvents>::empty(),
    {
        GaugeEventChannel { inner: embassy_sync::channel::Channel::new() }
    }

    /// Relies on embassy_sync::channel::Channel::try_send: with a free slot
    /// the event is enqueued at the back; with a full channel the very same
    /// event is handed back (a producer suspends and retries, nothing is
    /// dropped).
    #[verifier::external_body]
    pub fn try_send(&mut self, event: ToGaugeEvents) -> (r: Result<(), ToGaugeEvents>)
        ensures
            gauge_channel_queue(*old(self)).len() < CHANNEL_CAPACITY ==> r is Ok && gauge_channel_queue(*final(self)) == gauge_channel_queue(*old(self)).push(event),
            gauge_channel_queue(*old(self)).len() >= CHANNEL_CAPACITY ==> r is Err && r->Err_0 == event && gauge_channel_queue(*final(self)) == gauge_channel_queue(*old(self)),
    {
        match self.inner.try_send(event) {
            Ok(()) => Ok(()),
            Err(embassy_sync::channel::TrySendError::Full(e)) => Err(e),
        }
    }

    /// Relies on embassy_sync::channel::Channel::try_receive: the oldest
    /// queued event is dequeued; an empty channel yields nothing and stays
    /// unchanged.
    #[verifier::external_body]
    pub fn try_receive(&mut self) -> (r: Option<ToGaugeEvents>)
        ensures
            gauge_channel_queue(*old(self)).len() == 0 ==> r is None && gauge_channel_queue(
                *final(self),
            ) == gauge_channel_queue(*old(self)),
            gauge_channel_queue(*old(self)).len() > 0 ==> r == Some(
                gauge_channel_queue(*old(self))[0],
            ) && gauge_channel_queue(*final(self)) == gauge_channel_queue(
                *old(self),
            ).drop_first(),
    {
        match self.inner.try_receive() {
            Ok(e) => Some(e),
            Err(embassy_sync::channel::TryReceiveError::Empty) => None,
        }
    }

    /// Relies on embassy_sync::channel::Channel::len: the number of queued
    /// events.
    #[verifier::external_body]
    pub fn len(&self) -> (n: usize)
        ensures
            n == gauge_channel_queue(*self).len(),
    {
        self.inner.len()
    }
}

/// How many of `offered` events a channel with `queued` events accepts before
/// it is full.
pub open spec fn accepted_count(queued: int, offered: int) -> int {
    let free = if queued >= CHANNEL_CAPACITY as int {
        0int
    } else {
        CHANNEL_CAPACITY as int - queued
    };
    if offered <= free {
        offered
    } else {
        free
    }
}

impl GaugeEventChannel {
    /// Enqueue events in order, stopping at the first full slot: exactly the
    /// longest prefix that fits is appended, in its original order, and the
    /// events beyond it are left with the caller rather than dropped.
    pub fn send_all(&mut self, events: &Vec<ToGaugeEvents>) -> (n: usize)
        ensures
            n as int == accepted_count(
                gauge_channel_queue(*old(self)).len() as int,
                events@.len() as int,
            ),
            gauge_channel_queue(*final(self)) == gauge_channel_queue(*old(self)) + events@.take(
                n as int,
            ),
    {
        let mut i: usize = 0;
        loop
            invariant
                i <= events@.len(),
                gauge_channel_queue(*self) == gauge_channel_queue(*old(self)) + events@.take(
                    i as int,
                ),
                i > 0 ==> gauge_channel_queue(*old(self)).len() + i <= CHANNEL_CAPACITY,
            ensures
                i <= events@.len(),
                i as int == accepted_count(
                    gauge_channel_queue(*old(self)).len() as int,
                    events@.len() as int,
                ),
                gauge_channel_queue(*self) == gauge_channel_queue(*old(self)) + events@.take(
                    i as int,
                ),
            decreases events@.len() - i,
        {
            if i >= events.len() {
                break ;
            }
            let e: ToGaugeEvents = events[i];
            match self.try_send(e) {
                Ok(()) => {
                    proof {
                        assert(events@.take(i as int + 1) =~= events@.take(i as int).push(
                            events@[i as int],
                        ));
                    }
                    i = i + 1;
                },
                Err(_) => {
                    break ;
                },
            }
        }
        i
    }

    /// Dequeue every queued event: the result is exactly the queue, oldest
    /// first, and the channel is left empty. Together with `send_all` this is
    /// the ordering guarantee: events come out in the order they were
    /// enqueued.
    pub fn drain(&mut self) -> (drained: Vec<ToGaugeEvents>)
        ensures
            drained@ == gauge_channel_queue(*old(self)),
            gauge_channel_queue(*final(self)).len() == 0,
    {
        let mut drained: Vec<ToGaugeEvents> = Vec::new();
        loop
            invariant
                drained@ + gauge_channel_queue(*self) == gauge_channel_queue(*old(self)),
            ensures
                drained@ + gauge_channel_queue(*self) == gauge_channel_queue(*old(self)),
                gauge_channel_queue(*self).len() == 0,
            decreases gauge_channel_queue(*self).len(),
        {
            match self.try_receive() {
                Some(e) => {
                    drained.push(e);
                },
                None => {
                    break ;
                },
            }
        }
        proof {
            assert(drained@ =~= gauge_channel_queue(*old(self)));
        }
        drained
    }
}

/// One step of a channel's life, in the order the channel serializes them: an
/// arriving send (from whichever producer task the scheduler ran) or a
/// receive by the consumer.
#[derive(Clone, Copy, PartialEq, Eq, Structural, Debug)]
pub enum ChannelOp {
    Enqueue(ToGaugeEvents),
    Dequeue,
}

/// A channel's history after a trace of operations: what is still queued,
/// what has been accepted in arrival order, and what has been received in
/// receive order.
pub struct ChannelHistory {
    pub queue: Seq<ToGaugeEvents>,
    pub accepted: Seq<ToGaugeEvents>,
    pub received: Seq<ToGaugeEvents>,
}

/// The effect of one operation, mirroring the trusted contracts of `try_send`
/// and `try_receive`: a send is accepted exactly when a slot is free (a
/// producer facing a full queue suspends and its event is not yet accepted),
/// and a receive takes the oldest queued event.
pub open spec fn spec_channel_step(h: ChannelHistory, op: ChannelOp) -> ChannelHistory {
    match op {
        ChannelOp::Enqueue(e) => if h.queue.len() < CHANNEL_CAPACITY {
            ChannelHistory {
                queue: h.queue.push(e),
                accepted: h.accepted.push(e),
                received: h.received,
            }
        } else {
            h
        },
        ChannelOp::Dequeue => if h.queue.len() > 0 {
            ChannelHistory {
                queue: h.queue.drop_first(),
                accepted: h.accepted,
                received: h.received.push(h.queue[0]),
            }
        } else {
            h
        },
    }
}

/// The history after the first `i` operations of a trace, starting from an
/// empty channel.
pub open spec fn spec_channel_history(ops: Seq<ChannelOp>, i: int) -> ChannelHistory
    decreases i,
{
    if i <= 0 {
        ChannelHistory {
            queue: Seq::empty(),
            accepted: Seq::empty(),
            received: Seq::empty(),
        }
    } else {
        spec_channel_step(spec_channel_history(ops, i - 1), ops[i - 1])
    }
}

/// Order is kept over any history: at every point of an arbitrarily long
/// trace of interleaved sends and receives, what was accepted so far is
/// exactly what has been received followed by what is still queued — so
/// nothing is reordered, duplicated or lost.
pub proof fn lemma_fifo_over_history(ops: Seq<ChannelOp>, i: int)
    requires
        0 <= i <= ops.len(),
    ensures
        spec_channel_history(ops, i).accepted == spec_channel_history(ops, i).received
            + spec_channel_history(ops, i).queue,
    decreases i,
{
    if i <= 0 {
        assert(spec_channel_history(ops, i).accepted =~= spec_channel_history(ops, i).received
            + spec_channel_history(ops, i).queue);
    } else {
        lemma_fifo_over_history(ops, i - 1);
        let h = spec_channel_history(ops, i - 1);
        match ops[i - 1] {
            ChannelOp::Enqueue(e) => {
                if h.queue.len() < CHANNEL_CAPACITY {
                    assert(h.accepted.push(e) =~= h.received + h.queue.push(e));
                }
            },
            ChannelOp::Dequeue => {
                if h.queue.len() > 0 {
                    assert(h.accepted =~= h.received.push(h.queue[0]) + h.queue.drop_first());
                }
            },
        }
    }
}

/// Receive order equals arrival order: at every point of any trace, the k-th
/// event the consumer has received is the k-th event the channel accepted,
/// however many producer tasks interleaved their sends.
pub proof fn lemma_receive_order(ops: Seq<ChannelOp>, i: int, k: int)
    requires
        0 <= i <= ops.len(),
        0 <= k < spec_channel_history(ops, i).received.len(),
    ensures
        spec_channel_history(ops, i).received[k] == spec_channel_history(ops, i).accepted[k],
{
    lemma_fifo_over_history(ops, i);
}

/// The events queued in a supervisor inbox, oldest first.
pub uninterp spec fn main_channel_queue(c: MainEventChannel) -> Seq<ToMainEvents>;

/// The supervisor's inbox: a bounded FIFO mailbox of lifecycle and error
/// events from every subsystem task. Holds an `embassy_sync` channel just as
/// the gauge inbox does.
#[verifier::external_body]
pub struct MainEventChannel {
    inner: embassy_sync::channel::Channel<
        embassy_sync::blocking_mutex::raw::NoopRawMutex,
        ToMainEvents,
        10,
    >,
}

impl MainEventChannel {
    /// Relies on embassy_sync::channel::Channel::new: a fresh channel holds
    /// no events.
    #[verifier::external_body]
    pub fn new() -> (c: Self)
        ensures
            main_channel_queue(c) == Seq::<ToMainEvents>::empty(),
    {
        MainEventChannel { inner: embassy_sync::channel::Channel::new() }
    }

    /// Relies on embassy_sync::channel::Channel::try_send: with a free slot
    /// the event is enqueued at the back; with a full channel the very same
    /// event is handed back, never dropped.
    #[verifier::external_body]
    pub fn try_send(&mut self, event: ToMainEvents) -> (r: Result<(), ToMainEvents>)
        ensures
            main_channel_queue(*old(self)).len() < CHANNEL_CAPACITY ==> r is Ok && main_channel_queue(*final(self)) == main_channel_queue(*old(self)).push(event),
            main_channel_queue(*old(self)).len() >= CHANNEL_CAPACITY ==> r is Err && r->Err_0 == event && main_channel_queue(*final(self)) == main_channel_queue(*old(self)),
    {
        match self.inner.try_send(event) {
            Ok(()) => Ok(()),
            Err(embassy_sync::channel::TrySendError::Full(e)) => Err(e),
        }
    }

    /// Relies on embassy_sync::channel::Channel::try_receive: the oldest
    /// queued event is dequeued; an empty channel yields nothing and stays
    /// unchanged.
    #[verifier::external_body]
    pub fn try_receive(&mut self) -> (r: Option<ToMainEvents>)
        ensures
            main_channel_queue(*old(self)).len() == 0 ==> r is None && main_channel_queue(
                *final(self),
            ) == main_channel_queue(*old(self)),
            main_channel_queue(*old(self)).len() > 0 ==> r == Some(
                main_channel_queue(*old(self))[0],
            ) && main_channel_queue(*final(self)) == main_channel_queue(*old(self)).drop_first(),
    {
        match self.inner.try_receive() {
            Ok(e) => Some(e),
            Err(embassy_sync::channel::TryReceiveError::Empty) => None,
        }
    }

    /// Relies on embassy_sync::channel::Channel::len: the number of queued
    /// events.
    #[verifier::external_body]
    pub fn len(&self) -> (n: usize)
        ensures
            n == main_channel_queue(*self).len(),
    {
        self.inner.len()
    }
}

} // verus!
