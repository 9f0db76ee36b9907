//! The event bus: an unbounded, ordered, multi-producer / single-consumer
//! queue that merges all event sources into one stream.
//!
//! This is the sequential model of the merge point: every producer reaches it
//! through the one `submit` operation (the cloneable send capability of the
//! running system is exactly the right to call `submit`), and the single
//! consumer drains it through `receive`. Two ghost logs record everything
//! ever accepted and everything ever delivered; the well-formedness invariant
//! ties them to the pending queue, which is what makes the delivery-order
//! law provable. `close` models the destruction of the consumer end: from
//! then on submissions are dropped silently, as the running system requires
//! of a producer whose consumer is gone.
//!
//! The bus itself always retains a send capability for internally generated
//! events, so the consumer side never observes an exhausted bus here; a
//! `receive` on an empty queue reports that it would have to suspend.

use vstd::prelude::*;
use crate::event::Event;

verus! {

/// The ordered multi-producer / single-consumer event queue.
pub struct EventBus {
    /// Events accepted but not yet delivered, oldest first.
    pub queue: Vec<Event>,
    /// Whether the consumer end is still alive; `submit` drops events once
    /// it is not.
    pub open: bool,
    /// Every event ever accepted, in acceptance order.
    pub submitted: Ghost<Seq<Event>>,
    /// Every event ever handed to the consumer, in delivery order.
    pub delivered: Ghost<Seq<Event>>,
}

impl EventBus {
    /// The bus invariant: what was accepted is exactly what was delivered
    /// followed by what is still pending.
    pub open spec fn wf(self) -> bool {
        self.delivered@ + self.queue@ == self.submitted@
    }

    /// A fresh bus: open, with nothing pending and empty logs.
    pub fn new() -> (b: EventBus)
        ensures
            b.wf(),
            b.open,
            b.queue@ == Seq::<Event>::empty(),
            b.submitted@ == Seq::<Event>::empty(),
            b.delivered@ == Seq::<Event>::empty(),
    {
        let b = EventBus {
            queue: Vec::new(),
            open: true,
            submitted: Ghost(Seq::empty()),
            delivered: Ghost(Seq::empty()),
        };
        proof {
            assert(b.delivered@ + b.queue@ =~= b.submitted@);
        }
        b
    }

    /// Enqueue an event. Never blocks, never fails: while the consumer end
    /// is alive the event is appended to the pending queue; once it is gone
    /// the event is dropped silently and the bus is left untouched.
    pub fn submit(&mut self, e: Event)
        ensures
            final(self).open == old(self).open,
            final(self).delivered@ == old(self).delivered@,
            old(self).open ==> {
                &&& final(self).queue@ == old(self).queue@.push(e)
                &&& final(self).submitted@ == old(self).submitted@.push(e)
            },
            !old(self).open ==> *final(self) == *old(self),
            old(self).wf() ==> final(self).wf(),
    {
        if self.open {
            self.queue.push(e);
            proof {
                self.submitted@ = self.submitted@.push(e);
                if old(self).wf() {
                    assert(self.delivered@ + self.queue@ =~= self.submitted@);
                }
            }
        }
    }

    /// Hand the next pending event to the consumer, in first-in first-out
    /// order, or report that the consumer would have to suspend (`None`)
    /// when nothing is pending.
    pub fn receive(&mut self) -> (r: Option<Event>)
        requires
            old(self).open,
        ensures
            final(self).open,
            final(self).submitted@ == old(self).submitted@,
            old(self).queue@.len() == 0 ==> r is None && *final(self) == *old(self),
            old(self).queue@.len() > 0 ==> {
                &&& r == Some(old(self).queue@[0])
                &&& final(self).queue@ == old(self).queue@.drop_first()
                &&& final(self).delivered@ == old(self).delivered@.push(old(self).queue@[0])
            },
            old(self).wf() ==> final(self).wf(),
            old(self).wf() && old(self).queue@.len() > 0 ==> r == Some(
                old(self).submitted@[old(self).delivered@.len() as int],
            ),
    {
        if self.queue.len() == 0 {
            None
        } else {
            let e = self.queue.remove(0);
            proof {
                self.delivered@ = self.delivered@.push(e);
                assert(self.queue@ =~= old(self).queue@.drop_first());
                if old(self).wf() {
                    assert(self.delivered@ + self.queue@ =~= self.submitted@);
                    assert(old(self).submitted@[old(self).delivered@.len() as int] == e);
                }
            }
            Some(e)
        }
    }

    /// Model the destruction of the consumer end: the bus stays usable by
    /// producers, but from now on every submission is dropped.
    pub fn close(&mut self)
        ensures
            !final(self).open,
            final(self).queue@ == old(self).queue@,
            final(self).submitted@ == old(self).submitted@,
            final(self).delivered@ == old(self).delivered@,
            old(self).wf() ==> final(self).wf(),
    {
        self.open = false;
    }

    /// How many events are pending.
    pub fn pending(&self) -> (n: usize)
        ensures
            n == self.queue@.len(),
    {
        self.queue.len()
    }

    /// Whether the consumer end is still alive.
    pub fn is_open(&self) -> (r: bool)
        ensures
            r == self.open,
    {
        self.open
    }
}

/// Delivery preserves the submission order exactly: at every point, the
/// events delivered so far are precisely the oldest accepted events, in the
/// order they were accepted, and nothing accepted has been lost, duplicated
/// or reordered — the rest is still pending, in order.
pub proof fn lemma_fifo_delivery(b: EventBus)
    requires
        b.wf(),
    ensures
        b.delivered@ == b.submitted@.take(b.delivered@.len() as int),
        b.submitted@ == b.delivered@ + b.queue@,
        b.submitted@.len() == b.delivered@.len() + b.queue@.len(),
{
    assert(b.submitted@.take(b.delivered@.len() as int) =~= b.delivered@);
}

/// The log of events `events`, each tagged with the producer that
/// enqueued it.
pub open spec fn tagged(tags: Seq<nat>, events: Seq<Event>) -> Seq<(nat, Event)>
    recommends
        tags.len() == events.len(),
{
    Seq::new(events.len(), |i: int| (tags[i], events[i]))
}

/// Tagging each accepted event with the producer that enqueued it, any
/// delivered prefix of the log preserves every producer's own relative
/// order: the tagged events of producer `p` among the first `k` accepted
/// are, in order, a prefix of that producer's tagged events in the whole
/// log.
pub proof fn lemma_per_producer_order(log: Seq<(nat, Event)>, k: int, p: nat)
    requires
        0 <= k <= log.len(),
    ensures
        log.take(k).filter(|t: (nat, Event)| t.0 == p).is_prefix_of(
            log.filter(|t: (nat, Event)| t.0 == p),
        ),
{
    assert(log.take(k) =~= log.take(log.take(k).len() as int));
    assert(log.take(k).is_prefix_of(log));
    log.take(k).lemma_filter_monotone(log, |t: (nat, Event)| t.0 == p);
}

/// The delivery-order law, whole: tag every accepted event with the
/// producer that enqueued it. What has been delivered is, tags and all,
/// exactly the oldest part of the accepted log — nothing lost, duplicated
/// or reordered — and each single producer's delivered events are, in
/// order, a prefix of that producer's accepted events: the consumer
/// observes every producer's events in the exact relative order that
/// producer submitted them, merged into one valid interleaving.
pub proof fn lemma_bus_preserves_interleaving(b: EventBus, tags: Seq<nat>, p: nat)
    requires
        b.wf(),
        tags.len() == b.submitted@.len(),
    ensures
        tagged(tags.take(b.delivered@.len() as int), b.delivered@) == tagged(
            tags,
            b.submitted@,
        ).take(b.delivered@.len() as int),
        tagged(tags.take(b.delivered@.len() as int), b.delivered@).filter(
            |t: (nat, Event)| t.0 == p,
        ).is_prefix_of(tagged(tags, b.submitted@).filter(|t: (nat, Event)| t.0 == p)),
{
    let k = b.delivered@.len() as int;
    lemma_fifo_delivery(b);
    assert(tagged(tags.take(k), b.delivered@) =~= tagged(tags, b.submitted@).take(k));
    lemma_per_producer_order(tagged(tags, b.submitted@), k, p);
}

} // verus!
