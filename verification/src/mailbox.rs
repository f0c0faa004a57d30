//! The bounded, ordered mailbox and the send-failure taxonomy.

use vstd::prelude::*;

verus! {

/// Why a send did not enqueue its message. Each variant hands the message
/// back to the caller: a refused send never loses the payload silently.
#[derive(Debug)]
pub enum SendError<M> {
    /// The mailbox is at capacity. Transient backpressure, not a failure:
    /// the send may be retried once the consumer drains a message.
    CapacityBlocked(M),
    /// The consuming driver loop has permanently exited; no send to this
    /// mailbox can ever be delivered again.
    DeliveryFailure(M),
    /// The sending actor's own lifecycle is already `Terminated`; its
    /// context refuses to enqueue on its behalf.
    PostTerminationSend(M),
}

/// A bounded FIFO queue of messages with a single consumer.
///
/// Producers append at the tail with [`Mailbox::try_send`]; the consumer
/// takes from the head with [`Mailbox::recv`]. Beside the queue of pending
/// messages the mailbox keeps, as ghost state, the sequence of messages the
/// consumer has already received, so that contracts can speak about the
/// complete enqueue order: [`Mailbox::enqueued`] is `received + pending`,
/// and every receive takes the head of `pending`. Once the consumer is gone
/// the mailbox is closed and every further send reports `DeliveryFailure`.
pub struct Mailbox<M> {
    queue: Vec<M>,
    bound: usize,
    open: bool,
    taken: Ghost<Seq<M>>,
}

impl<M> Mailbox<M> {
    /// The messages waiting in the queue, head first.
    pub closed spec fn pending(self) -> Seq<M> {
        self.queue@
    }

    /// The messages the consumer has received so far, in receive order.
    pub closed spec fn received(self) -> Seq<M> {
        self.taken@
    }

    /// Every message ever enqueued, in enqueue order: first the ones already
    /// received, then the ones still pending.
    pub open spec fn enqueued(self) -> Seq<M> {
        self.received() + self.pending()
    }

    /// The fixed capacity the mailbox was created with.
    pub closed spec fn cap(self) -> int {
        self.bound as int
    }

    /// Whether the consumer has permanently exited.
    pub closed spec fn closed(self) -> bool {
        !self.open
    }

    /// Well-formedness: the capacity is a positive bound that the queue
    /// never exceeds.
    pub open spec fn wf(self) -> bool {
        0 < self.cap() && self.pending().len() <= self.cap()
    }

    /// Whether a send would enqueue right now: the consumer is still there
    /// and the queue is below capacity.
    pub open spec fn can_accept(self) -> bool {
        !self.closed() && self.pending().len() < self.cap()
    }

    /// What a send of `msg` would report: `DeliveryFailure` once closed,
    /// `CapacityBlocked` while full, otherwise acceptance.
    pub open spec fn send_refusal(self, msg: M) -> Option<SendError<M>> {
        if self.closed() {
            Some(SendError::DeliveryFailure(msg))
        } else if self.pending().len() >= self.cap() {
            Some(SendError::CapacityBlocked(msg))
        } else {
            None
        }
    }

    /// Create an empty, open mailbox with the given positive capacity.
    pub fn new(capacity: usize) -> (mb: Self)
        requires
            0 < capacity,
        ensures
            mb.wf(),
            mb.cap() == capacity,
            mb.pending() == Seq::<M>::empty(),
            mb.received() == Seq::<M>::empty(),
            !mb.closed(),
    {
        Mailbox { queue: Vec::new(), bound: capacity, open: true, taken: Ghost(Seq::empty()) }
    }

    /// The fixed capacity.
    pub fn capacity(&self) -> (c: usize)
        ensures
            c == self.cap(),
    {
        self.bound
    }

    /// How many messages are pending.
    pub fn len(&self) -> (n: usize)
        ensures
            n == self.pending().len(),
    {
        self.queue.len()
    }

    /// Whether the consumer has permanently exited.
    pub fn is_closed(&self) -> (b: bool)
        ensures
            b == self.closed(),
    {
        !self.open
    }

    /// Try to enqueue `msg` at the tail.
    ///
    /// Succeeds exactly when the mailbox is open and below capacity;
    /// otherwise the message comes back in the error and nothing changes.
    /// In the concurrent system a producer facing `CapacityBlocked` suspends
    /// and retries once the consumer drains; a closed mailbox must instead
    /// surface `DeliveryFailure`, never block forever.
    pub fn try_send(&mut self, msg: M) -> (r: Result<(), SendError<M>>)
        requires
            old(self).wf(),
        ensures
            final(self).wf(),
            final(self).cap() == old(self).cap(),
            final(self).closed() == old(self).closed(),
            final(self).received() == old(self).received(),
            r == match old(self).send_refusal(msg) {
                Some(e) => Err::<(), SendError<M>>(e),
                None => Ok::<(), SendError<M>>(()),
            },
            old(self).can_accept() ==> final(self).pending() == old(self).pending().push(msg),
            !old(self).can_accept() ==> final(self).pending() == old(self).pending(),
    {
        if !self.open {
            Err(SendError::DeliveryFailure(msg))
        } else if self.queue.len() >= self.bound {
            Err(SendError::CapacityBlocked(msg))
        } else {
            self.queue.push(msg);
            Ok(())
        }
    }

    /// Take the head of the queue, recording it in the receive history.
    /// Returns `None` exactly when nothing is pending.
    pub fn recv(&mut self) -> (r: Option<M>)
        requires
            old(self).wf(),
        ensures
            final(self).wf(),
            final(self).cap() == old(self).cap(),
            final(self).closed() == old(self).closed(),
            old(self).pending().len() == 0 ==> {
                &&& r is None
                &&& final(self).pending() == old(self).pending()
                &&& final(self).received() == old(self).received()
            },
            old(self).pending().len() > 0 ==> {
                &&& r == Some(old(self).pending()[0])
                &&& final(self).pending() == old(self).pending().drop_first()
                &&& final(self).received() == old(self).received().push(old(self).pending()[0])
            },
            final(self).enqueued() == old(self).enqueued(),
    {
        if self.queue.len() == 0 {
            None
        } else {
            let m = self.queue.remove(0);
            proof {
                self.taken@ = self.taken@.push(m);
                assert(self.queue@ =~= old(self).queue@.drop_first());
                assert(self.enqueued() =~= old(self).enqueued());
            }
            Some(m)
        }
    }

    /// Mark the consumer as permanently gone. Pending messages stay in the
    /// queue unprocessed, but no send will ever be accepted again.
    pub fn close(&mut self)
        ensures
            final(self).closed(),
            final(self).cap() == old(self).cap(),
            final(self).pending() == old(self).pending(),
            final(self).received() == old(self).received(),
            old(self).wf() ==> final(self).wf(),
    {
        self.open = false;
    }
}

/// FIFO law: the receive order is exactly the enqueue order. The messages
/// received so far are precisely the first `received().len()` messages ever
/// enqueued, and the pending ones are precisely the rest, still in order.
/// In particular no pending message is ever received before one enqueued
/// ahead of it.
pub proof fn lemma_mailbox_fifo<M>(mb: Mailbox<M>)
    ensures
        mb.received() == mb.enqueued().take(mb.received().len() as int),
        mb.pending() == mb.enqueued().skip(mb.received().len() as int),
        mb.received().is_prefix_of(mb.enqueued()),
{
    assert(mb.received() =~= mb.enqueued().take(mb.received().len() as int));
    assert(mb.pending() =~= mb.enqueued().skip(mb.received().len() as int));
}

/// Per-producer FIFO law: for any way of singling out one producer's
/// messages (`from_p` holds exactly of the messages that producer sent),
/// the receive order restricted to that producer is a prefix of the enqueue
/// order restricted to that producer. Since each accepted send appends at
/// the tail, the restricted enqueue order is that producer's send order:
/// one producer's messages are dispatched in the order it sent them,
/// whatever other producers interleave. Clones of an address are exactly
/// such interleaved producers into the one shared mailbox, so ordering from
/// any one clone alone is FIFO while cross-clone ordering is unspecified.
pub proof fn lemma_producer_fifo<M>(mb: Mailbox<M>, from_p: spec_fn(M) -> bool)
    ensures
        mb.received().filter(from_p).is_prefix_of(mb.enqueued().filter(from_p)),
{
    lemma_mailbox_fifo(mb);
    mb.received().lemma_filter_monotone(mb.enqueued(), from_p);
}

/// Backpressure law: with the queue at capacity a send is refused with
/// `CapacityBlocked` (the producer's outstanding send stays suspended), and
/// as soon as the consumer drains one message the mailbox accepts again.
/// `after` is the mailbox once the consumer has received one message.
pub proof fn lemma_backpressure<M>(before: Mailbox<M>, after: Mailbox<M>, msg: M)
    requires
        before.wf(),
        !before.closed(),
        before.pending().len() == before.cap(),
        after.wf(),
        after.cap() == before.cap(),
        after.closed() == before.closed(),
        after.pending() == before.pending().drop_first(),
    ensures
        before.send_refusal(msg) == Some(SendError::CapacityBlocked(msg)),
        after.can_accept(),
{
}

/// Dead-letter law: once the consuming driver loop has exited and closed
/// the mailbox, every send reports `DeliveryFailure` — it neither blocks
/// indefinitely nor succeeds silently.
pub proof fn lemma_send_after_exit<M>(mb: Mailbox<M>, msg: M)
    requires
        mb.closed(),
    ensures
        mb.send_refusal(msg) == Some(SendError::DeliveryFailure(msg)),
        !mb.can_accept(),
{
}

} // verus!
