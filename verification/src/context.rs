//! The per-actor context: lifecycle flag plus the actor's own mailbox.

use vstd::prelude::*;

use crate::mailbox::Mailbox;
use crate::mailbox::SendError;

verus! {

/// Possible states of an actor's lifecycle. The flag is monotonic: it moves
/// from `Running` to `Terminated` once and never back.
#[derive(PartialEq, Eq, Structural, Debug, Clone, Copy)]
pub enum ActorState {
    Running,
    Terminated,
}

/// The lifecycle gate every send passes first: a sender whose own state is
/// already `Terminated` gets the message back as `PostTerminationSend`; a
/// running sender gets it through to the mailbox. A transport that cannot
/// enqueue through a [`Context`] directly applies this gate before handing
/// the message to its channel.
pub fn send_gate<M>(state: ActorState, msg: M) -> (r: Result<M, SendError<M>>)
    ensures
        state == ActorState::Running ==> r == Ok::<M, SendError<M>>(msg),
        state == ActorState::Terminated ==> r == Err::<M, SendError<M>>(
            SendError::PostTerminationSend(msg),
        ),
{
    match state {
        ActorState::Running => Ok(msg),
        ActorState::Terminated => Err(SendError::PostTerminationSend(msg)),
    }
}

/// The context in which an actor operates.
///
/// A context is created once at spawn and lives exactly as long as the
/// driver loop. It owns the actor's mailbox and the lifecycle flag that the
/// driver consults on every dispatch decision: the only writers of that flag
/// are handlers running on the actor's own loop, through
/// [`Context::terminate`]. Sends through the context are gated by this
/// actor's own lifecycle — a handler whose actor is already `Terminated`
/// gets `PostTerminationSend` back rather than a silent no-op or a delay.
pub struct Context<M> {
    mailbox: Mailbox<M>,
    state: ActorState,
}

impl<M> Context<M> {
    /// The lifecycle flag as the next dispatch decision will read it.
    pub closed spec fn lifecycle(self) -> ActorState {
        self.state
    }

    /// The messages waiting in this actor's mailbox, head first.
    pub closed spec fn pending(self) -> Seq<M> {
        self.mailbox.pending()
    }

    /// The messages this actor's driver has received so far, in order.
    pub closed spec fn received(self) -> Seq<M> {
        self.mailbox.received()
    }

    /// Every message ever enqueued to this actor, in enqueue order.
    pub open spec fn enqueued(self) -> Seq<M> {
        self.received() + self.pending()
    }

    /// The fixed mailbox capacity.
    pub closed spec fn cap(self) -> int {
        self.mailbox.cap()
    }

    /// Whether this actor's mailbox is closed (its driver loop has exited).
    pub closed spec fn closed(self) -> bool {
        self.mailbox.closed()
    }

    /// Well-formedness: the capacity is a positive bound that the queue
    /// never exceeds.
    pub open spec fn wf(self) -> bool {
        0 < self.cap() && self.pending().len() <= self.cap()
    }

    /// Whether a self-send would enqueue right now: the actor is still
    /// `Running`, the mailbox is open and below capacity.
    pub open spec fn can_accept(self) -> bool {
        &&& self.lifecycle() == ActorState::Running
        &&& !self.closed()
        &&& self.pending().len() < self.cap()
    }

    /// What a self-send of `msg` would report: `PostTerminationSend` once
    /// this actor is `Terminated`, otherwise the mailbox's own refusal, if
    /// any.
    pub open spec fn send_refusal(self, msg: M) -> Option<SendError<M>> {
        if self.lifecycle() == ActorState::Terminated {
            Some(SendError::PostTerminationSend(msg))
        } else if self.closed() {
            Some(SendError::DeliveryFailure(msg))
        } else if self.pending().len() >= self.cap() {
            Some(SendError::CapacityBlocked(msg))
        } else {
            None
        }
    }

    /// Create a context around a freshly allocated mailbox, with the
    /// lifecycle `Running`.
    pub fn new(mailbox: Mailbox<M>) -> (ctx: Self)
        requires
            mailbox.wf(),
        ensures
            ctx.wf(),
            ctx.lifecycle() == ActorState::Running,
            ctx.pending() == mailbox.pending(),
            ctx.received() == mailbox.received(),
            ctx.cap() == mailbox.cap(),
            ctx.closed() == mailbox.closed(),
    {
        Context { mailbox, state: ActorState::Running }
    }

    /// Enqueue a message to this actor itself (self-send).
    ///
    /// Gated by this actor's own lifecycle: once `Terminated`, the send
    /// reports `PostTerminationSend` and enqueues nothing. While `Running`
    /// the outcome is the mailbox's: accepted below capacity, refused with
    /// `CapacityBlocked` at capacity, `DeliveryFailure` once closed.
    pub fn send(&mut self, msg: M) -> (r: Result<(), SendError<M>>)
        requires
            old(self).wf(),
        ensures
            final(self).wf(),
            final(self).lifecycle() == old(self).lifecycle(),
            final(self).cap() == old(self).cap(),
            final(self).closed() == old(self).closed(),
            final(self).received() == old(self).received(),
            r == match old(self).send_refusal(msg) {
                Some(e) => Err::<(), SendError<M>>(e),
                None => Ok::<(), SendError<M>>(()),
            },
            old(self).can_accept() ==> final(self).pending() == old(self).pending().push(msg),
            !old(self).can_accept() ==> final(self).pending() == old(self).pending(),
    {
        match send_gate(self.state, msg) {
            Ok(m) => self.mailbox.try_send(m),
            Err(e) => Err(e),
        }
    }

    /// Enqueue a message as an external producer would through this
    /// actor's address: gated only by the mailbox, not by the actor's
    /// lifecycle. Once the driver has exited and closed the mailbox this
    /// reports `DeliveryFailure` — it neither blocks forever nor succeeds
    /// silently; at capacity it reports `CapacityBlocked`, the producer's
    /// cue to suspend and retry once the consumer drains.
    pub fn deliver(&mut self, msg: M) -> (r: Result<(), SendError<M>>)
        requires
            old(self).wf(),
        ensures
            final(self).wf(),
            final(self).lifecycle() == old(self).lifecycle(),
            final(self).cap() == old(self).cap(),
            final(self).closed() == old(self).closed(),
            final(self).received() == old(self).received(),
            old(self).closed() ==> r == Err::<(), SendError<M>>(SendError::DeliveryFailure(msg))
                && final(self).pending() == old(self).pending(),
            !old(self).closed() && old(self).pending().len() >= old(self).cap() ==> r == Err::<
                (),
                SendError<M>,
            >(SendError::CapacityBlocked(msg)) && final(self).pending() == old(self).pending(),
            !old(self).closed() && old(self).pending().len() < old(self).cap() ==> r == Ok::<
                (),
                SendError<M>,
            >(()) && final(self).pending() == old(self).pending().push(msg),
    {
        self.mailbox.try_send(msg)
    }

    /// Enqueue a message to another actor's mailbox.
    ///
    /// Gated by *this* actor's lifecycle, not the target's: a terminated
    /// handler gets `PostTerminationSend` back whatever the target's state.
    /// While `Running` the outcome is the target mailbox's own.
    pub fn send_to<N>(&self, target: &mut Mailbox<N>, msg: N) -> (r: Result<(), SendError<N>>)
        requires
            old(target).wf(),
        ensures
            final(target).wf(),
            final(target).cap() == old(target).cap(),
            final(target).closed() == old(target).closed(),
            final(target).received() == old(target).received(),
            self.lifecycle() == ActorState::Terminated ==> {
                &&& r == Err::<(), SendError<N>>(SendError::PostTerminationSend(msg))
                &&& final(target).pending() == old(target).pending()
            },
            self.lifecycle() == ActorState::Running ==> r == match old(target).send_refusal(msg) {
                Some(e) => Err::<(), SendError<N>>(e),
                None => Ok::<(), SendError<N>>(()),
            },
            self.lifecycle() == ActorState::Running && old(target).can_accept()
                ==> final(target).pending() == old(target).pending().push(msg),
            !(self.lifecycle() == ActorState::Running && old(target).can_accept())
                ==> final(target).pending() == old(target).pending(),
    {
        match send_gate(self.state, msg) {
            Ok(m) => target.try_send(m),
            Err(e) => Err(e),
        }
    }

    /// The fixed capacity of this actor's mailbox.
    pub fn get_mailbox_size(&self) -> (n: usize)
        ensures
            n == self.cap(),
    {
        self.mailbox.capacity()
    }

    /// How many messages are pending in this actor's mailbox.
    pub fn pending_len(&self) -> (n: usize)
        ensures
            n == self.pending().len(),
    {
        self.mailbox.len()
    }

    /// Flip the lifecycle to `Terminated`.
    ///
    /// Idempotent: calling it again after `Terminated` is a no-op, not an
    /// error. Nothing else about the context changes; the driver acts on
    /// the flag at its next dispatch decision.
    pub fn terminate(&mut self)
        ensures
            final(self).lifecycle() == ActorState::Terminated,
            final(self).cap() == old(self).cap(),
            final(self).closed() == old(self).closed(),
            final(self).pending() == old(self).pending(),
            final(self).received() == old(self).received(),
            old(self).wf() ==> final(self).wf(),
    {
        self.state = ActorState::Terminated;
    }

    /// Read the current lifecycle state.
    pub fn get_state(&self) -> (s: ActorState)
        ensures
            s == self.lifecycle(),
    {
        self.state
    }

    /// Take the head of this actor's mailbox (driver side), recording it in
    /// the receive history. Returns `None` exactly when nothing is pending.
    pub fn recv(&mut self) -> (r: Option<M>)
        requires
            old(self).wf(),
        ensures
            final(self).wf(),
            final(self).lifecycle() == old(self).lifecycle(),
            final(self).cap() == old(self).cap(),
            final(self).closed() == old(self).closed(),
            old(self).pending().len() == 0 ==> {
                &&& r is None
                &&& final(self).pending() == old(self).pending()
                &&& final(self).received() == old(self).received()
            },
            old(self).pending().len() > 0 ==> {
                &&& r == Some(old(self).pending()[0])
                &&& final(self).pending() == old(self).pending().drop_first()
                &&& final(self).received() == old(self).received().push(old(self).pending()[0])
            },
            final(self).enqueued() == old(self).enqueued(),
    {
        self.mailbox.recv()
    }

    /// FIFO law over the context: what the driver has received (and hence
    /// dispatched) is exactly the prefix of the enqueue order, and what is
    /// still pending — discarded if the driver stopped — is exactly the
    /// rest, in order. A message enqueued strictly after the last received
    /// one therefore sits in `pending()` and was never dispatched.
    pub proof fn lemma_fifo(self)
        ensures
            self.received() == self.enqueued().take(self.received().len() as int),
            self.pending() == self.enqueued().skip(self.received().len() as int),
            self.received().is_prefix_of(self.enqueued()),
    {
        crate::mailbox::lemma_mailbox_fifo(self.mailbox);
    }

    /// Per-producer FIFO law over the context: for any way of singling out
    /// one producer's messages, what the driver has received from that
    /// producer — and hence dispatched — is a prefix of what that producer
    /// enqueued, in the producer's own send order. Clones of an address are
    /// exactly such interleaved producers into the one shared mailbox.
    pub proof fn lemma_producer_fifo(self, from_p: spec_fn(M) -> bool)
        ensures
            self.received().filter(from_p).is_prefix_of(self.enqueued().filter(from_p)),
    {
        crate::mailbox::lemma_producer_fifo(self.mailbox, from_p);
    }

    /// Close this actor's mailbox (driver side, on loop exit). Pending
    /// messages stay queued but unprocessed; every later send reports
    /// `DeliveryFailure`.
    pub fn close(&mut self)
        ensures
            final(self).closed(),
            final(self).lifecycle() == old(self).lifecycle(),
            final(self).cap() == old(self).cap(),
            final(self).pending() == old(self).pending(),
            final(self).received() == old(self).received(),
            old(self).wf() ==> final(self).wf(),
    {
        self.mailbox.close()
    }
}

} // verus!
