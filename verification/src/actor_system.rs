//! The driver: per-step dispatch decisions and a verified synchronous run.

use vstd::prelude::*;

use crate::Actor;
use crate::context::ActorState;
use crate::context::Context;

verus! {

/// What the driver loop does next, as a function of the lifecycle state it
/// read and of what the mailbox receive yielded.
pub enum DriverAction<M> {
    /// Dispatch the received message to the actor's handler.
    Dispatch(M),
    /// Termination was observed: run `post_stop`, release the actor and end
    /// the loop, discarding whatever is still queued.
    Stop,
    /// The mailbox yielded nothing more and no termination was requested:
    /// end the loop and release the actor without running `post_stop`.
    Exit,
}

/// One observable event of a driver run: a lifecycle hook or a dispatch.
/// The driver records these, as ghost state, in the order it performs them,
/// so that a run's contract carries the hook ordering — `PreStart` before
/// every dispatch, `PostStop` after the last one — as a verified fact, not
/// a comment.
pub enum RunEvent<M> {
    /// `pre_start` was called on the actor.
    PreStart,
    /// `handle` was called with this message.
    Dispatch(M),
    /// `post_stop` was called on the actor.
    PostStop,
}

/// The dispatch events for a sequence of dispatched messages, in order.
pub open spec fn dispatch_events<M>(msgs: Seq<M>) -> Seq<RunEvent<M>> {
    msgs.map_values(|m: M| RunEvent::Dispatch(m))
}

/// The event trace a driver run owes its caller: `PreStart` exactly once
/// and first when the run begins the lifecycle, then one `Dispatch` per
/// handled message in dispatch order, then `PostStop` exactly once — and
/// only — when the run observed termination, after the last dispatch.
pub open spec fn run_trace<M>(pre_started: bool, dispatched: Seq<M>, stopped: bool) -> Seq<
    RunEvent<M>,
> {
    (if pre_started {
        seq![RunEvent::<M>::PreStart]
    } else {
        Seq::<RunEvent<M>>::empty()
    }) + dispatch_events(dispatched) + (if stopped {
        seq![RunEvent::<M>::PostStop]
    } else {
        Seq::<RunEvent<M>>::empty()
    })
}

/// What a driver run did: whether termination was observed (and so
/// `post_stop` ran), whether the run merely exhausted its dispatch budget,
/// how many queued messages were discarded on stop, and — as ghost state —
/// exactly which messages were dispatched, which were discarded, and which
/// hook and dispatch events happened, each in order.
pub struct DriverReport<M> {
    /// Whether the loop observed `Terminated` and ran `post_stop`. When
    /// false and the run was not exhausted, the loop ended because the
    /// mailbox was drained.
    pub stopped: bool,
    /// Whether the run ended early because it used up its dispatch budget.
    /// The actor is then still alive: its mailbox stays open, `post_stop`
    /// has not run, and a further run continues where this one ended.
    pub exhausted: bool,
    /// How many messages were still queued, and hence discarded without
    /// processing, when termination was observed. Zero unless `stopped`.
    pub discarded: usize,
    /// The messages dispatched to `handle`, in dispatch order.
    pub dispatched: Ghost<Seq<M>>,
    /// The messages discarded without processing, in queue order.
    pub discarded_msgs: Ghost<Seq<M>>,
    /// The hook and dispatch events of the run, in the order the driver
    /// performed them; recorded beside each `pre_start`, `handle` and
    /// `post_stop` call.
    pub events: Ghost<Seq<RunEvent<M>>>,
}

/// Being a prefix is transitive.
proof fn lemma_prefix_transitive<T>(a: Seq<T>, b: Seq<T>, c: Seq<T>)
    requires
        a.is_prefix_of(b),
        b.is_prefix_of(c),
    ensures
        a.is_prefix_of(c),
{
    assert(a =~= c.subrange(0, a.len() as int));
}

/// Appending behind a common front keeps the prefix relation: if one tail
/// is a prefix of another, so are the whole sequences.
proof fn lemma_prefix_append<T>(front: Seq<T>, tail1: Seq<T>, tail2: Seq<T>)
    requires
        tail1.is_prefix_of(tail2),
    ensures
        (front + tail1).is_prefix_of(front + tail2),
{
    assert((front + tail1) =~= (front + tail2).subrange(0, (front + tail1).len() as int));
}

/// The actor system: drives an actor's receive-dispatch loop.
pub struct ActorSystem;

impl ActorSystem {
    /// The one dispatch decision of the driver loop, taken once per
    /// iteration at the dequeue boundary.
    ///
    /// Termination is cooperative: it takes effect here and only here, so
    /// an already-started `handle` call always runs to completion, and once
    /// `Terminated` is observed no further message is ever dispatched —
    /// received or still queued, it is discarded.
    pub fn dispatch_decision<M>(state: ActorState, received: Option<M>) -> (a: DriverAction<M>)
        ensures
            state == ActorState::Terminated ==> a is Stop,
            state == ActorState::Running && received is Some ==> a == DriverAction::Dispatch(
                received.unwrap(),
            ),
            state == ActorState::Running && received is None ==> a is Exit,
    {
        match state {
            ActorState::Terminated => DriverAction::Stop,
            ActorState::Running => match received {
                Some(m) => DriverAction::Dispatch(m),
                None => DriverAction::Exit,
            },
        }
    }

    /// Run an actor's lifecycle from the start: `pre_start` first — exactly
    /// once, strictly before the first `handle` call, as `r.events` records
    /// — then the receive-dispatch loop of [`ActorSystem::resume_actor`].
    /// If the run exhausts its dispatch budget, continue it with
    /// `resume_actor`, so that `pre_start` is not run again.
    pub fn run_actor<A: Actor>(actor: &mut A, ctx: &mut Context<A::Msg>, fuel: usize) -> (r:
        DriverReport<A::Msg>)
        requires
            old(ctx).wf(),
            !old(ctx).closed(),
        ensures
            final(ctx).wf(),
            final(ctx).cap() == old(ctx).cap(),
            final(ctx).received() == old(ctx).received() + r.dispatched@,
            old(ctx).enqueued().is_prefix_of(final(ctx).enqueued()),
            r.events@ == run_trace(true, r.dispatched@, r.stopped),
            r.dispatched@.len() <= fuel,
            r.exhausted ==> r.dispatched@.len() == fuel,
            !r.exhausted ==> final(ctx).closed(),
            !r.exhausted ==> r.stopped == (final(ctx).lifecycle() == ActorState::Terminated),
            !r.exhausted && !r.stopped ==> final(ctx).pending().len() == 0 && final(ctx).received() == final(ctx).enqueued(),
            r.stopped ==> r.discarded_msgs@ == final(ctx).pending() && r.discarded == final(ctx).pending().len(),
            r.exhausted ==> !final(ctx).closed() && !r.stopped,
            !r.stopped ==> r.discarded == 0 && r.discarded_msgs@ == Seq::<A::Msg>::empty(),
            old(ctx).lifecycle() == ActorState::Running && r.stopped ==> r.dispatched@.len() >= 1,
    {
        actor.pre_start();
        let ghost started = seq![RunEvent::<A::Msg>::PreStart];
        let sub = Self::resume_actor(actor, ctx, fuel);
        proof {
            assert(started + sub.events@ =~= run_trace(true, sub.dispatched@, sub.stopped));
        }
        let ghost events = started + sub.events@;
        DriverReport {
            stopped: sub.stopped,
            exhausted: sub.exhausted,
            discarded: sub.discarded,
            dispatched: sub.dispatched,
            discarded_msgs: sub.discarded_msgs,
            events: Ghost(events),
        }
    }

    /// The receive-dispatch loop: dispatch pending messages in order while
    /// the lifecycle is `Running`, and — exactly when termination is
    /// observed — run `post_stop`, after the last `handle` call. On a
    /// terminal exit the mailbox is closed, so any later send reports
    /// `DeliveryFailure`.
    ///
    /// `fuel` bounds how many messages this run may dispatch: the time
    /// slice a cooperative scheduler grants the actor. A handler may keep
    /// feeding its own mailbox, so no bound on the run's length exists
    /// otherwise. A run that uses up its budget reports `exhausted`; the
    /// actor stays alive and a further `resume_actor` continues where it
    /// ended.
    ///
    /// The contract is the delivery guarantee of the system: the run's
    /// dispatches extend the receive history (`received == old received +
    /// dispatched`), which by [`Context::lemma_fifo`] is a prefix of the
    /// enqueue order — so what was enqueued before the run is dispatched
    /// first, in enqueue order; the enqueue order itself only grows behind
    /// what was already there; a run that reports `exhausted` really used
    /// its whole budget, so a positive budget forces progress; on a
    /// terminal exit, every message still queued when termination was
    /// observed is discarded unprocessed but not lost silently
    /// (`r.discarded_msgs`, counted by `r.discarded`), and a run that ends
    /// without termination has received — and hence dispatched — everything
    /// ever enqueued. `r.events` carries the hook ordering: `post_stop`
    /// exactly once, after the last dispatch, if and only if the run
    /// stopped.
    ///
    /// In the concurrent system this loop runs as one independent task per
    /// actor and the receive suspends instead of exiting on an empty open
    /// mailbox; the decision at each step is the same.
    pub fn resume_actor<A: Actor>(actor: &mut A, ctx: &mut Context<A::Msg>, fuel: usize) -> (r:
        DriverReport<A::Msg>)
        requires
            old(ctx).wf(),
            !old(ctx).closed(),
        ensures
            final(ctx).wf(),
            final(ctx).cap() == old(ctx).cap(),
            final(ctx).received() == old(ctx).received() + r.dispatched@,
            old(ctx).enqueued().is_prefix_of(final(ctx).enqueued()),
            r.events@ == run_trace(false, r.dispatched@, r.stopped),
            r.dispatched@.len() <= fuel,
            r.exhausted ==> r.dispatched@.len() == fuel,
            !r.exhausted ==> final(ctx).closed(),
            !r.exhausted ==> r.stopped == (final(ctx).lifecycle() == ActorState::Terminated),
            !r.exhausted && !r.stopped ==> final(ctx).pending().len() == 0 && final(ctx).received() == final(ctx).enqueued(),
            r.stopped ==> r.discarded_msgs@ == final(ctx).pending() && r.discarded == final(ctx).pending().len(),
            r.exhausted ==> !final(ctx).closed() && !r.stopped,
            !r.stopped ==> r.discarded == 0 && r.discarded_msgs@ == Seq::<A::Msg>::empty(),
            old(ctx).lifecycle() == ActorState::Running && r.stopped ==> r.dispatched@.len() >= 1,
    {
        let ghost received0 = ctx.received();
        let ghost enqueued0 = ctx.enqueued();
        let ghost cap0: int = ctx.cap();
        let ghost state0 = ctx.lifecycle();
        let ghost mut dispatched: Seq<A::Msg> = Seq::empty();
        let ghost mut events: Seq<RunEvent<A::Msg>> = Seq::empty();

        let mut used: usize = 0;
        let mut stopped = false;
        let mut terminal = false;
        while !terminal && used < fuel
            invariant
                ctx.wf(),
                !ctx.closed(),
                ctx.cap() == cap0,
                ctx.received() == received0 + dispatched,
                enqueued0.is_prefix_of(ctx.enqueued()),
                used <= fuel,
                dispatched.len() == used,
                !terminal ==> !stopped,
                !terminal ==> events == dispatch_events(dispatched),
                terminal ==> events == run_trace(false, dispatched, stopped),
                terminal ==> stopped == (ctx.lifecycle() == ActorState::Terminated),
                terminal && !stopped ==> ctx.pending().len() == 0,
                state0 == ActorState::Running && ctx.lifecycle() == ActorState::Terminated
                    ==> dispatched.len() >= 1,
            decreases fuel - used, (if terminal { 0int } else { 1int }),
        {
            let state = ctx.get_state();
            let received = if state == ActorState::Running {
                ctx.recv()
            } else {
                None
            };
            match Self::dispatch_decision(state, received) {
                DriverAction::Dispatch(m) => {
                    let ghost gm = m;
                    let ghost before = *ctx;
                    actor.handle(m, ctx);
                    used = used + 1;
                    proof {
                        dispatched = dispatched.push(gm);
                        events = events.push(RunEvent::Dispatch(gm));
                        assert(ctx.received() =~= received0 + dispatched);
                        assert(events =~= dispatch_events(dispatched));
                        lemma_prefix_append(before.received(), before.pending(), ctx.pending());
                        lemma_prefix_transitive(enqueued0, before.enqueued(), ctx.enqueued());
                    }
                },
                DriverAction::Stop => {
                    actor.post_stop();
                    stopped = true;
                    terminal = true;
                    proof {
                        events = events.push(RunEvent::PostStop);
                        assert(events =~= run_trace(false, dispatched, stopped));
                    }
                },
                DriverAction::Exit => {
                    terminal = true;
                    proof {
                        assert(events =~= run_trace(false, dispatched, stopped));
                    }
                },
            }
        }

        if terminal {
            let discarded: usize = if stopped {
                ctx.pending_len()
            } else {
                0
            };
            ctx.close();
            proof {
                if !stopped {
                    assert(ctx.enqueued() =~= ctx.received());
                }
            }
            let ghost discarded_msgs = if stopped {
                ctx.pending()
            } else {
                Seq::empty()
            };
            DriverReport {
                stopped,
                exhausted: false,
                discarded,
                dispatched: Ghost(dispatched),
                discarded_msgs: Ghost(discarded_msgs),
                events: Ghost(events),
            }
        } else {
            proof {
                assert(events =~= run_trace(false, dispatched, stopped));
            }
            DriverReport {
                stopped: false,
                exhausted: true,
                discarded: 0,
                dispatched: Ghost(dispatched),
                discarded_msgs: Ghost(Seq::empty()),
                events: Ghost(events),
            }
        }
    }
}

} // verus!
