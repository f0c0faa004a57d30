//! A minimal actor-model core, verified.
//!
//! Actors are isolated units of computation that communicate only by sending
//! messages into bounded, ordered mailboxes. Each actor is driven by a
//! receive-dispatch loop with a three-phase lifecycle: `pre_start`, repeated
//! `handle` calls, and `post_stop` once termination is observed.
//!
//! This crate verifies the core of such a system over a single-owner model:
//! a [`mailbox::Mailbox`] is a bounded FIFO queue that also records, as ghost
//! state, every message the consumer has received; a [`context::Context`]
//! bundles the mailbox with the actor's lifecycle flag; and
//! [`actor_system::ActorSystem`] provides both the per-step dispatch decision
//! that a concurrent driver loop follows and a verified synchronous driver
//! that runs an actor to completion. The asynchronous transport (one task per
//! actor, a multi-producer channel as the mailbox) sits outside the verified
//! core and follows the same decision functions.

use vstd::prelude::*;

pub mod actor_system;
pub mod context;
pub mod mailbox;
pub mod sample;

use crate::context::ActorState;
use crate::context::Context;

verus! {

/// Trait for message types that can be sent between actors.
///
/// A message is transferred, never shared: it must be safe to move across
/// the concurrency boundary and must not borrow from its sender.
pub trait Message: Send + 'static {

}

impl<T: Send + 'static> Message for T {

}

/// An actor: user-supplied behavior for one message type.
///
/// The driver guarantees that `pre_start` runs before the first `handle`
/// call, that `handle` runs once per dequeued message while the lifecycle is
/// `Running`, and that `post_stop` runs exactly once after the driver
/// observes `Terminated`, after the last `handle` call. During each call the
/// actor has exclusive mutable access to itself; no two `handle` calls for
/// the same actor ever overlap.
///
/// The contract on `handle` is what every implementation owes the driver: a
/// handler may send (including to itself) and may terminate, but it cannot
/// consume from its own mailbox, reorder what is already queued, change the
/// mailbox capacity, or close the mailbox.
pub trait Actor: Sized {
    /// The type of messages the actor can handle.
    type Msg: Message;

    /// Handle one dequeued message.
    ///
    /// The handler may call `ctx.send`, `ctx.send_to` and `ctx.terminate`.
    fn handle(&mut self, msg: Self::Msg, ctx: &mut Context<Self::Msg>)
        requires
            old(ctx).wf(),
            old(ctx).lifecycle() == ActorState::Running,
        ensures
            final(ctx).wf(),
            final(ctx).cap() == old(ctx).cap(),
            final(ctx).closed() == old(ctx).closed(),
            final(ctx).received() == old(ctx).received(),
            old(ctx).pending().is_prefix_of(final(ctx).pending()),
    ;

    /// Startup hook; runs exactly once, strictly before the first `handle`
    /// call. Default: no-op.
    fn pre_start(&mut self) {
    }

    /// Shutdown hook; runs exactly once, strictly after the driver observes
    /// `Terminated` and strictly after the last `handle` call. The actor is
    /// released immediately afterward. Default: no-op.
    fn post_stop(&mut self) {
    }
}

} // verus!
