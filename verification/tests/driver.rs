use oricalchum::Actor;
use oricalchum::actor_system::ActorSystem;
use oricalchum::actor_system::DriverAction;
use oricalchum::context::ActorState;
use oricalchum::context::Context;
use oricalchum::mailbox::Mailbox;
use oricalchum::mailbox::SendError;
use oricalchum::sample::Test;
use oricalchum::sample::TestActor;

/// An echo actor that records every lifecycle event and handled message in
/// order, and terminates itself when told to.
struct EchoActor {
    events: Vec<String>,
}

impl Actor for EchoActor {
    type Msg = String;

    fn handle(&mut self, msg: String, ctx: &mut Context<String>) {
        if msg == "quit" {
            ctx.terminate();
        } else {
            self.events.push(format!("handle:{}", msg));
        }
    }

    fn pre_start(&mut self) {
        self.events.push(String::from("pre_start"));
    }

    fn post_stop(&mut self) {
        self.events.push(String::from("post_stop"));
    }
}

/// An actor that sends to itself: on 1 it enqueues 2, and on 9 it
/// terminates and then tries one more self-send, recording the refusal.
struct SelfSender {
    events: Vec<String>,
}

impl Actor for SelfSender {
    type Msg = u32;

    fn handle(&mut self, msg: u32, ctx: &mut Context<u32>) {
        self.events.push(format!("got:{}", msg));
        if msg == 1 {
            assert!(ctx.send(2).is_ok());
        }
        if msg == 9 {
            ctx.terminate();
            match ctx.send(10) {
                Err(SendError::PostTerminationSend(10)) => {
                    self.events.push(String::from("refused"));
                }
                _ => self.events.push(String::from("unexpected")),
            }
        }
    }
}

#[test]
fn handler_self_send_joins_the_queue() {
    let mut actor = SelfSender { events: Vec::new() };
    let mut ctx = Context::new(Mailbox::<u32>::new(4));
    assert!(ctx.deliver(1).is_ok());

    let rep = ActorSystem::run_actor(&mut actor, &mut ctx, 10);
    assert!(!rep.stopped);
    assert!(!rep.exhausted);
    assert_eq!(actor.events, vec![String::from("got:1"), String::from("got:2")]);
}

#[test]
fn handler_send_after_terminate_is_refused() {
    let mut actor = SelfSender { events: Vec::new() };
    let mut ctx = Context::new(Mailbox::<u32>::new(4));
    assert!(ctx.deliver(1).is_ok());
    assert!(ctx.deliver(9).is_ok());

    let rep = ActorSystem::run_actor(&mut actor, &mut ctx, 10);
    assert!(rep.stopped);
    // The self-sent 2 was enqueued behind 9, so termination during 9's
    // handling discards it; the post-termination self-send was refused.
    assert_eq!(
        actor.events,
        vec![String::from("got:1"), String::from("got:9"), String::from("refused")]
    );
    assert_eq!(rep.discarded, 1);
}

#[test]
fn dispatch_decision_follows_lifecycle() {
    assert!(matches!(
        ActorSystem::dispatch_decision(ActorState::Running, Some(5u8)),
        DriverAction::Dispatch(5)
    ));
    assert!(matches!(
        ActorSystem::dispatch_decision(ActorState::Running, None::<u8>),
        DriverAction::Exit
    ));
    assert!(matches!(
        ActorSystem::dispatch_decision(ActorState::Terminated, Some(5u8)),
        DriverAction::Stop
    ));
    assert!(matches!(
        ActorSystem::dispatch_decision(ActorState::Terminated, None::<u8>),
        DriverAction::Stop
    ));
}

#[test]
fn echo_scenario_capacity_one() {
    // Spawn an echo actor with capacity 1.
    let mut actor = EchoActor { events: Vec::new() };
    let mut ctx = Context::new(Mailbox::<String>::new(1));

    // send "a"; the second outstanding send ("b") stays blocked until the
    // consumer dequeues "a".
    assert!(ctx.deliver(String::from("a")).is_ok());
    match ctx.deliver(String::from("b")) {
        Err(SendError::CapacityBlocked(m)) => assert_eq!(m, "b"),
        _ => panic!("the second send must block on a full mailbox"),
    }

    // The driver grants a one-dispatch time slice: "a" is handled, freeing
    // the slot; the pending producer's send now succeeds.
    let rep = ActorSystem::run_actor(&mut actor, &mut ctx, 1);
    assert!(rep.exhausted);
    assert!(!rep.stopped);
    assert!(ctx.deliver(String::from("b")).is_ok());

    // Handler output order is ["a", "b"].
    let rep = ActorSystem::resume_actor(&mut actor, &mut ctx, 1);
    assert!(rep.exhausted);
    assert_eq!(
        actor.events,
        vec![
            String::from("pre_start"),
            String::from("handle:a"),
            String::from("handle:b")
        ]
    );

    // A subsequent message that calls terminate() is followed by post_stop.
    assert!(ctx.deliver(String::from("quit")).is_ok());
    let rep = ActorSystem::resume_actor(&mut actor, &mut ctx, 8);
    assert!(rep.stopped);
    assert!(!rep.exhausted);
    assert_eq!(actor.events.last().unwrap(), "post_stop");

    // After post_stop, a further send reports DeliveryFailure, not a hang.
    match ctx.deliver(String::from("late")) {
        Err(SendError::DeliveryFailure(m)) => assert_eq!(m, "late"),
        _ => panic!("a send after the driver exited must report DeliveryFailure"),
    }
}

#[test]
fn termination_discards_queued_messages() {
    let mut actor = EchoActor { events: Vec::new() };
    let mut ctx = Context::new(Mailbox::<String>::new(8));

    assert!(ctx.deliver(String::from("one")).is_ok());
    assert!(ctx.deliver(String::from("quit")).is_ok());
    assert!(ctx.deliver(String::from("after1")).is_ok());
    assert!(ctx.deliver(String::from("after2")).is_ok());

    let rep = ActorSystem::run_actor(&mut actor, &mut ctx, 100);
    assert!(rep.stopped);
    assert!(!rep.exhausted);
    // The two messages enqueued after the terminating one are discarded
    // without processing, and their count is reported.
    assert_eq!(rep.discarded, 2);
    assert_eq!(
        actor.events,
        vec![
            String::from("pre_start"),
            String::from("handle:one"),
            String::from("post_stop")
        ]
    );
    // post_stop ran exactly once.
    let stops: usize = actor.events.iter().filter(|e| e.as_str() == "post_stop").count();
    assert_eq!(stops, 1);
}

#[test]
fn draining_run_exits_without_post_stop() {
    let mut actor = EchoActor { events: Vec::new() };
    let mut ctx = Context::new(Mailbox::<String>::new(4));
    assert!(ctx.deliver(String::from("x")).is_ok());

    let rep = ActorSystem::run_actor(&mut actor, &mut ctx, 4);
    assert!(!rep.stopped);
    assert!(!rep.exhausted);
    assert_eq!(rep.discarded, 0);
    assert_eq!(ctx.pending_len(), 0);
    assert_eq!(
        actor.events,
        vec![String::from("pre_start"), String::from("handle:x")]
    );

    // The mailbox closed on exit: further sends fail rather than queue.
    assert!(matches!(
        ctx.deliver(String::from("y")),
        Err(SendError::DeliveryFailure(_))
    ));
}

#[test]
fn run_on_empty_mailbox_exits_at_once() {
    let mut actor = EchoActor { events: Vec::new() };
    let mut ctx = Context::new(Mailbox::<String>::new(4));

    let rep = ActorSystem::run_actor(&mut actor, &mut ctx, 4);
    assert!(!rep.stopped);
    assert!(!rep.exhausted);
    assert_eq!(rep.discarded, 0);
    assert_eq!(actor.events, vec![String::from("pre_start")]);
    assert_eq!(ctx.get_state(), ActorState::Running);
}

#[test]
fn sample_actor_records_last_text_and_stops_on_error() {
    let mut actor = TestActor { name: String::from("actor1"), value: String::from("test1") };
    let mut ctx = Context::new(Mailbox::<Test>::new(16));

    assert!(ctx.deliver(Test::PrintOk(String::from("Ok"))).is_ok());
    assert!(ctx.deliver(Test::PrintErr(String::from("Error"), 2)).is_ok());

    let rep = ActorSystem::run_actor(&mut actor, &mut ctx, 16);
    assert!(rep.stopped);
    assert_eq!(actor.value, "Error");
    assert_eq!(actor.name, "actor1");
}
