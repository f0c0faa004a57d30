//! A small concrete actor, showing that the `Actor` contract is satisfiable.

use vstd::prelude::*;

use crate::Actor;
use crate::context::ActorState;
use crate::context::Context;

verus! {

/// Messages for the sample actor: report a success with a text, or report
/// an error with a text and a code.
#[derive(Debug)]
pub enum Test {
    PrintOk(String),
    PrintErr(String, i32),
}

/// A sample actor that keeps the text of the last message it handled in
/// `value`, and terminates itself when it handles an error report.
#[derive(Debug)]
pub struct TestActor {
    pub name: String,
    pub value: String,
}

impl Actor for TestActor {
    type Msg = Test;

    /// Record the message's text; on an error report, also request
    /// termination, which the driver acts on at its next dispatch decision.
    fn handle(&mut self, msg: Self::Msg, ctx: &mut Context<Self::Msg>)
        ensures
            (msg is PrintErr) == (final(ctx).lifecycle() == ActorState::Terminated),
            final(ctx).pending() == old(ctx).pending(),
            final(self).name == old(self).name,
            (match msg {
                Test::PrintOk(text) => final(self).value == text,
                Test::PrintErr(text, _code) => final(self).value == text,
            }),
    {
        match msg {
            Test::PrintOk(text) => {
                self.value = text;
            },
            Test::PrintErr(text, _code) => {
                self.value = text;
                ctx.terminate();
            },
        }
    }
}

} // verus!
