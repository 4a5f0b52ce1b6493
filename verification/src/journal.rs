use crate::command::{AnyCommand, CommandTrait};
use vstd::prelude::*;

verus! {

/// One call of an action of a command, with the result that the call gave.
#[verifier::reject_recursive_types(R)]
#[verifier::reject_recursive_types(E)]
#[verifier::reject_recursive_types(U)]
pub enum Invocation<R, E, U> {
    /// The forward action of the command was called and gave the result.
    Executed(AnyCommand<R, E, U>, Result<R, E>),
    /// The compensating action of the command was called and gave the result.
    Unexecuted(AnyCommand<R, E, U>, Result<(), U>),
}

impl<R, E, U> Invocation<R, E, U> {
    /// The command whose action was called.
    pub open spec fn command(self) -> AnyCommand<R, E, U> {
        match self {
            Invocation::Executed(command, _) => command,
            Invocation::Unexecuted(command, _) => command,
        }
    }

    /// Whether the recorded result is one that the recorded action may yield. Of a
    /// command that is known by its trait alone, no value can be shown to be such a
    /// result but one that a call of the action returned.
    pub open spec fn genuine(self) -> bool {
        match self {
            Invocation::Executed(command, result) => command.exec_outcome(result),
            Invocation::Unexecuted(command, result) => command.unexec_outcome(result),
        }
    }
}

/// Whether the journal `later` is the journal `earlier` followed by the rollback of
/// `commands`: one compensating call for each command, the last command first, each with
/// a result that the call may yield.
pub open spec fn rolled_back<R, E, U>(
    earlier: Seq<Invocation<R, E, U>>,
    later: Seq<Invocation<R, E, U>>,
    commands: Seq<AnyCommand<R, E, U>>,
) -> bool {
    &&& later.len() == earlier.len() + commands.len()
    &&& forall|i: int|
        0 <= i < later.len() ==> if i < earlier.len() {
            #[trigger] later[i] == earlier[i]
        } else {
            &&& later[i] is Unexecuted
            &&& later[i].command() == commands[later.len() - 1 - i]
            &&& later[i].genuine()
        }
}

} // verus!
