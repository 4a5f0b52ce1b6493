use crate::command::{AnyCommand, CommandTrait};
use crate::history::History;
use crate::journal::{rolled_back, Invocation};
use vstd::prelude::*;

verus! {

/// Runs commands and remembers them, so that they can be undone and redone.
///
/// The view of an invoker is its [`History`]: the commands that are done and those that
/// are undone. Its journal lists the calls that it has made of the actions of commands,
/// in the order of the calls and each with its result. The journal is ghost: it is there
/// for the contracts, which say through it what an operation has called even where the
/// operation drops the results.
#[verifier::reject_recursive_types(R)]
#[verifier::reject_recursive_types(E)]
#[verifier::reject_recursive_types(U)]
pub struct Invoker<R, E, U = E> {
    commands: Vec<AnyCommand<R, E, U>>,
    undo_commands: Vec<AnyCommand<R, E, U>>,
    journal: Ghost<Seq<Invocation<R, E, U>>>,
}

impl<R, E, U> View for Invoker<R, E, U> {
    type V = History<AnyCommand<R, E, U>>;

    closed spec fn view(&self) -> History<AnyCommand<R, E, U>> {
        History { done: self.commands@, undone: self.undo_commands@ }
    }
}

impl<R, E, U> Invoker<R, E, U> {
    /// The calls that this invoker has made so far, the first of them first.
    pub closed spec fn journal(&self) -> Seq<Invocation<R, E, U>> {
        self.journal@
    }

    /// An invoker with an empty history, which has called nothing.
    pub fn new() -> (invoker: Self)
        ensures
            invoker@ == History::<AnyCommand<R, E, U>>::empty(),
            invoker.journal() == Seq::<Invocation<R, E, U>>::empty(),
    {
        Invoker { commands: Vec::new(), undo_commands: Vec::new(), journal: Ghost(Seq::empty()) }
    }

    /// Executes `command` and records it as done, whatever its result. What was undone
    /// before can no longer be redone.
    pub fn exec(&mut self, command: AnyCommand<R, E, U>) -> (result: Result<R, E>)
        ensures
            command.exec_outcome(result),
            final(self)@ == old(self)@.after_exec(command),
            final(self).journal() == old(self).journal().push(
                Invocation::Executed(command, result),
            ),
    {
        self.undo_commands.clear();
        let result = command.execute();
        proof {
            self.journal@ = self.journal@.push(Invocation::Executed(command, result));
        }
        self.commands.push(command);
        result
    }

    /// Compensates the command that was done last and moves it to the undone ones,
    /// whatever the result. Returns `None`, and does nothing, if no command is done.
    pub fn undo(&mut self) -> (result: Option<Result<(), U>>)
        ensures
            final(self)@ == old(self)@.after_undo(),
            match result {
                Some(outcome) => {
                    &&& old(self)@.undo_target() matches Some(command)
                    &&& command.unexec_outcome(outcome)
                    &&& final(self).journal() == old(self).journal().push(
                        Invocation::Unexecuted(command, outcome),
                    )
                },
                None => {
                    &&& old(self)@.undo_target() is None
                    &&& final(self).journal() == old(self).journal()
                },
            },
    {
        if let Some(command) = self.commands.pop() {
            let result = command.unexecute();
            proof {
                self.journal@ = self.journal@.push(Invocation::Unexecuted(command, result));
            }
            self.undo_commands.push(command);
            Some(result)
        } else {
            None
        }
    }

    /// Executes again the command that was undone last and moves it back to the done
    /// ones, whatever the result. Returns `None`, and does nothing, if no command is undone.
    pub fn redo(&mut self) -> (result: Option<Result<R, E>>)
        ensures
            final(self)@ == old(self)@.after_redo(),
            match result {
                Some(outcome) => {
                    &&& old(self)@.redo_target() matches Some(command)
                    &&& command.exec_outcome(outcome)
                    &&& final(self).journal() == old(self).journal().push(
                        Invocation::Executed(command, outcome),
                    )
                },
                None => {
                    &&& old(self)@.redo_target() is None
                    &&& final(self).journal() == old(self).journal()
                },
            },
    {
        if let Some(command) = self.undo_commands.pop() {
            let result = command.execute();
            proof {
                self.journal@ = self.journal@.push(Invocation::Executed(command, result));
            }
            self.commands.push(command);
            Some(result)
        } else {
            None
        }
    }

    /// Undoes every command that is done, the newest first, as many times as commands
    /// are done when the call begins. The results of the compensating actions are dropped.
    pub fn undo_all(&mut self)
        ensures
            final(self)@ == old(self)@.after_undo_all(),
            rolled_back(old(self).journal(), final(self).journal(), old(self)@.done),
    {
        let ghost before = self@;
        let ghost called = self.journal();
        let mut left = self.commands.len();
        while left > 0
            invariant
                left <= before.done.len(),
                self@.done == before.done.take(left as int),
                self@.undone == before.undone + before.done.skip(left as int).reverse(),
                rolled_back(called, self.journal(), before.done.skip(left as int)),
            decreases left,
        {
            self.undo();
            left -= 1;
        }
        proof {
            assert(before.done.take(0) =~= Seq::empty());
            assert(before.done.skip(0) =~= before.done);
        }
    }

    /// Executes `command`; if it fails, undoes it, and it alone. Returns what the command
    /// returned: the result of the compensating action is dropped.
    pub fn exec_or_undo(&mut self, command: AnyCommand<R, E, U>) -> (result: Result<R, E>)
        ensures
            command.exec_outcome(result),
            final(self)@ == old(self)@.after_exec_or_undo(command, result is Err),
            ({
                let executed = old(self).journal().push(Invocation::Executed(command, result));
                if result is Err {
                    rolled_back(executed, final(self).journal(), seq![command])
                } else {
                    final(self).journal() == executed
                }
            }),
    {
        let result = self.exec(command);
        match result {
            Err(error) => {
                self.undo();
                Err(error)
            },
            Ok(value) => Ok(value),
        }
    }

    /// Executes `command`; if it fails, undoes everything that is done, the failed
    /// command first. Returns what the command returned: the results of the compensating
    /// actions are dropped.
    pub fn exec_or_undo_all(&mut self, command: AnyCommand<R, E, U>) -> (result: Result<R, E>)
        ensures
            command.exec_outcome(result),
            final(self)@ == old(self)@.after_exec_or_undo_all(command, result is Err),
            ({
                let executed = old(self).journal().push(Invocation::Executed(command, result));
                if result is Err {
                    rolled_back(executed, final(self).journal(), old(self)@.done.push(command))
                } else {
                    final(self).journal() == executed
                }
            }),
    {
        let result = self.exec(command);
        match result {
            Err(error) => {
                self.undo_all();
                Err(error)
            },
            Ok(value) => Ok(value),
        }
    }

    /// How many commands are done.
    pub fn done_len(&self) -> (len: usize)
        ensures
            len == self@.done.len(),
    {
        self.commands.len()
    }

    /// How many commands are undone and can be redone.
    pub fn undone_len(&self) -> (len: usize)
        ensures
            len == self@.undone.len(),
    {
        self.undo_commands.len()
    }
}

} // verus!
