use vstd::prelude::*;

verus! {

/// The two stacks of an invoker, as sequences whose last element is the top.
///
/// `done` holds the commands that were executed and not undone since, the oldest first.
/// `undone` holds the commands that were undone and can still be redone, the one undone
/// last at the end. How the stacks change does not depend on what a command is, so
/// the commands are of any type `C`.
pub struct History<C> {
    pub done: Seq<C>,
    pub undone: Seq<C>,
}

impl<C> History<C> {
    /// The history of an invoker that has done nothing yet.
    pub open spec fn empty() -> Self {
        History { done: Seq::empty(), undone: Seq::empty() }
    }

    /// The history after `command` was executed: it is on top of `done`, and nothing is
    /// left to redo.
    pub open spec fn after_exec(self, command: C) -> Self {
        History { done: self.done.push(command), undone: Seq::empty() }
    }

    /// The command that an undo compensates, if there is one.
    pub open spec fn undo_target(self) -> Option<C> {
        if self.done.len() > 0 {
            Some(self.done.last())
        } else {
            None
        }
    }

    /// The history after an undo: the top of `done` has moved to the top of `undone`.
    /// With nothing done, nothing changes.
    pub open spec fn after_undo(self) -> Self {
        if self.done.len() > 0 {
            History { done: self.done.drop_last(), undone: self.undone.push(self.done.last()) }
        } else {
            self
        }
    }

    /// The command that a redo executes again, if there is one.
    pub open spec fn redo_target(self) -> Option<C> {
        if self.undone.len() > 0 {
            Some(self.undone.last())
        } else {
            None
        }
    }

    /// The history after a redo: the top of `undone` has moved back to the top of `done`.
    /// With nothing undone, nothing changes.
    pub open spec fn after_redo(self) -> Self {
        if self.undone.len() > 0 {
            History { done: self.done.push(self.undone.last()), undone: self.undone.drop_last() }
        } else {
            self
        }
    }

    /// The history after everything done was undone: `done` is empty, and its commands lie
    /// on `undone` in the order in which they were compensated, the newest first.
    pub open spec fn after_undo_all(self) -> Self {
        History { done: Seq::empty(), undone: self.undone + self.done.reverse() }
    }

    /// The history after a call that executed `command` and, if the command failed,
    /// undid it again.
    pub open spec fn after_exec_or_undo(self, command: C, failed: bool) -> Self {
        if failed {
            self.after_exec(command).after_undo()
        } else {
            self.after_exec(command)
        }
    }

    /// The history after a call that executed `command` and, if the command failed,
    /// undid everything.
    pub open spec fn after_exec_or_undo_all(self, command: C, failed: bool) -> Self {
        if failed {
            self.after_exec(command).after_undo_all()
        } else {
            self.after_exec(command)
        }
    }

    /// The commands in the order in which they were first executed: those that are done,
    /// then those that can be redone, the one that a redo would take first.
    pub open spec fn timeline(self) -> Seq<C> {
        self.done + self.undone.reverse()
    }

    /// The history after `count` undos in a row.
    pub open spec fn after_undos(self, count: nat) -> Self
        decreases count,
    {
        if count == 0 {
            self
        } else {
            self.after_undo().after_undos((count - 1) as nat)
        }
    }

    /// The history after the `commands` were executed one after the other, the first of
    /// them first.
    pub open spec fn after_execs(self, commands: Seq<C>) -> Self
        decreases commands.len(),
    {
        if commands.len() == 0 {
            self
        } else {
            self.after_execs(commands.drop_last()).after_exec(commands.last())
        }
    }
}

} // verus!
