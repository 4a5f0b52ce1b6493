use crate::history::History;
use vstd::prelude::*;

verus! {

/// Executing commands in a row stacks them on what was done, in their order. Once one
/// was executed, nothing is left to redo.
pub proof fn lemma_execs_stack_up<C>(start: History<C>, commands: Seq<C>)
    ensures
        start.after_execs(commands).done == start.done + commands,
        start.after_execs(commands).undone == if commands.len() == 0 {
            start.undone
        } else {
            Seq::empty()
        },
    decreases commands.len(),
{
    if commands.len() > 0 {
        lemma_execs_stack_up(start, commands.drop_last());
    }
}

/// Undoing `count` times takes the `count` newest commands off what is done and lays
/// them on what is undone, the newest first.
pub proof fn lemma_undos_unstack<C>(start: History<C>, count: nat)
    requires
        count <= start.done.len(),
    ensures
        start.after_undos(count).done == start.done.take(start.done.len() - count),
        start.after_undos(count).undone == start.undone + start.done.skip(
            start.done.len() - count,
        ).reverse(),
    decreases count,
{
    if count > 0 {
        lemma_undos_unstack(start.after_undo(), (count - 1) as nat);
    }
}

/// Undoing everything is undoing as many times as commands are done.
pub proof fn lemma_undo_all_is_repeated_undo<C>(start: History<C>)
    ensures
        start.after_undo_all() == start.after_undos(start.done.len()),
{
    lemma_undos_unstack(start, start.done.len());
    assert(start.done.take(0) =~= Seq::empty());
    assert(start.done.skip(0) =~= start.done);
}

/// Undo is last in, first out. After the `commands` were executed in their order, the
/// undo that follows `earlier` other undos compensates the command that was executed
/// `earlier` places before the last one. When as many undos were made as commands were
/// executed, what is done is what was done at the start, and the commands are undone in
/// the reverse of their order.
pub proof fn lemma_undo_is_lifo<C>(start: History<C>, commands: Seq<C>, earlier: nat)
    requires
        earlier < commands.len(),
    ensures
        start.after_execs(commands).after_undos(earlier).undo_target() == Some(
            commands[commands.len() - 1 - earlier],
        ),
        start.after_execs(commands).after_undos(commands.len()).done == start.done,
        start.after_execs(commands).after_undos(commands.len()).undone == commands.reverse(),
{
    let executed = start.after_execs(commands);
    lemma_execs_stack_up(start, commands);
    lemma_undos_unstack(executed, earlier);
    lemma_undos_unstack(executed, commands.len());
}

/// An undo that had a command to compensate is taken back by the redo that follows: the
/// redo executes that same command and leaves both stacks as they were before the undo.
pub proof fn lemma_redo_takes_undo_back<C>(before: History<C>)
    requires
        before.undo_target() is Some,
    ensures
        before.after_undo().redo_target() == before.undo_target(),
        before.after_undo().after_redo() == before,
{
    assert(before.done.drop_last().push(before.done.last()) =~= before.done);
    assert(before.undone.push(before.done.last()).drop_last() =~= before.undone);
}

/// A redo that had a command to execute is taken back by the undo that follows.
pub proof fn lemma_undo_takes_redo_back<C>(before: History<C>)
    requires
        before.redo_target() is Some,
    ensures
        before.after_redo().undo_target() == before.redo_target(),
        before.after_redo().after_undo() == before,
{
    assert(before.undone.drop_last().push(before.undone.last()) =~= before.undone);
    assert(before.done.push(before.undone.last()).drop_last() =~= before.done);
}

/// Executing a command discards the redo history: however many undos came before, the
/// redo that follows the execution finds no command.
pub proof fn lemma_exec_discards_redo<C>(start: History<C>, undos: nat, command: C)
    ensures
        start.after_undos(undos).after_exec(command).redo_target() is None,
        start.after_undos(undos).after_exec(command).after_redo() == start.after_undos(
            undos,
        ).after_exec(command),
{
}

/// All or nothing. When the commands `succeeded` were executed one after the other and
/// `failing` is then executed by a call that undoes everything on failure, and fails,
/// nothing is done afterwards: every command, `failing` among them, lies on the undone
/// ones, in the order in which it was compensated, the newest first. (A call that undoes
/// on failure and does not fail changes the history as a plain execution does.)
pub proof fn lemma_failure_undoes_all<C>(start: History<C>, succeeded: Seq<C>, failing: C)
    ensures
        start.after_execs(succeeded).after_exec_or_undo_all(failing, true).done
            == Seq::<C>::empty(),
        start.after_execs(succeeded).after_exec_or_undo_all(failing, true).undone == (start.done
            + succeeded.push(failing)).reverse(),
{
    lemma_execs_stack_up(start, succeeded);
}

/// One step back. When the commands `succeeded` were executed one after the other and
/// `failing` is then executed by a call that undoes the command on failure, and fails,
/// exactly the commands that succeeded are done afterwards, and `failing` alone is undone.
pub proof fn lemma_failure_undoes_itself<C>(start: History<C>, succeeded: Seq<C>, failing: C)
    ensures
        start.after_execs(succeeded).after_exec_or_undo(failing, true).done == start.done
            + succeeded,
        start.after_execs(succeeded).after_exec_or_undo(failing, true).undone == seq![failing],
{
    lemma_execs_stack_up(start, succeeded);
}

/// Undo and redo move commands between the stacks and neither add nor drop one: the
/// timeline stays as it is.
pub proof fn lemma_undo_and_redo_keep_timeline<C>(before: History<C>)
    ensures
        before.after_undo().timeline() == before.timeline(),
        before.after_redo().timeline() == before.timeline(),
{
}

} // verus!
