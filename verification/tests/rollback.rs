use command_pattern::{AnyCommand, Command, Invoker};
use std::sync::{Arc, Mutex};

type Log = Arc<Mutex<Vec<String>>>;

fn new_log() -> Log {
    Arc::new(Mutex::new(Vec::new()))
}

fn entries(log: &Log) -> Vec<String> {
    log.lock().unwrap().clone()
}

/// A command that writes "exec <name>" and "unexec <name>" to the log and returns the
/// given results.
fn logged(
    log: &Log,
    name: &str,
    forward: Result<&'static str, &'static str>,
    backward: Result<(), &'static str>,
) -> AnyCommand<&'static str, &'static str> {
    let (exec_log, exec_name) = (log.clone(), name.to_string());
    let (unexec_log, unexec_name) = (log.clone(), name.to_string());
    AnyCommand(Box::new(Command::new(
        move || {
            exec_log.lock().unwrap().push(format!("exec {}", exec_name));
            forward
        },
        move || {
            unexec_log.lock().unwrap().push(format!("unexec {}", unexec_name));
            backward
        },
    )))
}

#[test]
fn exec_then_failing_exec_or_undo_all_leaves_nothing_done() {
    let log = new_log();
    let mut invoker: Invoker<&'static str, &'static str> = Invoker::new();

    let (exec_log, unexec_log) = (log.clone(), log.clone());
    let first = AnyCommand(Box::new(Command::new(
        move || {
            println!("exec 1");
            exec_log.lock().unwrap().push("exec 1".to_string());
            Ok("i am result")
        },
        move || {
            println!("unexec 1");
            unexec_log.lock().unwrap().push("unexec 1".to_string());
            Ok(())
        },
    )));
    assert_eq!(invoker.exec(first), Ok("i am result"));
    assert_eq!(invoker.done_len(), 1);

    let always_fails = AnyCommand(Box::new(Command::new(|| Err("i am error"), || Ok(()))));
    assert_eq!(invoker.exec_or_undo_all(always_fails), Err("i am error"));
    assert_eq!(invoker.done_len(), 0);
    assert_eq!(entries(&log), vec!["exec 1", "unexec 1"]);
}

#[test]
fn exec_or_undo_all_keeps_a_command_that_succeeds() {
    let log = new_log();
    let mut invoker = Invoker::new();
    assert_eq!(invoker.exec_or_undo_all(logged(&log, "1", Ok("one"), Ok(()))), Ok("one"));
    assert_eq!(invoker.exec_or_undo_all(logged(&log, "2", Ok("two"), Ok(()))), Ok("two"));
    assert_eq!(invoker.done_len(), 2);
    assert_eq!(invoker.undone_len(), 0);
    assert_eq!(entries(&log), vec!["exec 1", "exec 2"]);
}

#[test]
fn exec_or_undo_all_unwinds_everything_at_the_first_failure() {
    let log = new_log();
    let mut invoker = Invoker::new();
    assert_eq!(invoker.exec_or_undo_all(logged(&log, "1", Ok("one"), Ok(()))), Ok("one"));
    assert_eq!(invoker.exec_or_undo_all(logged(&log, "2", Ok("two"), Ok(()))), Ok("two"));
    assert_eq!(invoker.exec_or_undo_all(logged(&log, "3", Ok("three"), Ok(()))), Ok("three"));
    assert_eq!(invoker.exec_or_undo_all(logged(&log, "4", Err("four"), Ok(()))), Err("four"));
    assert_eq!(invoker.done_len(), 0);
    assert_eq!(invoker.undone_len(), 4);
    // The failed command was recorded like any other, so its compensation runs first.
    assert_eq!(
        entries(&log),
        vec!["exec 1", "exec 2", "exec 3", "exec 4", "unexec 4", "unexec 3", "unexec 2", "unexec 1"]
    );
}

#[test]
fn exec_or_undo_all_failing_first_undoes_only_itself() {
    let log = new_log();
    let mut invoker = Invoker::new();
    assert_eq!(invoker.exec_or_undo_all(logged(&log, "1", Err("one"), Ok(()))), Err("one"));
    assert_eq!(invoker.done_len(), 0);
    assert_eq!(invoker.undone_len(), 1);
    assert_eq!(entries(&log), vec!["exec 1", "unexec 1"]);
}

#[test]
fn exec_or_undo_all_returns_the_exec_error_when_compensation_fails() {
    let log = new_log();
    let mut invoker = Invoker::new();
    assert_eq!(invoker.exec_or_undo_all(logged(&log, "1", Ok("one"), Err("stuck 1"))), Ok("one"));
    assert_eq!(
        invoker.exec_or_undo_all(logged(&log, "2", Err("two"), Err("stuck 2"))),
        Err("two")
    );
    assert_eq!(invoker.done_len(), 0);
    assert_eq!(invoker.undone_len(), 2);
    assert_eq!(entries(&log), vec!["exec 1", "exec 2", "unexec 2", "unexec 1"]);
}

#[test]
fn exec_or_undo_all_discards_the_redo_history() {
    let log = new_log();
    let mut invoker = Invoker::new();
    assert_eq!(invoker.exec(logged(&log, "1", Ok("one"), Ok(()))), Ok("one"));
    assert_eq!(invoker.undo(), Some(Ok(())));
    assert_eq!(invoker.exec_or_undo_all(logged(&log, "2", Err("two"), Ok(()))), Err("two"));
    // Only the failed command can be redone: the command undone before it is gone.
    assert_eq!(invoker.undone_len(), 1);
    assert_eq!(invoker.redo(), Some(Err("two")));
    assert_eq!(invoker.redo(), None);
}

#[test]
fn exec_or_undo_keeps_a_command_that_succeeds() {
    let log = new_log();
    let mut invoker = Invoker::new();
    assert_eq!(invoker.exec_or_undo(logged(&log, "1", Ok("one"), Ok(()))), Ok("one"));
    assert_eq!(invoker.done_len(), 1);
    assert_eq!(invoker.undone_len(), 0);
    assert_eq!(entries(&log), vec!["exec 1"]);
}

#[test]
fn exec_or_undo_undoes_only_the_failed_command() {
    let log = new_log();
    let mut invoker = Invoker::new();
    assert_eq!(invoker.exec_or_undo(logged(&log, "1", Ok("one"), Ok(()))), Ok("one"));
    assert_eq!(invoker.exec_or_undo(logged(&log, "2", Ok("two"), Ok(()))), Ok("two"));
    assert_eq!(invoker.exec_or_undo(logged(&log, "3", Err("three"), Ok(()))), Err("three"));
    assert_eq!(invoker.done_len(), 2);
    assert_eq!(invoker.undone_len(), 1);
    assert_eq!(entries(&log), vec!["exec 1", "exec 2", "exec 3", "unexec 3"]);
    // The two that succeeded are still done, the newest on top.
    assert_eq!(invoker.undo(), Some(Ok(())));
    assert_eq!(invoker.undo(), Some(Ok(())));
    assert_eq!(invoker.undo(), None);
    assert_eq!(
        entries(&log),
        vec!["exec 1", "exec 2", "exec 3", "unexec 3", "unexec 2", "unexec 1"]
    );
}

#[test]
fn exec_or_undo_returns_the_exec_error_when_compensation_fails() {
    let log = new_log();
    let mut invoker = Invoker::new();
    assert_eq!(invoker.exec_or_undo(logged(&log, "1", Err("one"), Err("stuck"))), Err("one"));
    assert_eq!(invoker.done_len(), 0);
    assert_eq!(invoker.undone_len(), 1);
    assert_eq!(entries(&log), vec!["exec 1", "unexec 1"]);
}

#[test]
fn exec_or_undo_leaves_the_failed_command_to_redo() {
    let log = new_log();
    let mut invoker = Invoker::new();
    assert_eq!(invoker.exec_or_undo(logged(&log, "1", Err("one"), Ok(()))), Err("one"));
    assert_eq!(invoker.redo(), Some(Err("one")));
    assert_eq!(invoker.done_len(), 1);
    assert_eq!(entries(&log), vec!["exec 1", "unexec 1", "exec 1"]);
}
