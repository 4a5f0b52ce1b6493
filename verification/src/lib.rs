//! A command invoker: it runs reversible commands, keeps the history of what was
//! done and what was undone, and couples execution to automatic rollback.
//!
//! * [`command`] holds the command abstraction and a command made of two callbacks.
//! * [`history`] is the model of the two stacks and of the transitions between them.
//! * [`journal`] is the model of the calls that an invoker makes.
//! * [`invoker`] is the executable invoker, specified over both models.
//! * [`laws`] states what follows for whole sequences of operations.

pub mod command;
pub mod history;
pub mod invoker;
pub mod journal;
pub mod laws;

pub use command::{AnyCommand, Callback, Command, CommandTrait};
pub use history::History;
pub use invoker::Invoker;
pub use journal::{rolled_back, Invocation};
