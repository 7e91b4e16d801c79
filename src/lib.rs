//! A tiny script language whose functions run as tasks of a host scheduler,
//! with a hot-reload protocol that swaps the whole task graph at once.
pub mod tick;
pub mod ast;
pub mod grammar;
pub mod parser;
pub mod task;
pub mod schedule;
pub mod reload;
pub mod laws;
