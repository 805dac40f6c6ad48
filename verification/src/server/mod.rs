//! The server's side of a sync: its options and the decisions it takes.

pub mod command;
pub mod handlers;

pub use command::Command;
