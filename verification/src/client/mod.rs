//! The client's side of a sync: its options and the decisions it takes.

pub mod command;
pub mod client;
pub mod helpers;
pub mod sync;

pub use command::Command;
