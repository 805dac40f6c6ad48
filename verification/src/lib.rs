//! qsync: the verified core of a delta file-synchronisation tool that speaks a
//! small framed protocol over QUIC.
//!
//! This crate holds the wire format (message header codec and framing), the
//! protocol messages, block checksums, the directory walk that collects them,
//! the path arithmetic of the temporary sync tree, and the decisions that the
//! client and the server take while syncing.

use vstd::prelude::*;

pub mod message;
pub mod file;
pub mod helpers;
pub mod file_meta;
pub mod message_type;
pub mod client;
pub mod server;

verus! {

/// Default size in bytes of the blocks that files are cut into.
pub const CHUNK_SIZE: usize = 16384;

} // verus!
