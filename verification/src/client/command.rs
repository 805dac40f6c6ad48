use vstd::prelude::*;

verus! {

/// Default server port.
pub const DEFAULT_PORT: u16 = 4433;

/// Default number of QUIC streams used while syncing.
pub const DEFAULT_CONCURRENT_STREAMS: usize = 25;

/// Default size in bytes of the blocks that are compared.
pub const DEFAULT_BLOCK_SIZE: usize = 16384;

/// The client's options.
#[derive(Debug, Clone)]
pub struct Command {
    /// Server address
    pub server_address: String,
    /// Server port
    pub port: u16,
    /// Remote target
    pub remote_target: String,
    /// Local target, to be synced with the remote target
    pub local_target: String,
    /// Number of QUIC streams to be used while syncing
    pub concurrent_streams: usize,
    /// Preserve timestamps from the remote target
    pub timestamp: bool,
    /// Preserve permissions from the remote target
    pub permissions: bool,
    /// Skip syncing any file or directory that has the same modified timestamp and size as the remote
    pub naive: bool,
    /// Size (in bytes) of each block used for comparing file differences
    pub block_size: usize,
    pub verbose: bool,
}

} // verus!
