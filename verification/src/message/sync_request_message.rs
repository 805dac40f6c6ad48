use vstd::prelude::*;

verus! {

/// What kind of filesystem object a sync target is.
#[derive(Debug, Clone, Copy, PartialEq, Eq, Structural)]
pub enum SyncTargetType {
    File,
    Directory,
    Symlink,
}

/// Client asks the server for the checksums of a file or directory.
#[derive(Debug, Clone)]
pub struct SyncRequestMessage {
    pub path: String,
    pub file_type: SyncTargetType,
    /// Size in bytes of the blocks whose checksums are asked for.
    pub block_size: usize,
}

impl SyncRequestMessage {
    pub fn new(path: String, file_type: SyncTargetType, block_size: usize) -> (res: Self)
        ensures
            res.path == path,
            res.file_type == file_type,
            res.block_size == block_size,
    {
        Self { path, file_type, block_size }
    }
}

} // verus!
