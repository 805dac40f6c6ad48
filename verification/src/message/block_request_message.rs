use vstd::prelude::*;

verus! {

/// Client asks the server for one block of a file.
#[derive(Debug, Clone)]
pub struct BlockRequestMessage {
    pub block_idx: u64,
    pub file_path: String,
    pub block_size: usize,
}

impl BlockRequestMessage {
    pub fn new(block_idx: u64, file_path: String, block_size: usize) -> (res: Self)
        ensures
            res.block_idx == block_idx,
            res.file_path == file_path,
            res.block_size == block_size,
    {
        BlockRequestMessage { block_idx, file_path, block_size }
    }
}

} // verus!
