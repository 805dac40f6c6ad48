use vstd::prelude::*;

verus! {

/// Server answers a block request with the block's bytes.
#[derive(Debug, Clone)]
pub struct BlockDataMessage {
    pub block_idx: u64,
    pub file_path: String,
    pub block_data: Vec<u8>,
}

impl BlockDataMessage {
    pub fn new(block_idx: u64, file_path: String, block_data: Vec<u8>) -> (res: Self)
        ensures
            res.block_idx == block_idx,
            res.file_path == file_path,
            res.block_data == block_data,
    {
        BlockDataMessage { block_idx, file_path, block_data }
    }
}

} // verus!
