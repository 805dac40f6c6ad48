//! Arithmetic of putting a synced file together: where a block is read from,
//! and how a millisecond timestamp becomes a file time.

use vstd::prelude::*;

verus! {

/// Splits a modification timestamp in milliseconds into whole seconds and the
/// nanoseconds of the remaining milliseconds. The seconds are cut to 64 bits,
/// as the file time API takes them.
pub fn modified_time_parts(timestamp: u128) -> (res: (u64, u32))
    ensures
        res.0 == (timestamp / 1000) as u64,
        res.1 == (timestamp % 1000) * 1_000_000,
        res.1 < 1_000_000_000,
{
    let secs = (timestamp / 1000) as u64;
    let sub_millis = (timestamp % 1000) as u32;
    let nanos = sub_millis * 1_000_000;
    (secs, nanos)
}

/// The split loses nothing when the seconds fit in 64 bits: seconds and
/// nanoseconds add back up to the timestamp.
pub proof fn lemma_modified_time_parts_exact(timestamp: u128, secs: u64, nanos: u32)
    requires
        timestamp / 1000 <= u64::MAX,
        secs == (timestamp / 1000) as u64,
        nanos == (timestamp % 1000) * 1_000_000,
    ensures
        secs * 1000 + nanos / 1_000_000 == timestamp,
{
}

/// Byte offset of block `block_idx` in a file cut into blocks of `block_size` bytes.
pub fn block_offset(block_idx: u64, block_size: usize) -> (res: u64)
    requires
        block_idx * block_size <= u64::MAX,
    ensures
        res == block_idx * block_size,
{
    block_idx * (block_size as u64)
}

} // verus!
