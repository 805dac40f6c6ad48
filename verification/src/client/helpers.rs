//! Checks the client makes on its targets before and during a sync.

use vstd::prelude::*;

use crate::message::SyncTargetType;

verus! {

/// Whether a local file can be left as it is in naive mode: its size and its
/// modification timestamp (in ms) both match the remote file's.
pub fn naive_check(local_size: u64, local_modified_timestamp: u128, remote_size: u64, remote_modified_timestamp: u128) -> (res: bool)
    ensures
        res == (local_size == remote_size && local_modified_timestamp == remote_modified_timestamp),
{
    if local_size != remote_size {
        return false;
    }
    if local_modified_timestamp != remote_modified_timestamp {
        return false;
    }
    true
}

/// Whether a path is absolute: on Unix, whether it starts at the root `/`.
pub fn is_absolute_path(path: &str) -> (res: bool)
    ensures
        res == (path@.len() > 0 && path@[0] == '/'),
{
    path.unicode_len() > 0 && path.get_char(0) == '/'
}

/// The kind of a local target as the sync request names it, from its own
/// metadata (links not followed): a symlink, else a directory, else a file.
pub fn sync_target_type(is_symlink: bool, is_dir: bool) -> (res: SyncTargetType)
    ensures
        is_symlink ==> res == SyncTargetType::Symlink,
        !is_symlink && is_dir ==> res == SyncTargetType::Directory,
        !is_symlink && !is_dir ==> res == SyncTargetType::File,
{
    if is_symlink {
        SyncTargetType::Symlink
    } else if is_dir {
        SyncTargetType::Directory
    } else {
        SyncTargetType::File
    }
}

} // verus!
