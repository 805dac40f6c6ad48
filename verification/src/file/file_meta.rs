use vstd::prelude::*;

verus! {

/// A file or a symlink of the synced tree, with the checksums of its blocks.
#[derive(Debug, PartialEq, Clone)]
pub struct FileMeta {
    pub path: String,
    /// Checksum of each block of the file, in order.
    pub checksums: Vec<String>,
    /// timestamp in ms
    pub modified_timestamp: u128,
    pub size: u64,
    /// file permissions
    pub permissions: Option<u32>,
    pub is_symlink: bool,
    pub symlink_target: Option<String>,
}

impl FileMeta {
    /// Metadata of a regular file.
    pub fn new_file(
        path: String,
        checksums: Vec<String>,
        modified_timestamp: u128,
        size: u64,
        permissions: Option<u32>,
    ) -> (res: Self)
        ensures
            res.path == path,
            res.checksums == checksums,
            res.modified_timestamp == modified_timestamp,
            res.size == size,
            res.permissions == permissions,
            !res.is_symlink,
            res.symlink_target is None,
    {
        FileMeta {
            path,
            checksums,
            modified_timestamp,
            size,
            permissions,
            is_symlink: false,
            symlink_target: None,
        }
    }

    /// Metadata of a symlink: it has no blocks, no size, no timestamp and no
    /// permissions, only its target.
    pub fn new_symlink(path: String, symlink_target: String) -> (res: Self)
        ensures
            res.path == path,
            res.checksums@.len() == 0,
            res.modified_timestamp == 0,
            res.size == 0,
            res.permissions is None,
            res.is_symlink,
            res.symlink_target == Some(symlink_target),
    {
        FileMeta {
            path,
            checksums: Vec::new(),
            modified_timestamp: 0,
            size: 0,
            permissions: None,
            is_symlink: true,
            symlink_target: Some(symlink_target),
        }
    }
}

} // verus!
