use vstd::prelude::*;

use crate::file::{DirMeta, FileMeta};

verus! {

/// Server answers a sync request with the files and directories of the target.
#[derive(Debug, Clone)]
pub struct ChecksumsResponseMessage {
    pub directories: Vec<DirMeta>,
    pub files: Vec<FileMeta>,
}

impl ChecksumsResponseMessage {
    pub fn new(files: Vec<FileMeta>, directories: Vec<DirMeta>) -> (res: Self)
        ensures
            res.files == files,
            res.directories == directories,
    {
        ChecksumsResponseMessage { files, directories }
    }
}

} // verus!
