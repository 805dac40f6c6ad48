//! A file's path together with the checksums of its blocks.

use vstd::prelude::*;

verus! {

/// A file and the checksums of its blocks.
#[derive(Debug, PartialEq, Clone)]
pub struct FileMeta {
    pub path: String,
    pub checksums: Vec<String>,
}

impl FileMeta {
    pub fn new(path: String, checksums: Vec<String>) -> (res: Self)
        ensures
            res.path == path,
            res.checksums == checksums,
    {
        FileMeta { path, checksums }
    }
}

} // verus!
