use vstd::prelude::*;

verus! {

/// A directory of the synced tree.
#[derive(Debug, PartialEq, Clone)]
pub struct DirMeta {
    pub path: String,
    /// timestamp in ms
    pub modified_timestamp: u128,
}

impl DirMeta {
    pub fn new(path: String, modified_timestamp: u128) -> (res: Self)
        ensures
            res.path == path,
            res.modified_timestamp == modified_timestamp,
    {
        DirMeta { path, modified_timestamp }
    }
}

} // verus!
