//! The decision at the heart of delta sync: which blocks of a file are taken
//! from the local copy and which are asked of the server.

use vstd::prelude::*;

use crate::file::FileMeta;
use super::helpers::naive_check;

verus! {

/// Where a block of the file being assembled comes from.
#[derive(Debug, Clone, Copy, PartialEq, Eq, Structural)]
pub enum BlockSource {
    /// The local file already holds this block: it is copied.
    Local,
    /// The block is requested from the server.
    Remote,
}

/// Decides where block `i` comes from, given the checksum of the local file's
/// block `i` (`None` once the local file has no such block) and the remote
/// checksum of block `i`: the local block is reused exactly when the checksums
/// are equal.
pub fn block_source(local_checksum: &Option<String>, remote_checksum: &String) -> (res: BlockSource)
    ensures
        res == BlockSource::Local <==> (local_checksum matches Some(l) && l@ == remote_checksum@),
{
    match local_checksum {
        Some(l) => {
            if *l == *remote_checksum {
                BlockSource::Local
            } else {
                BlockSource::Remote
            }
        },
        None => BlockSource::Remote,
    }
}

/// The client options that shape the sync of a file.
#[derive(Debug, Clone, Copy, PartialEq, Eq, Structural)]
pub struct SyncOptions {
    /// Preserve the remote modification time.
    pub timestamp: bool,
    /// Preserve the remote permissions.
    pub permissions: bool,
    /// Leave a file alone when its local size and modification time match.
    pub naive: bool,
}

/// Where the sync of one file stands.
#[derive(Debug, Clone, Copy, PartialEq, Eq, Structural)]
pub enum SyncPhase {
    /// Waiting for the checksum of the local file's current block.
    AwaitLocalChecksum,
    /// Waiting for the local copy of the current block to be written.
    AwaitLocalCopy,
    /// Waiting for the server's copy of the current block to be written.
    AwaitRemoteBlock,
    /// Waiting for the whole local file to be copied.
    AwaitLocalFileCopy,
    /// Waiting for the symlink to be created.
    AwaitSymlink,
    /// Waiting for the modification time to be set.
    AwaitTimestamp,
    /// Waiting for the permissions to be set.
    AwaitPermissions,
    /// The file is done.
    Done,
}

/// What the caller reports back after doing the last action.
#[derive(Debug, Clone)]
pub enum SyncEvent {
    /// The checksum of the local file's current block; `None` past its end.
    LocalChecksum(Option<String>),
    /// The current block was appended to the file being assembled.
    BlockWritten,
    /// The server answered the block request with an error.
    BlockRefused,
    /// The local file was copied whole.
    FileCopied,
    /// The symlink was created.
    SymlinkCreated,
    /// The modification time was set.
    TimestampSet,
    /// The permissions were set.
    PermissionsSet,
}

/// What the caller does next.
#[derive(Debug, Clone, Copy, PartialEq, Eq, Structural)]
pub enum SyncAction {
    /// Read the next block of the local file and report its checksum.
    ReadLocalChecksum(usize),
    /// Append the local block just read to the file being assembled.
    CopyLocalBlock(usize),
    /// Ask the server for this block and append it.
    RequestBlock(usize),
    /// Copy the local file whole: naive mode found it unchanged.
    CopyLocalFile,
    /// Create the file as a symlink to the remote link's target.
    CreateSymlink,
    /// Set the assembled file's modification time (in ms).
    SetTimestamp(u128),
    /// Set the assembled file's permission bits.
    SetPermissions(u32),
    /// The file is done: `true` when it was made completely, `false` when the
    /// server refused a block or a link came without a target.
    Finish(bool),
}

/// Whether naive mode leaves the file alone: it is on, and the local file
/// (with size and modification time `local_stats`) matches the remote one.
pub open spec fn spec_naive_skip(naive: bool, local_stats: Option<(u64, u128)>, size: u64, timestamp: u128) -> bool {
    naive && (local_stats matches Some(st) && st.0 == size && st.1 == timestamp)
}

/// The decisions of syncing one remote file. A symlink is created as a link
/// to its target. A regular file that naive mode finds unchanged is copied
/// from the local file. Otherwise the file is assembled block by block: a
/// block is copied from the local file when its checksum matches the remote
/// one and requested from the server otherwise. Then, for a file that is not
/// a link, the modification time and the permissions are set if asked.
pub struct FileSync {
    remote: Vec<String>,
    local_exists: bool,
    preserve_timestamp: bool,
    timestamp: u128,
    permissions: Option<u32>,
    block: usize,
    phase: SyncPhase,
    content_done: bool,
}

impl FileSync {
    /// Checksums of the remote file's blocks.
    pub closed spec fn remote(&self) -> Seq<Seq<char>> {
        self.remote@.map_values(|s: String| s@)
    }

    /// Whether there is a local file to reuse blocks from.
    pub closed spec fn local_exists(&self) -> bool {
        self.local_exists
    }

    /// Whether the modification time is set at the end.
    pub closed spec fn preserve_timestamp(&self) -> bool {
        self.preserve_timestamp
    }

    /// The remote modification time (in ms).
    pub closed spec fn timestamp(&self) -> u128 {
        self.timestamp
    }

    /// The permission bits set at the end, if any.
    pub closed spec fn permissions(&self) -> Option<u32> {
        self.permissions
    }

    /// Number of blocks written so far; the index of the current block.
    pub closed spec fn block(&self) -> nat {
        self.block as nat
    }

    pub closed spec fn phase(&self) -> SyncPhase {
        self.phase
    }

    /// Whether the file's content is in place: all its blocks written, the
    /// local file copied, or the symlink created.
    pub closed spec fn content_done(&self) -> bool {
        self.content_done
    }

    /// A block is pending only while some block is left to write, and the
    /// closing steps come only once the content is in place.
    pub open spec fn wf(&self) -> bool {
        &&& self.block() <= self.remote().len()
        &&& (self.phase() == SyncPhase::AwaitLocalChecksum || self.phase() == SyncPhase::AwaitLocalCopy
            || self.phase() == SyncPhase::AwaitRemoteBlock) ==> self.block() < self.remote().len()
                && !self.content_done()
        &&& self.phase() == SyncPhase::AwaitLocalChecksum ==> self.local_exists()
        &&& (self.phase() == SyncPhase::AwaitTimestamp || self.phase() == SyncPhase::AwaitPermissions)
            ==> self.content_done()
        &&& self.phase() == SyncPhase::AwaitPermissions ==> self.permissions() is Some
    }

    /// The steps once the content is in place: the modification time, then
    /// the permissions, each if asked.
    pub open spec fn after_timestamp(&self) -> (SyncPhase, SyncAction) {
        match self.permissions() {
            Some(p) => (SyncPhase::AwaitPermissions, SyncAction::SetPermissions(p)),
            None => (SyncPhase::Done, SyncAction::Finish(true)),
        }
    }

    /// The first closing step once the content is in place.
    pub open spec fn after_content(&self) -> (SyncPhase, SyncAction) {
        if self.preserve_timestamp() {
            (SyncPhase::AwaitTimestamp, SyncAction::SetTimestamp(self.timestamp()))
        } else {
            self.after_timestamp()
        }
    }

    /// The phase and action once `block` blocks are written.
    pub open spec fn advance_at(&self, block: nat) -> (SyncPhase, SyncAction) {
        if block >= self.remote().len() {
            self.after_content()
        } else if self.local_exists() {
            (SyncPhase::AwaitLocalChecksum, SyncAction::ReadLocalChecksum(block as usize))
        } else {
            (SyncPhase::AwaitRemoteBlock, SyncAction::RequestBlock(block as usize))
        }
    }

    /// Whether `event` answers the action that was asked for last.
    pub open spec fn accepts(&self, event: SyncEvent) -> bool {
        match event {
            SyncEvent::LocalChecksum(_) => self.phase() == SyncPhase::AwaitLocalChecksum,
            SyncEvent::BlockWritten => self.phase() == SyncPhase::AwaitLocalCopy || self.phase()
                == SyncPhase::AwaitRemoteBlock,
            SyncEvent::BlockRefused => self.phase() == SyncPhase::AwaitRemoteBlock,
            SyncEvent::FileCopied => self.phase() == SyncPhase::AwaitLocalFileCopy,
            SyncEvent::SymlinkCreated => self.phase() == SyncPhase::AwaitSymlink,
            SyncEvent::TimestampSet => self.phase() == SyncPhase::AwaitTimestamp,
            SyncEvent::PermissionsSet => self.phase() == SyncPhase::AwaitPermissions,
        }
    }

    /// Starts the sync of the remote file `meta`. `local_exists` tells
    /// whether there is a local file to reuse blocks from, and `local_stats`
    /// gives its size and modification time (in ms) when they could be read.
    /// Returns the state and the first action.
    pub fn start(meta: &FileMeta, options: SyncOptions, local_exists: bool, local_stats: Option<(u64, u128)>) -> (res: (Self, SyncAction))
        ensures
            res.0.wf(),
            res.0.remote() == meta.checksums@.map_values(|s: String| s@),
            res.0.local_exists() == local_exists,
            res.0.preserve_timestamp() == options.timestamp,
            res.0.timestamp() == meta.modified_timestamp,
            res.0.permissions() == (if options.permissions { meta.permissions } else { None::<u32> }),
            res.0.block() == 0,
            meta.is_symlink && meta.symlink_target is Some ==> res.1 == SyncAction::CreateSymlink
                && res.0.phase() == SyncPhase::AwaitSymlink,
            meta.is_symlink && meta.symlink_target is None ==> res.1 == SyncAction::Finish(false)
                && res.0.phase() == SyncPhase::Done,
            !meta.is_symlink && spec_naive_skip(options.naive, local_stats, meta.size, meta.modified_timestamp)
                ==> res.1 == SyncAction::CopyLocalFile && res.0.phase() == SyncPhase::AwaitLocalFileCopy,
            !meta.is_symlink && !spec_naive_skip(options.naive, local_stats, meta.size, meta.modified_timestamp)
                ==> (res.0.phase(), res.1) == res.0.advance_at(0),
    {
        let permissions = if options.permissions {
            meta.permissions
        } else {
            None
        };
        let mut s = FileSync {
            remote: meta.checksums.clone(),
            local_exists,
            preserve_timestamp: options.timestamp,
            timestamp: meta.modified_timestamp,
            permissions,
            block: 0,
            phase: SyncPhase::Done,
            content_done: false,
        };
        if meta.is_symlink {
            if meta.symlink_target.is_some() {
                s.phase = SyncPhase::AwaitSymlink;
                return (s, SyncAction::CreateSymlink);
            } else {
                return (s, SyncAction::Finish(false));
            }
        }
        let unchanged = match local_stats {
            Some((size, modified)) => naive_check(size, modified, meta.size, meta.modified_timestamp),
            None => false,
        };
        if options.naive && unchanged {
            s.phase = SyncPhase::AwaitLocalFileCopy;
            return (s, SyncAction::CopyLocalFile);
        }
        let action = s.advance();
        (s, action)
    }

    /// Moves to the closing steps once the content is in place.
    fn close(&mut self) -> (action: SyncAction)
        requires
            old(self).block() <= old(self).remote().len(),
            old(self).phase() != SyncPhase::AwaitLocalChecksum,
        ensures
            final(self).wf(),
            final(self).remote() == old(self).remote(),
            final(self).local_exists() == old(self).local_exists(),
            final(self).preserve_timestamp() == old(self).preserve_timestamp(),
            final(self).timestamp() == old(self).timestamp(),
            final(self).permissions() == old(self).permissions(),
            final(self).block() == old(self).block(),
            final(self).content_done(),
            (final(self).phase(), action) == old(self).after_content(),
    {
        self.content_done = true;
        if self.preserve_timestamp {
            self.phase = SyncPhase::AwaitTimestamp;
            SyncAction::SetTimestamp(self.timestamp)
        } else {
            match self.permissions {
                Some(p) => {
                    self.phase = SyncPhase::AwaitPermissions;
                    SyncAction::SetPermissions(p)
                },
                None => {
                    self.phase = SyncPhase::Done;
                    SyncAction::Finish(true)
                },
            }
        }
    }

    /// Sets the phase for the current block and gives the action that goes with it.
    fn advance(&mut self) -> (action: SyncAction)
        requires
            old(self).block() <= old(self).remote().len(),
            !old(self).content_done(),
        ensures
            final(self).wf(),
            final(self).remote() == old(self).remote(),
            final(self).local_exists() == old(self).local_exists(),
            final(self).preserve_timestamp() == old(self).preserve_timestamp(),
            final(self).timestamp() == old(self).timestamp(),
            final(self).permissions() == old(self).permissions(),
            final(self).block() == old(self).block(),
            final(self).content_done() == (old(self).block() >= old(self).remote().len()),
            (final(self).phase(), action) == old(self).advance_at(old(self).block()),
    {
        if self.block >= self.remote.len() {
            self.phase = SyncPhase::Done;
            self.close()
        } else if self.local_exists {
            self.phase = SyncPhase::AwaitLocalChecksum;
            SyncAction::ReadLocalChecksum(self.block)
        } else {
            self.phase = SyncPhase::AwaitRemoteBlock;
            SyncAction::RequestBlock(self.block)
        }
    }

    /// Takes the caller's report on the last action and gives the next one.
    /// The file finishes successfully only once its content is in place, and
    /// unsuccessfully only when the server refused a block.
    pub fn on_event(&mut self, event: SyncEvent) -> (action: SyncAction)
        requires
            old(self).wf(),
            old(self).accepts(event),
        ensures
            final(self).wf(),
            final(self).remote() == old(self).remote(),
            final(self).local_exists() == old(self).local_exists(),
            final(self).preserve_timestamp() == old(self).preserve_timestamp(),
            final(self).timestamp() == old(self).timestamp(),
            final(self).permissions() == old(self).permissions(),
            event matches SyncEvent::LocalChecksum(c) ==> {
                &&& final(self).block() == old(self).block()
                &&& (c matches Some(l) && l@ == old(self).remote()[old(self).block() as int]) ==> (
                    action == SyncAction::CopyLocalBlock(old(self).block() as usize)
                    && final(self).phase() == SyncPhase::AwaitLocalCopy)
                &&& !(c matches Some(l) && l@ == old(self).remote()[old(self).block() as int]) ==> (
                    action == SyncAction::RequestBlock(old(self).block() as usize)
                    && final(self).phase() == SyncPhase::AwaitRemoteBlock)
            },
            event matches SyncEvent::BlockWritten ==> {
                &&& final(self).block() == old(self).block() + 1
                &&& (final(self).phase(), action) == old(self).advance_at(old(self).block() + 1)
                &&& final(self).content_done() == (old(self).block() + 1 == old(self).remote().len())
            },
            event matches SyncEvent::BlockRefused ==> action == SyncAction::Finish(false)
                && final(self).phase() == SyncPhase::Done && final(self).block() == old(self).block(),
            event matches SyncEvent::FileCopied ==> {
                &&& final(self).content_done()
                &&& (final(self).phase(), action) == old(self).after_content()
            },
            event matches SyncEvent::SymlinkCreated ==> action == SyncAction::Finish(true)
                && final(self).phase() == SyncPhase::Done && final(self).content_done(),
            event matches SyncEvent::TimestampSet ==> (final(self).phase(), action)
                == old(self).after_timestamp(),
            event matches SyncEvent::PermissionsSet ==> action == SyncAction::Finish(true)
                && final(self).phase() == SyncPhase::Done,
            action == SyncAction::Finish(true) ==> final(self).content_done(),
            action == SyncAction::Finish(false) ==> (event matches SyncEvent::BlockRefused),
            (event matches SyncEvent::BlockWritten) && !old(self).local_exists() && old(self).block() + 1
                < old(self).remote().len() ==> action == SyncAction::RequestBlock((old(self).block() + 1) as usize),
            (event matches SyncEvent::BlockWritten) && old(self).local_exists() && old(self).block() + 1
                < old(self).remote().len() ==> action == SyncAction::ReadLocalChecksum((old(self).block() + 1) as usize),
            (event matches SyncEvent::BlockWritten) && old(self).block() + 1 == old(self).remote().len()
                && !old(self).preserve_timestamp() && old(self).permissions() is None ==> action
                == SyncAction::Finish(true),
    {
        match event {
            SyncEvent::LocalChecksum(c) => {
                let i = self.block;
                let src = block_source(&c, &self.remote[i]);
                match src {
                    BlockSource::Local => {
                        self.phase = SyncPhase::AwaitLocalCopy;
                        SyncAction::CopyLocalBlock(i)
                    },
                    BlockSource::Remote => {
                        self.phase = SyncPhase::AwaitRemoteBlock;
                        SyncAction::RequestBlock(i)
                    },
                }
            },
            SyncEvent::BlockWritten => {
                let n = self.remote.len();
                assert(self.remote().len() == n);
                self.block = self.block + 1;
                self.advance()
            },
            SyncEvent::BlockRefused => {
                self.phase = SyncPhase::Done;
                SyncAction::Finish(false)
            },
            SyncEvent::FileCopied => {
                self.close()
            },
            SyncEvent::SymlinkCreated => {
                self.content_done = true;
                self.phase = SyncPhase::Done;
                SyncAction::Finish(true)
            },
            SyncEvent::TimestampSet => {
                match self.permissions {
                    Some(p) => {
                        self.phase = SyncPhase::AwaitPermissions;
                        SyncAction::SetPermissions(p)
                    },
                    None => {
                        self.phase = SyncPhase::Done;
                        SyncAction::Finish(true)
                    },
                }
            },
            SyncEvent::PermissionsSet => {
                self.phase = SyncPhase::Done;
                SyncAction::Finish(true)
            },
        }
    }
}


/// Without a local copy, every block that is still to be written is asked of
/// the server, in order.
pub proof fn lemma_no_local_copy_requests_each_block(s: FileSync, block: nat)
    requires
        !s.local_exists(),
        block < s.remote().len(),
    ensures
        s.advance_at(block).1 == SyncAction::RequestBlock(block as usize),
        s.advance_at(block).0 == SyncPhase::AwaitRemoteBlock,
{
}

/// With a local copy, every block that is still to be written is first
/// compared with the local file's block at the same index.
pub proof fn lemma_local_copy_compares_each_block(s: FileSync, block: nat)
    requires
        s.local_exists(),
        block < s.remote().len(),
    ensures
        s.advance_at(block).1 == SyncAction::ReadLocalChecksum(block as usize),
{
}

/// Moving on to the next block never fails the file, and the file is reported
/// complete only once every block is written.
pub proof fn lemma_advance_never_fails(s: FileSync, block: nat)
    ensures
        s.advance_at(block).1 != SyncAction::Finish(false),
        s.advance_at(block).1 == SyncAction::Finish(true) ==> block >= s.remote().len()
            && !s.preserve_timestamp() && s.permissions() is None,
        block >= s.remote().len() && !s.preserve_timestamp() && s.permissions() is None ==> s.advance_at(
            block,
        ).1 == SyncAction::Finish(true),
{
}


/// Naive mode leaves a file alone exactly when it is on and the local file's
/// size and modification time are both the remote file's.
pub proof fn lemma_naive_skip_iff_unchanged(naive: bool, local_stats: Option<(u64, u128)>, size: u64, timestamp: u128)
    ensures
        spec_naive_skip(naive, local_stats, size, timestamp) <==> (naive && local_stats == Some((size, timestamp))),
{
}

/// Once the content is in place, the modification time is set first when
/// asked, then the permissions when asked, and only then is the file done.
pub proof fn lemma_closing_steps(s: FileSync)
    ensures
        s.preserve_timestamp() ==> s.after_content().1 == SyncAction::SetTimestamp(s.timestamp()),
        !s.preserve_timestamp() ==> s.after_content() == s.after_timestamp(),
        s.permissions() matches Some(p) ==> s.after_timestamp().1 == SyncAction::SetPermissions(p),
        s.permissions() is None ==> s.after_timestamp().1 == SyncAction::Finish(true),
        s.after_content().1 != SyncAction::Finish(false),
{
}

} // verus!
