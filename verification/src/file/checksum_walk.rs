//! The breadth-first walk over a directory tree that collects the metadata
//! and block checksums of its files. The walk decides; the caller does the
//! filesystem work and reports back.

use vstd::prelude::*;

use std::collections::VecDeque;

use super::dir_meta::DirMeta;
use super::file_meta::FileMeta;

verus! {

/// What the walk does with a directory entry.
#[derive(Debug, Clone, Copy, PartialEq, Eq, Structural)]
pub enum EntryAction {
    /// A symlink: recorded as it is, with its target, and never followed.
    Symlink,
    /// A regular file: its blocks are checksummed.
    Checksum,
    /// A directory: queued to be walked.
    Descend,
}

/// Classifies a directory entry from its own metadata (links not followed):
/// a symlink is recorded as a link whatever it points to, so the walk never
/// goes through one; otherwise a file is checksummed and anything else is
/// walked as a directory.
pub fn entry_action(is_symlink: bool, is_file: bool) -> (res: EntryAction)
    ensures
        is_symlink ==> res == EntryAction::Symlink,
        !is_symlink && is_file ==> res == EntryAction::Checksum,
        !is_symlink && !is_file ==> res == EntryAction::Descend,
{
    if is_symlink {
        EntryAction::Symlink
    } else if is_file {
        EntryAction::Checksum
    } else {
        EntryAction::Descend
    }
}

/// The state of a breadth-first walk: the directories still to visit, the one
/// being visited, and what was collected so far.
pub struct ChecksumWalk {
    pending: VecDeque<String>,
    current: Option<String>,
    files: Vec<FileMeta>,
    dirs: Vec<DirMeta>,
    discovered: Ghost<Seq<Seq<char>>>,
}

/// The path of the directory being visited, as a sequence of at most one path.
pub open spec fn current_seq(current: Option<Seq<char>>) -> Seq<Seq<char>> {
    match current {
        Some(c) => seq![c],
        None => Seq::empty(),
    }
}

impl ChecksumWalk {
    /// Paths of the directories queued to be visited, oldest first.
    pub closed spec fn pending(&self) -> Seq<Seq<char>> {
        self.pending@.map_values(|s: String| s@)
    }

    /// Path of the directory being visited, if any.
    pub closed spec fn current(&self) -> Option<Seq<char>> {
        match self.current {
            Some(c) => Some(c@),
            None => None,
        }
    }

    /// The files collected so far.
    pub closed spec fn files(&self) -> Seq<FileMeta> {
        self.files@
    }

    /// The directories whose visit is complete, in the order they completed.
    pub closed spec fn dirs(&self) -> Seq<DirMeta> {
        self.dirs@
    }

    /// Paths of every directory queued so far, in the order they were queued.
    pub closed spec fn discovered(&self) -> Seq<Seq<char>> {
        self.discovered@
    }

    /// Paths of the completed directories.
    pub open spec fn finished_paths(&self) -> Seq<Seq<char>> {
        self.dirs().map_values(|d: DirMeta| d.path@)
    }

    /// Every directory queued so far is, in queue order, either complete,
    /// being visited, or still pending.
    pub open spec fn wf(&self) -> bool {
        self.discovered() == self.finished_paths() + current_seq(self.current()) + self.pending()
    }

    /// A walk that starts at the directory `root`.
    pub fn from_root(root: String) -> (res: Self)
        ensures
            res.wf(),
            res.pending() == seq![root@],
            res.current() is None,
            res.files() == Seq::<FileMeta>::empty(),
            res.dirs() == Seq::<DirMeta>::empty(),
            res.discovered() == seq![root@],
    {
        let ghost r = root@;
        let ghost d: Seq<Seq<char>> = seq![r];
        let mut pending = VecDeque::new();
        pending.push_back(root);
        let res = ChecksumWalk {
            pending,
            current: None,
            files: Vec::new(),
            dirs: Vec::new(),
            discovered: Ghost(d),
        };
        assert(res.pending() =~= seq![r]);
        assert(res.finished_paths() =~= Seq::<Seq<char>>::empty());
        assert(res.discovered() =~= res.finished_paths() + current_seq(res.current()) + res.pending());
        res
    }

    /// Starts the visit of the oldest pending directory and returns its path;
    /// `None`, with nothing changed, once no directory is pending.
    pub fn next_dir(&mut self) -> (res: Option<String>)
        requires
            old(self).wf(),
            old(self).current() is None,
        ensures
            final(self).wf(),
            final(self).files() == old(self).files(),
            final(self).dirs() == old(self).dirs(),
            final(self).discovered() == old(self).discovered(),
            old(self).pending().len() == 0 ==> res is None && final(self).pending() == old(
                self,
            ).pending() && final(self).current() is None,
            old(self).pending().len() > 0 ==> (res matches Some(p) && p@ == old(self).pending()[0]
                && final(self).current() == Some(p@) && final(self).pending() == old(
                self,
            ).pending().skip(1)),
    {
        let ghost old_pending = self.pending@;
        match self.pending.pop_front() {
            None => None,
            Some(dir) => {
                let c = dir.clone();
                self.current = Some(c);
                proof {
                    assert(self.pending() =~= old(self).pending().skip(1));
                    assert(old(self).pending() =~= seq![dir@] + self.pending());
                    assert(self.discovered() =~= self.finished_paths() + current_seq(self.current())
                        + self.pending());
                }
                Some(dir)
            },
        }
    }

    /// Records a file of the directory being visited.
    pub fn add_file(&mut self, meta: FileMeta)
        requires
            old(self).wf(),
        ensures
            final(self).wf(),
            final(self).files() == old(self).files().push(meta),
            final(self).dirs() == old(self).dirs(),
            final(self).pending() == old(self).pending(),
            final(self).current() == old(self).current(),
            final(self).discovered() == old(self).discovered(),
    {
        self.files.push(meta);
    }

    /// Records a symlink of the directory being visited, as it is: its path
    /// and its target, with no checksums.
    pub fn add_symlink(&mut self, path: String, target: String)
        requires
            old(self).wf(),
        ensures
            final(self).wf(),
            final(self).files().len() == old(self).files().len() + 1,
            final(self).files().drop_last() == old(self).files(),
            final(self).files().last().path == path,
            final(self).files().last().is_symlink,
            final(self).files().last().symlink_target == Some(target),
            final(self).files().last().checksums@.len() == 0,
            final(self).files().last().size == 0,
            final(self).files().last().modified_timestamp == 0,
            final(self).files().last().permissions is None,
            final(self).dirs() == old(self).dirs(),
            final(self).pending() == old(self).pending(),
            final(self).current() == old(self).current(),
            final(self).discovered() == old(self).discovered(),
    {
        self.files.push(FileMeta::new_symlink(path, target));
        assert(self.files@.drop_last() =~= old(self).files@);
    }

    /// Queues a subdirectory to be visited after every directory already queued.
    pub fn add_subdir(&mut self, path: String)
        requires
            old(self).wf(),
        ensures
            final(self).wf(),
            final(self).pending() == old(self).pending().push(path@),
            final(self).discovered() == old(self).discovered().push(path@),
            final(self).files() == old(self).files(),
            final(self).dirs() == old(self).dirs(),
            final(self).current() == old(self).current(),
    {
        let ghost p = path@;
        self.pending.push_back(path);
        proof {
            self.discovered = Ghost(self.discovered@.push(p));
            assert(self.pending() =~= old(self).pending().push(p));
            assert(self.discovered() =~= self.finished_paths() + current_seq(self.current())
                + self.pending());
        }
    }

    /// Completes the visit of the current directory, recording it with its
    /// modification timestamp.
    pub fn finish_dir(&mut self, modified_timestamp: u128)
        requires
            old(self).wf(),
            old(self).current() is Some,
        ensures
            final(self).wf(),
            final(self).current() is None,
            final(self).dirs().len() == old(self).dirs().len() + 1,
            final(self).dirs().drop_last() == old(self).dirs(),
            final(self).dirs().last().path@ == old(self).current()->Some_0,
            final(self).dirs().last().modified_timestamp == modified_timestamp,
            final(self).files() == old(self).files(),
            final(self).pending() == old(self).pending(),
            final(self).discovered() == old(self).discovered(),
    {
        let cur = self.current.take();
        match cur {
            Some(path) => {
                let ghost p = path@;
                self.dirs.push(DirMeta::new(path, modified_timestamp));
                proof {
                    assert(self.dirs@.drop_last() =~= old(self).dirs@);
                    assert(self.finished_paths() =~= old(self).finished_paths().push(p));
                    assert(self.discovered() =~= self.finished_paths() + current_seq(self.current())
                        + self.pending());
                }
            },
            None => {},
        }
    }

    /// The files and the directories that the walk collected.
    pub fn into_parts(self) -> (res: (Vec<FileMeta>, Vec<DirMeta>))
        ensures
            res.0@ == self.files(),
            res.1@ == self.dirs(),
    {
        (self.files, self.dirs)
    }
}

/// A walk that is over reports every directory it queued exactly once, in the
/// order in which it queued them: breadth-first from the root.
pub proof fn lemma_walk_reports_discovery_order(w: ChecksumWalk)
    requires
        w.wf(),
        w.pending().len() == 0,
        w.current() is None,
    ensures
        w.finished_paths() == w.discovered(),
{
    assert(w.finished_paths() + current_seq(w.current()) + w.pending() =~= w.finished_paths());
}

} // verus!
