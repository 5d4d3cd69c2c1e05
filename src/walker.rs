//! Grouping of a local directory tree into per-directory batches of files.
//!
//! The walker keeps a stack of directories still to be listed. The caller
//! lists the directory that `next_directory` names and hands the entries to
//! `on_listing`; the walker records the directory's regular files as one
//! batch and stacks its subdirectories.

use crate::paths::{join_path, path_join};
use vstd::prelude::*;

verus! {

/// What a directory entry is.
#[derive(Clone, Copy, Debug, PartialEq, Eq, Structural)]
pub enum EntryKind {
    File,
    Directory,
    /// A symbolic link or any other kind of entry.
    Other,
}

/// One entry of a directory listing.
#[derive(Clone, Debug, PartialEq, Eq)]
pub struct DirEntry {
    pub name: String,
    pub kind: EntryKind,
}

/// The regular files directly inside one directory, by name, in listing
/// order.
#[derive(Clone, Debug, PartialEq, Eq)]
pub struct DirectoryBatch {
    pub directory: String,
    pub files: Vec<String>,
}

#[derive(Clone, Debug, PartialEq, Eq)]
pub enum WalkError {
    /// The entry at `path` is neither a regular file nor a directory.
    UnsupportedEntry { path: String },
    /// No directory is waiting to be listed.
    NothingPending,
}

/// The names of the regular files among the first `n` entries.
pub open spec fn files_among(entries: Seq<DirEntry>, n: nat) -> Seq<Seq<char>>
    decreases n,
{
    if n == 0 || n > entries.len() {
        Seq::empty()
    } else if entries[n - 1].kind == EntryKind::File {
        files_among(entries, (n - 1) as nat).push(entries[n - 1].name@)
    } else {
        files_among(entries, (n - 1) as nat)
    }
}

/// The paths of the subdirectories among the first `n` entries of `dir`.
pub open spec fn subdirs_among(dir: Seq<char>, entries: Seq<DirEntry>, n: nat) -> Seq<Seq<char>>
    decreases n,
{
    if n == 0 || n > entries.len() {
        Seq::empty()
    } else if entries[n - 1].kind == EntryKind::Directory {
        subdirs_among(dir, entries, (n - 1) as nat).push(path_join(dir, entries[n - 1].name@))
    } else {
        subdirs_among(dir, entries, (n - 1) as nat)
    }
}

/// Some entry is neither a regular file nor a directory.
pub open spec fn has_unsupported(entries: Seq<DirEntry>) -> bool {
    exists|i: int| 0 <= i < entries.len() && #[trigger] entries[i].kind == EntryKind::Other
}

/// The first entry that is neither a regular file nor a directory.
pub open spec fn first_unsupported(entries: Seq<DirEntry>, i: int) -> bool {
    &&& 0 <= i < entries.len()
    &&& entries[i].kind == EntryKind::Other
    &&& forall|j: int| 0 <= j < i ==> #[trigger] entries[j].kind != EntryKind::Other
}

pub struct DirectoryWalker {
    pending: Vec<String>,
    batches: Vec<DirectoryBatch>,
}

impl DirectoryWalker {
    /// Directories still to be listed; the last one is listed next.
    pub closed spec fn spec_pending(&self) -> Seq<Seq<char>> {
        self.pending@.map_values(|d: String| d@)
    }

    /// The batches recorded so far, in the order the directories were listed.
    pub closed spec fn spec_batches(&self) -> Seq<DirectoryBatch> {
        self.batches@
    }

    /// Starts a walk at `root`.
    pub fn new(root: String) -> (r: Self)
        ensures
            r.spec_pending() == seq![root@],
            r.spec_batches() == Seq::<DirectoryBatch>::empty(),
    {
        let mut pending: Vec<String> = Vec::new();
        pending.push(root);
        let r = DirectoryWalker { pending, batches: Vec::new() };
        assert(r.spec_pending() =~= seq![root@]);
        r
    }

    /// The directory to list next, or `None` once the walk is over.
    pub fn next_directory(&self) -> (r: Option<String>)
        ensures
            r is None <==> self.spec_pending().len() == 0,
            r matches Some(d) ==> d@ == self.spec_pending().last(),
    {
        let n = self.pending.len();
        if n == 0 {
            None
        } else {
            Some(self.pending[n - 1].clone())
        }
    }

    /// Takes the listing of the directory that `next_directory` named. An
    /// entry that is neither a regular file nor a directory stops the walk
    /// with an error that names it, and leaves the walker as it was.
    pub fn on_listing(&mut self, entries: &Vec<DirEntry>) -> (r: Result<(), WalkError>)
        ensures
            old(self).spec_pending().len() == 0 ==> r == Err::<(), WalkError>(
                WalkError::NothingPending,
            ),
            r is Ok <==> old(self).spec_pending().len() > 0 && !has_unsupported(entries@),
            r is Err ==> *final(self) == *old(self),
            old(self).spec_pending().len() > 0 ==> ({
                let dir = old(self).spec_pending().last();
                &&& r matches Err(WalkError::UnsupportedEntry { path }) ==> exists|i: int|
                    first_unsupported(entries@, i) && path@ == path_join(dir, entries@[i].name@)
                &&& r is Ok ==> final(self).spec_pending() == old(self).spec_pending().drop_last()
                    + subdirs_among(dir, entries@, entries@.len())
                &&& r is Ok ==> final(self).spec_batches().len() == old(self).spec_batches().len()
                    + 1
                &&& r is Ok ==> final(self).spec_batches().drop_last()
                    == old(self).spec_batches()
                &&& r is Ok ==> final(self).spec_batches().last().directory@ == dir
                &&& r is Ok ==> final(self).spec_batches().last().files@.map_values(
                    |f: String| f@,
                ) == files_among(entries@, entries@.len())
            }),
    {
        let n = self.pending.len();
        if n == 0 {
            return Err(WalkError::NothingPending);
        }
        let m = entries.len();
        let mut i: usize = 0;
        while i < m
            invariant
                m == entries@.len(),
                i <= m,
                n == self.pending@.len(),
                n > 0,
                forall|j: int| 0 <= j < i ==> #[trigger] entries@[j].kind != EntryKind::Other,
            decreases m - i,
        {
            if entries[i].kind == EntryKind::Other {
                let path = join_path(self.pending[n - 1].as_str(), entries[i].name.as_str());
                assert(first_unsupported(entries@, i as int));
                return Err(WalkError::UnsupportedEntry { path });
            }
            i = i + 1;
        }
        let ghost old_pending = self.spec_pending();
        let dir = self.pending.pop().unwrap();
        assert(self.spec_pending() =~= old_pending.drop_last());
        let mut files: Vec<String> = Vec::new();
        let mut k: usize = 0;
        while k < m
            invariant
                m == entries@.len(),
                k <= m,
                old_pending.len() > 0,
                files@.map_values(|f: String| f@) == files_among(entries@, k as nat),
                self.spec_pending() == old_pending.drop_last() + subdirs_among(
                    dir@,
                    entries@,
                    k as nat,
                ),
                self.batches == old(self).batches,
            decreases m - k,
        {
            let ghost before_files = files@;
            let ghost before_pending = self.spec_pending();
            match entries[k].kind {
                EntryKind::File => {
                    files.push(entries[k].name.clone());
                    assert(files@.map_values(|f: String| f@) =~= before_files.map_values(
                        |f: String| f@,
                    ).push(entries@[k as int].name@));
                },
                EntryKind::Directory => {
                    let sub = join_path(dir.as_str(), entries[k].name.as_str());
                    self.pending.push(sub);
                    assert(self.spec_pending() =~= before_pending.push(sub@));
                    assert(files@.map_values(|f: String| f@) =~= before_files.map_values(
                        |f: String| f@,
                    ));
                },
                EntryKind::Other => {},
            }
            k = k + 1;
        }
        self.batches.push(DirectoryBatch { directory: dir, files });
        Ok(())
    }

    /// The batches recorded so far.
    pub fn into_batches(self) -> (r: Vec<DirectoryBatch>)
        ensures
            r@ == self.spec_batches(),
    {
        self.batches
    }
}

} // verus!
