//! The bookkeeping of a directory size calculation. The size counts every
//! file below the directory, the item count only the directory's direct
//! children. The caller reads the directories that the walk hands out and
//! reports what each entry turned out to be.
use vstd::prelude::*;
use std::path::PathBuf;

verus! {

/// What a walked entry turned out to be.
#[derive(Debug)]
pub enum WalkEntry {
    /// A file of the given length in bytes.
    File(u64),
    /// A subdirectory, to be read later.
    Dir(PathBuf),
    /// Anything else, or an entry whose metadata could not be read.
    Other,
}

/// A directory size calculation in progress.
#[derive(Debug)]
pub struct SizeWalk {
    /// Directories still to read; the last one is read next.
    pub pending: Vec<PathBuf>,
    /// Bytes of the files seen so far.
    pub total_size: u64,
    /// Entries seen directly in the directory whose size is computed.
    pub direct_items: usize,
    /// Whether the directory being read is the one whose size is computed.
    pub in_root: bool,
}

/// One call on a walk, for stating what a run of calls adds up to.
pub enum WalkStep {
    /// `record_entry` of a file of this length.
    FileEntry(u64),
    /// `record_entry` of a subdirectory.
    DirEntry,
    /// `record_entry` of anything else.
    OtherEntry,
    /// `finish_dir`.
    FinishDir,
    /// `next_dir`.
    NextDir,
}

/// The step that `record_entry` of an entry is.
pub open spec fn entry_step(e: WalkEntry) -> WalkStep {
    match e {
        WalkEntry::File(len) => WalkStep::FileEntry(len),
        WalkEntry::Dir(_) => WalkStep::DirEntry,
        WalkEntry::Other => WalkStep::OtherEntry,
    }
}

/// The counts of a walk: bytes, direct children, and whether it is still
/// inside the root directory.
pub open spec fn counts(s: SizeWalk) -> (int, int, bool) {
    (s.total_size as int, s.direct_items as int, s.in_root)
}

/// The counts after one step.
pub open spec fn step_counts(c: (int, int, bool), t: WalkStep) -> (int, int, bool) {
    let items = if c.2 { c.1 + 1 } else { c.1 };
    match t {
        WalkStep::FileEntry(len) => (c.0 + len, items, c.2),
        WalkStep::DirEntry | WalkStep::OtherEntry => (c.0, items, c.2),
        WalkStep::FinishDir => (c.0, c.1, false),
        WalkStep::NextDir => c,
    }
}

/// The counts after a run of steps, in order.
pub open spec fn run_counts(c: (int, int, bool), steps: Seq<WalkStep>) -> (int, int, bool)
    decreases steps.len(),
{
    if steps.len() == 0 {
        c
    } else {
        step_counts(run_counts(c, steps.drop_last()), steps.last())
    }
}

/// The bytes of the file entries of a run.
pub open spec fn file_bytes(steps: Seq<WalkStep>) -> nat
    decreases steps.len(),
{
    if steps.len() == 0 {
        0
    } else {
        file_bytes(steps.drop_last()) + match steps.last() {
            WalkStep::FileEntry(len) => len as nat,
            _ => 0nat,
        }
    }
}

pub open spec fn is_entry(t: WalkStep) -> bool {
    t is FileEntry || t is DirEntry || t is OtherEntry
}

/// Whether a run, begun inside the root directory or not, has left it.
pub open spec fn left_root(in_root: bool, steps: Seq<WalkStep>) -> bool
    decreases steps.len(),
{
    if steps.len() == 0 {
        !in_root
    } else {
        left_root(in_root, steps.drop_last()) || steps.last() is FinishDir
    }
}

/// The entries of a run reported while still inside the root directory.
pub open spec fn root_entries(in_root: bool, steps: Seq<WalkStep>) -> nat
    decreases steps.len(),
{
    if steps.len() == 0 {
        0
    } else {
        root_entries(in_root, steps.drop_last()) + if !left_root(in_root, steps.drop_last()) && is_entry(
            steps.last(),
        ) {
            1nat
        } else {
            0nat
        }
    }
}

/// Whether a directory's cached size can stand for a fresh calculation:
/// only when it holds a size or an item count.
pub open spec fn cached_size_usable_spec(size: u64, items: u64) -> bool {
    size > 0 || items > 0
}

impl SizeWalk {
    /// A walk of `root`: only `root` is pending, nothing is counted yet.
    pub fn new(root: PathBuf) -> (r: Self)
        ensures
            r.pending@ == seq![root],
            r.total_size == 0,
            r.direct_items == 0,
            r.in_root,
    {
        let mut pending: Vec<PathBuf> = Vec::new();
        pending.push(root);
        SizeWalk { pending, total_size: 0, direct_items: 0, in_root: true }
    }

    /// The directory to read next, the last one pending; `None` when the
    /// walk is over.
    pub fn next_dir(&mut self) -> (r: Option<PathBuf>)
        ensures
            old(self).pending@.len() == 0 ==> r is None && final(self).pending@ == old(self).pending@ && counts(
                *final(self),
            ) == counts(*old(self)),
            old(self).pending@.len() > 0 ==> {
                &&& r == Some(old(self).pending@.last())
                &&& final(self).pending@ == old(self).pending@.drop_last()
                &&& counts(*final(self)) == step_counts(counts(*old(self)), WalkStep::NextDir)
            },
    {
        self.pending.pop()
    }

    /// Counts an entry of the directory being read: a direct child while
    /// in the root directory, its bytes if it is a file, and a subdirectory
    /// is kept to be read later.
    pub fn record_entry(&mut self, entry: WalkEntry)
        requires
            entry matches WalkEntry::File(len) ==> old(self).total_size + len <= u64::MAX,
            old(self).in_root ==> old(self).direct_items < usize::MAX,
        ensures
            counts(*final(self)) == step_counts(counts(*old(self)), entry_step(entry)),
            final(self).pending@ == match entry {
                WalkEntry::Dir(p) => old(self).pending@.push(p),
                _ => old(self).pending@,
            },
    {
        if self.in_root {
            self.direct_items = self.direct_items + 1;
        }
        match entry {
            WalkEntry::File(len) => {
                self.total_size = self.total_size + len;
            },
            WalkEntry::Dir(p) => {
                self.pending.push(p);
            },
            WalkEntry::Other => {},
        }
    }

    /// Marks the end of a directory that could be read: later entries are
    /// no longer direct children.
    pub fn finish_dir(&mut self)
        ensures
            counts(*final(self)) == step_counts(counts(*old(self)), WalkStep::FinishDir),
            final(self).pending == old(self).pending,
    {
        self.in_root = false;
    }

    /// Whether a directory's cached size and item count can be used in
    /// place of a new calculation.
    pub fn cached_size_usable(size: u64, items: u64) -> (r: bool)
        ensures
            r == cached_size_usable_spec(size, items),
    {
        size > 0 || items > 0
    }
}

/// Over any run of calls, the size grows by exactly the bytes of the files
/// reported, and the item count by exactly the entries reported before the
/// walk first left the directory whose size is computed.
pub proof fn law_size_counts_files_items_count_children(c: (int, int, bool), steps: Seq<WalkStep>)
    ensures
        run_counts(c, steps) == (c.0 + file_bytes(steps), c.1 + root_entries(c.2, steps), !left_root(c.2, steps)),
    decreases steps.len(),
{
    if steps.len() > 0 {
        law_size_counts_files_items_count_children(c, steps.drop_last());
    }
}

} // verus!
