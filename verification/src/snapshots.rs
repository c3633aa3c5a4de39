//! Immutable snapshots of state handed to the renderer.
use vstd::prelude::*;
use std::path::PathBuf;
use std::time::SystemTime;

verus! {

#[verifier::external_type_specification]
#[verifier::external_body]
pub struct ExSystemTime(std::time::SystemTime);

/// `SystemTime` is `Copy`; its `clone` returns the same time.
pub assume_specification[ <SystemTime as Clone>::clone ](t: &SystemTime) -> (r: SystemTime)
    ensures
        r == *t,
;

/// The state of a running file operation.
#[derive(Debug, Clone, PartialEq, Eq, Structural)]
pub enum OperationStatus {
    InProgress,
    Paused,
    Complete,
    Failed,
}

/// What a clipboard item refers to.
#[derive(Debug, Clone, PartialEq, Eq, Structural)]
pub enum ClipboardItemType {
    File,
    Directory,
    Symlink,
}

/// One clipboard item as shown in the clipboard overlay.
#[derive(Debug, Clone)]
pub struct ClipboardItemSnapshot {
    /// Item ID for operations
    pub id: u64,
    /// Display path
    pub path: PathBuf,
    /// Item size in bytes
    pub size: u64,
    /// Whether the item is cut (rather than copied)
    pub is_cut: bool,
    /// File, directory or link
    pub item_type: ClipboardItemType,
    /// When the item was added to the clipboard
    pub timestamp: SystemTime,
}

/// The clipboard as shown in the clipboard overlay.
#[derive(Debug, Clone)]
pub struct ClipboardSnapshot {
    /// Clipboard items to display
    pub items: Vec<ClipboardItemSnapshot>,
    /// Currently selected item index
    pub selected_idx: usize,
    /// Whether the clipboard is empty
    pub is_empty: bool,
    /// Number of items
    pub item_count: usize,
    /// Total size of the items
    pub total_size: u64,
}

/// The sum of the sizes of the items.
pub open spec fn total_size_of(items: Seq<ClipboardItemSnapshot>) -> nat
    decreases items.len(),
{
    if items.len() == 0 {
        0
    } else {
        total_size_of(items.drop_last()) + items.last().size as nat
    }
}

/// A snapshot is consistent when its counters describe its items and the
/// selection lies within them (or is 0 for an empty clipboard).
pub open spec fn snapshot_consistent(s: ClipboardSnapshot) -> bool {
    &&& s.item_count == s.items@.len()
    &&& s.is_empty == (s.items@.len() == 0)
    &&& s.total_size == total_size_of(s.items@)
    &&& (if s.items@.len() == 0 { s.selected_idx == 0 } else { s.selected_idx < s.items@.len() })
}

proof fn lemma_total_size_prefix(items: Seq<ClipboardItemSnapshot>, i: int)
    requires
        0 <= i <= items.len(),
    ensures
        total_size_of(items.take(i)) <= total_size_of(items),
    decreases items.len(),
{
    if i < items.len() {
        assert(items.drop_last().take(i) =~= items.take(i));
        lemma_total_size_prefix(items.drop_last(), i);
    } else {
        assert(items.take(i) =~= items);
    }
}

impl ClipboardSnapshot {
    /// An empty clipboard.
    pub fn empty() -> (r: Self)
        ensures
            r.items@.len() == 0,
            r.selected_idx == 0,
            r.is_empty,
            r.item_count == 0,
            r.total_size == 0,
            snapshot_consistent(r),
    {
        ClipboardSnapshot { items: Vec::new(), selected_idx: 0, is_empty: true, item_count: 0, total_size: 0 }
    }

    /// A snapshot of the given items; the selection is kept within them.
    pub fn from_items(items: Vec<ClipboardItemSnapshot>, selected_idx: usize) -> (r: Self)
        requires
            total_size_of(items@) <= u64::MAX,
        ensures
            r.items@ == items@,
            r.item_count == items@.len(),
            r.is_empty == (items@.len() == 0),
            r.total_size == total_size_of(items@),
            r.selected_idx == (if items@.len() == 0 {
                0
            } else if selected_idx < items@.len() {
                selected_idx as int
            } else {
                items@.len() - 1
            }),
            snapshot_consistent(r),
    {
        let item_count = items.len();
        let is_empty = item_count == 0;
        let mut total: u64 = 0;
        let mut i: usize = 0;
        while i < item_count
            invariant
                i <= item_count == items@.len(),
                total == total_size_of(items@.take(i as int)),
                total_size_of(items@) <= u64::MAX,
            decreases item_count - i,
        {
            proof {
                assert(items@.take(i + 1).drop_last() =~= items@.take(i as int));
                lemma_total_size_prefix(items@, i + 1);
            }
            total = total + items[i].size;
            i = i + 1;
        }
        assert(items@.take(item_count as int) =~= items@);
        let sel = if is_empty {
            0
        } else if selected_idx < item_count {
            selected_idx
        } else {
            item_count - 1
        };
        ClipboardSnapshot { items, selected_idx: sel, is_empty, item_count, total_size: total }
    }
}

} // verus!
