//! Filesystem view state: panes with their entries, selection, virtual
//! scrolling and sort order, and the session-wide pane set with recent and
//! favourite directories.
use vstd::prelude::*;
use std::collections::{HashSet, VecDeque};
use std::path::PathBuf;
use std::sync::Arc;
use ratatui::widgets::TableState;
use crate::object_registry::{ObjectId, SortableEntry};
use crate::paths::pathbuf_from_str;
use crate::stable_sort::{le_pair, sort_pairs};
use crate::text::{chars_of, string_of};

verus! {

/// Filter and sort mode for directory views.
#[derive(Debug, Clone, PartialEq, Eq)]
pub enum EntrySort {
    NameAsc,
    NameDesc,
    SizeAsc,
    SizeDesc,
    ModifiedAsc,
    ModifiedDesc,
    Custom(String),
}

#[derive(Debug, Clone, PartialEq, Eq)]
pub enum EntryFilter {
    All,
    FilesOnly,
    DirsOnly,
    Extension(String),
    Pattern(String),
    Custom(String),
}

// ---------------------------------------------------------------------
// ratatui's table selection state
// ---------------------------------------------------------------------

#[verifier::external_type_specification]
#[verifier::external_body]
pub struct ExTableState(TableState);

/// `TableState` is `Copy`; its derived `clone` returns the same state.
pub assume_specification[ <TableState as Clone>::clone ](s: &TableState) -> (r: TableState)
    ensures
        r == *s,
;

/// The row index that `TableState::selected` reports for a state.
pub uninterp spec fn table_selected(s: TableState) -> Option<usize>;

/// Calls `TableState::default`, which selects no row.
#[verifier::external_body]
fn table_state_new() -> (s: TableState)
    ensures
        table_selected(s) == None::<usize>,
{
    TableState::default()
}

/// Calls `TableState::select`, after which `selected` reports `index`.
#[verifier::external_body]
fn table_state_select(s: &mut TableState, index: Option<usize>)
    ensures
        table_selected(*final(s)) == index,
{
    s.select(index)
}

// ---------------------------------------------------------------------
// Specification
// ---------------------------------------------------------------------

impl EntrySort {
    /// The name under which a sort mode is displayed.
    pub open spec fn label_spec(&self) -> Seq<char> {
        match self {
            EntrySort::NameAsc => "name_asc"@,
            EntrySort::NameDesc => "name_desc"@,
            EntrySort::SizeAsc => "size_asc"@,
            EntrySort::SizeDesc => "size_desc"@,
            EntrySort::ModifiedAsc => "modified_asc"@,
            EntrySort::ModifiedDesc => "modified_desc"@,
            EntrySort::Custom(s) => s@,
        }
    }

    /// The display text of the sort mode.
    pub fn label(&self) -> (r: String)
        ensures
            r@ == self.label_spec(),
    {
        match self {
            EntrySort::NameAsc => string_of(chars_of("name_asc").as_slice()),
            EntrySort::NameDesc => string_of(chars_of("name_desc").as_slice()),
            EntrySort::SizeAsc => string_of(chars_of("size_asc").as_slice()),
            EntrySort::SizeDesc => string_of(chars_of("size_desc").as_slice()),
            EntrySort::ModifiedAsc => string_of(chars_of("modified_asc").as_slice()),
            EntrySort::ModifiedDesc => string_of(chars_of("modified_desc").as_slice()),
            EntrySort::Custom(s) => s.clone(),
        }
    }
}

impl EntryFilter {
    /// The name under which a filter is displayed.
    pub open spec fn label_spec(&self) -> Seq<char> {
        match self {
            EntryFilter::All => "all"@,
            EntryFilter::FilesOnly => "files_only"@,
            EntryFilter::DirsOnly => "dirs_only"@,
            EntryFilter::Extension(s) => s@,
            EntryFilter::Pattern(s) => s@,
            EntryFilter::Custom(s) => s@,
        }
    }

    /// The display text of the filter.
    pub fn label(&self) -> (r: String)
        ensures
            r@ == self.label_spec(),
    {
        match self {
            EntryFilter::All => string_of(chars_of("all").as_slice()),
            EntryFilter::FilesOnly => string_of(chars_of("files_only").as_slice()),
            EntryFilter::DirsOnly => string_of(chars_of("dirs_only").as_slice()),
            EntryFilter::Extension(s) => s.clone(),
            EntryFilter::Pattern(s) => s.clone(),
            EntryFilter::Custom(s) => s.clone(),
        }
    }
}

/// `a` comes strictly before `b` under the sort mode (directories first for
/// the name orders; `Custom` orders nothing).
pub open spec fn entry_before(sort: EntrySort, a: SortableEntry, b: SortableEntry) -> bool {
    match sort {
        EntrySort::NameAsc => (a.is_dir && !b.is_dir) || (a.is_dir == b.is_dir && a.sort_name_hash
            < b.sort_name_hash),
        EntrySort::NameDesc => (a.is_dir && !b.is_dir) || (a.is_dir == b.is_dir
            && a.sort_name_hash > b.sort_name_hash),
        EntrySort::SizeAsc => a.size < b.size,
        EntrySort::SizeDesc => a.size > b.size,
        EntrySort::ModifiedAsc => a.modified < b.modified,
        EntrySort::ModifiedDesc => a.modified > b.modified,
        EntrySort::Custom(_) => false,
    }
}

/// `perm` lists each index below `n` exactly once.
pub open spec fn is_index_permutation(perm: Seq<int>, n: int) -> bool {
    &&& perm.len() == n
    &&& forall|i: int| 0 <= i < n ==> 0 <= #[trigger] perm[i] < n
    &&& forall|i: int, j: int| 0 <= i < j < n ==> #[trigger] perm[i] != #[trigger] perm[j]
}

/// `out` is `inp` rearranged so that no entry comes before one it should
/// follow, and entries that tie keep their relative order (a stable sort).
pub open spec fn is_stable_sort(out: Seq<SortableEntry>, inp: Seq<SortableEntry>, sort: EntrySort) -> bool {
    exists|perm: Seq<int>|
        #[trigger] is_index_permutation(perm, inp.len() as int) && out.len() == inp.len() && (
        forall|i: int| 0 <= i < out.len() ==> out[i] == inp[perm[i]]) && (forall|i: int, j: int|
            0 <= i < j < out.len() ==> entry_before(sort, #[trigger] out[i], #[trigger] out[j]) || (
            !entry_before(sort, out[j], out[i]) && perm[i] < perm[j]))
}

/// No entry comes after one it should come before.
pub open spec fn entries_in_order(s: Seq<SortableEntry>, sort: EntrySort) -> bool {
    forall|i: int, j: int| 0 <= i < j < s.len() ==> !entry_before(sort, #[trigger] s[j], #[trigger] s[i])
}

proof fn lemma_increasing_permutation_is_identity(perm: Seq<int>, n: int)
    requires
        is_index_permutation(perm, n),
        forall|i: int, j: int| 0 <= i < j < n ==> #[trigger] perm[i] < #[trigger] perm[j],
    ensures
        forall|i: int| 0 <= i < n ==> #[trigger] perm[i] == i,
{
    assert forall|i: int| 0 <= i < n implies #[trigger] perm[i] >= i by {
        lemma_increasing_lower(perm, n, i);
    }
    assert forall|i: int| 0 <= i < n implies #[trigger] perm[i] <= i by {
        lemma_increasing_upper(perm, n, i);
    }
}

proof fn lemma_increasing_lower(perm: Seq<int>, n: int, i: int)
    requires
        is_index_permutation(perm, n),
        forall|a: int, b: int| 0 <= a < b < n ==> #[trigger] perm[a] < #[trigger] perm[b],
        0 <= i < n,
    ensures
        perm[i] >= i,
    decreases i,
{
    if i > 0 {
        lemma_increasing_lower(perm, n, i - 1);
        assert(perm[i - 1] < perm[i]);
    }
}

proof fn lemma_increasing_upper(perm: Seq<int>, n: int, i: int)
    requires
        is_index_permutation(perm, n),
        forall|a: int, b: int| 0 <= a < b < n ==> #[trigger] perm[a] < #[trigger] perm[b],
        0 <= i < n,
    ensures
        perm[i] <= i,
    decreases n - i,
{
    if i < n - 1 {
        lemma_increasing_upper(perm, n, i + 1);
        assert(perm[i] < perm[i + 1]);
    } else {
        assert(perm[i] < n);
    }
}

/// The result of a stable sort is in order, and sorting entries that are in
/// order leaves them exactly as they are; so sorting twice gives the same
/// entries as sorting once.
pub proof fn law_stable_sort_idempotent(
    out: Seq<SortableEntry>,
    inp: Seq<SortableEntry>,
    again: Seq<SortableEntry>,
    sort: EntrySort,
)
    requires
        is_stable_sort(out, inp, sort),
        is_stable_sort(again, out, sort),
    ensures
        entries_in_order(out, sort),
        again == out,
{
    assert forall|i: int, j: int| 0 <= i < j < out.len() implies !entry_before(sort, #[trigger] out[j], #[trigger] out[i]) by {
        lemma_rank_orders(sort, out[i], out[j]);
        lemma_rank_orders(sort, out[j], out[i]);
    }
    let perm = choose|perm: Seq<int>|
        #[trigger] is_index_permutation(perm, out.len() as int) && again.len() == out.len() && (
        forall|i: int| 0 <= i < again.len() ==> again[i] == out[perm[i]]) && (forall|i: int, j: int|
            0 <= i < j < again.len() ==> entry_before(sort, #[trigger] again[i], #[trigger] again[j]) || (
            !entry_before(sort, again[j], again[i]) && perm[i] < perm[j]));
    let n = out.len() as int;
    assert forall|i: int, j: int| 0 <= i < j < n implies #[trigger] perm[i] < #[trigger] perm[j] by {
        if entry_before(sort, again[i], again[j]) {
            if perm[j] < perm[i] {
                assert(!entry_before(sort, out[perm[i]], out[perm[j]]));
            }
            assert(perm[i] != perm[j]);
        }
    }
    lemma_increasing_permutation_is_identity(perm, n);
    assert(again =~= out);
}

/// Scroll offset after keeping the selection inside the viewport.
pub open spec fn scroll_adjusted(sel: Option<usize>, scroll: usize, vh: usize) -> usize {
    match sel {
        Some(s) => if s < scroll {
            s
        } else if s >= scroll + vh {
            (s - (vh - 1)) as usize
        } else {
            scroll
        },
        None => scroll,
    }
}

/// Adjusting the scroll offset keeps the selection visible: afterwards the
/// selected row lies within the viewport, whenever the viewport has a row.
pub proof fn law_scroll_keeps_selection_visible(s: usize, scroll: usize, vh: usize)
    requires
        vh > 0,
        scroll + vh <= usize::MAX,
    ensures
        scroll_adjusted(Some(s), scroll, vh) <= s < scroll_adjusted(Some(s), scroll, vh) + vh,
{
}

/// Keeping the selection visible is defined: the offset arithmetic would
/// overflow when the viewport is empty and the selection lies at or below
/// the offset.
pub open spec fn scroll_adjust_defined(sel: Option<usize>, scroll: usize, vh: usize) -> bool {
    match sel {
        Some(s) => s < scroll || (scroll + vh <= usize::MAX && (s < scroll + vh || vh > 0)),
        None => true,
    }
}

/// The selection one row up, when there is a row above.
pub open spec fn up_target(sel: Option<usize>) -> Option<usize> {
    match sel {
        Some(s) => if s > 0 {
            Some((s - 1) as usize)
        } else {
            None
        },
        None => None,
    }
}

/// The selection one row down, when there is a row below.
pub open spec fn down_target(sel: Option<usize>, len: nat) -> Option<usize> {
    match sel {
        Some(s) => if s + 1 < len {
            Some((s + 1) as usize)
        } else {
            None
        },
        None => None,
    }
}

/// The selection a page up: the viewport's height higher, at most the first row.
pub open spec fn page_up_target(s: usize, vh: usize) -> usize {
    (if s >= vh { s - vh } else { 0 }) as usize
}

/// The selection a page down: the viewport's height lower, at most the last row.
pub open spec fn page_down_target(s: usize, vh: usize, len: nat) -> usize {
    (if s + vh < len - 1 { s + vh } else { len - 1 }) as usize
}

/// Every move of the selection keeps a selection that lies within the
/// entries within them.
pub proof fn law_moves_keep_selection_in_range(len: nat, s: usize, vh: usize)
    requires
        s < len <= usize::MAX,
    ensures
        up_target(Some(s)) is Some ==> up_target(Some(s))->0 < len,
        down_target(Some(s), len) is Some ==> down_target(Some(s), len)->0 < len,
        page_up_target(s, vh) < len,
        s + vh <= usize::MAX ==> page_down_target(s, vh, len) < len,
        ((len - 1) as usize) < len,
{
}

/// Paging moves the selection by exactly one viewport height: down to row
/// `s + vh` while that lies before the last row, otherwise to the last row;
/// up to row `s - vh`, or to the first row when fewer rows lie above.
pub proof fn law_page_moves_by_viewport(s: usize, vh: usize, len: nat)
    requires
        len > 0,
        s + vh <= usize::MAX,
    ensures
        s + vh < len - 1 ==> page_down_target(s, vh, len) == s + vh,
        s + vh >= len - 1 ==> page_down_target(s, vh, len) == len - 1,
        s < len ==> page_down_target(s, vh, len) >= s,
        s >= vh ==> page_up_target(s, vh) == s - vh,
        s < vh ==> page_up_target(s, vh) == 0,
{
}

/// `new` is `old` with row `ns` selected, the offset adjusted to keep it
/// visible, and the table selecting the row relative to the offset.
pub open spec fn moved_selection(old: PaneState, new: PaneState, ns: usize) -> bool {
    let sc = scroll_adjusted(Some(ns), old.scroll_offset, old.viewport_height);
    &&& new == (PaneState {
        selected: Some(ns),
        scroll_offset: sc,
        table_state: new.table_state,
        ..old
    })
    &&& table_selected(new.table_state) == Some((ns - sc) as usize)
}

/// Single pane state (e.g., for dual/multi-pane UI)
#[derive(Debug, Clone)]
pub struct PaneState {
    /// The working directory for this pane.
    pub cwd: PathBuf,
    /// The directory contents.
    pub entries: Vec<SortableEntry>,
    /// Selected index in entries.
    pub selected: Option<usize>,
    /// Focused (previewed) entry.
    pub focused: Option<ObjectId>,
    /// True if loading, disables UI actions.
    pub is_loading: bool,
    /// Last error for this pane, if any.
    pub last_error: Option<String>,
    /// Applied sort mode for entries.
    pub sort: EntrySort,
    /// Active filter mode.
    pub filter: EntryFilter,
    /// Table state for the table widget (selection, scroll).
    pub table_state: TableState,
    /// Virtual scrolling offset (first visible row)
    pub scroll_offset: usize,
    /// Number of visible rows in the viewport
    pub viewport_height: usize,
    /// Incremental loading state
    pub incremental_entries: Vec<SortableEntry>,
    /// Whether we're currently in incremental loading mode
    pub is_incremental_loading: bool,
    /// Total expected entries (if known)
    pub expected_entries: Option<usize>,
}

/// The rank by which entries are ordered under a (non-custom) sort mode.
spec fn rank(sort: EntrySort, e: SortableEntry) -> int {
    match sort {
        EntrySort::NameAsc => (if e.is_dir {
            0int
        } else {
            0x1_0000_0000int
        }) + e.sort_name_hash,
        EntrySort::NameDesc => (if e.is_dir {
            0int
        } else {
            0x1_0000_0000int
        }) + (0xffff_ffffint - e.sort_name_hash),
        EntrySort::SizeAsc => e.size as int,
        EntrySort::SizeDesc => u64::MAX - e.size,
        EntrySort::ModifiedAsc => e.modified as int,
        EntrySort::ModifiedDesc => u64::MAX - e.modified,
        EntrySort::Custom(_) => 0,
    }
}

proof fn lemma_rank_orders(sort: EntrySort, a: SortableEntry, b: SortableEntry)
    ensures
        entry_before(sort, a, b) <==> rank(sort, a) < rank(sort, b),
{
}

fn entry_rank(sort: &EntrySort, e: &SortableEntry) -> (r: u64)
    ensures
        r as int == rank(*sort, *e),
{
    let base: u64 = if e.is_dir {
        0
    } else {
        0x1_0000_0000
    };
    match sort {
        EntrySort::NameAsc => base + e.sort_name_hash as u64,
        EntrySort::NameDesc => base + (0xffff_ffffu64 - e.sort_name_hash as u64),
        EntrySort::SizeAsc => e.size,
        EntrySort::SizeDesc => u64::MAX - e.size,
        EntrySort::ModifiedAsc => e.modified,
        EntrySort::ModifiedDesc => u64::MAX - e.modified,
        EntrySort::Custom(_) => 0,
    }
}

/// The sorted pairs are the keyed pairs, each at the position it names.
pub(crate) proof fn lemma_sorted_pairs_origin(keys: Seq<(u64, usize)>, sorted: Seq<(u64, usize)>)
    requires
        sorted.to_multiset() == keys.to_multiset(),
        sorted.len() == keys.len(),
        forall|k: int| 0 <= k < keys.len() ==> (#[trigger] keys[k]).1 == k,
    ensures
        forall|k: int|
            0 <= k < sorted.len() ==> (#[trigger] sorted[k]).1 < keys.len() && sorted[k]
                == keys[sorted[k].1 as int],
        forall|a: int, b: int|
            0 <= a < b < sorted.len() ==> (#[trigger] sorted[a]).1 != (#[trigger] sorted[b]).1,
{
    broadcast use vstd::seq_lib::group_to_multiset_ensures;

    assert forall|k: int| 0 <= k < sorted.len() implies (#[trigger] sorted[k]).1 < keys.len()
        && sorted[k] == keys[sorted[k].1 as int] by {
        assert(sorted.contains(sorted[k]));
        assert(sorted.to_multiset().count(sorted[k]) > 0);
        assert(keys.contains(sorted[k]));
        let i = choose|i: int| 0 <= i < keys.len() && keys[i] == sorted[k];
        assert(keys[i].1 == i);
    }
    assert(keys.no_duplicates()) by {
        assert forall|i: int, j: int|
            0 <= i < keys.len() && 0 <= j < keys.len() && i != j implies keys[i] != keys[j] by {
            assert(keys[i].1 == i);
            assert(keys[j].1 == j);
        }
    }
    keys.lemma_multiset_has_no_duplicates();
    sorted.lemma_multiset_has_no_duplicates_conv();
    assert forall|a: int, b: int| 0 <= a < b < sorted.len() implies (#[trigger] sorted[a]).1
        != (#[trigger] sorted[b]).1 by {
        if sorted[a].1 == sorted[b].1 {
            assert(sorted[a] == keys[sorted[a].1 as int]);
            assert(sorted[b] == keys[sorted[b].1 as int]);
        }
    }
}

impl PaneState {
    pub fn new(cwd: PathBuf) -> (r: Self)
        ensures
            r.cwd == cwd,
            r.entries@.len() == 0,
            r.selected == Some(0usize),
            r.focused.is_none(),
            !r.is_loading,
            r.last_error.is_none(),
            r.sort == EntrySort::NameAsc,
            r.filter == EntryFilter::All,
            table_selected(r.table_state) == None::<usize>,
            r.scroll_offset == 0,
            r.viewport_height == 20,
            r.incremental_entries@.len() == 0,
            !r.is_incremental_loading,
            r.expected_entries.is_none(),
    {
        PaneState {
            cwd,
            entries: Vec::new(),
            selected: Some(0),
            focused: None,
            is_loading: false,
            last_error: None,
            sort: EntrySort::NameAsc,
            filter: EntryFilter::All,
            table_state: table_state_new(),
            scroll_offset: 0,
            viewport_height: 20,
            incremental_entries: Vec::new(),
            is_incremental_loading: false,
            expected_entries: None,
        }
    }

    /// Update the entry list and reset selection for new directory.
    pub fn set_entries(&mut self, entries: Vec<SortableEntry>)
        ensures
            *final(self) == (PaneState {
                entries,
                selected: Some(0usize),
                table_state: final(self).table_state,
                ..*old(self)
            }),
            table_selected(final(self).table_state) == Some(0usize),
    {
        self.entries = entries;
        self.selected = Some(0);
        table_state_select(&mut self.table_state, Some(0));
    }

    /// Get currently selected entry (if any).
    pub fn selected_entry(&self) -> (r: Option<ObjectId>)
        ensures
            r == (match self.selected {
                Some(i) => if i < self.entries@.len() {
                    Some(self.entries@[i as int].id)
                } else {
                    None
                },
                None => None,
            }),
    {
        match self.selected {
            Some(i) => if i < self.entries.len() {
                Some(self.entries[i].id)
            } else {
                None
            },
            None => None,
        }
    }

    /// Update viewport height when terminal size changes
    pub fn set_viewport_height(&mut self, height: usize)
        requires
            scroll_adjust_defined(
                old(self).selected,
                old(self).scroll_offset,
                if height >= 3 {
                    (height - 3) as usize
                } else {
                    0
                },
            ),
        ensures
            final(self).viewport_height == (if height >= 3 {
                (height - 3) as usize
            } else {
                0
            }),
            *final(self) == (PaneState {
                viewport_height: final(self).viewport_height,
                scroll_offset: scroll_adjusted(
                    old(self).selected,
                    old(self).scroll_offset,
                    final(self).viewport_height,
                ),
                ..*old(self)
            }),
    {
        self.viewport_height = if height >= 3 {
            height - 3
        } else {
            0
        };
        self.adjust_scroll();
    }

    /// Get visible entries for virtual scrolling
    pub fn visible_entries(&self) -> (r: &[SortableEntry])
        requires
            self.scroll_offset + self.viewport_height <= usize::MAX,
        ensures
            ({
                let start = self.scroll_offset as int;
                let end = if start + self.viewport_height < self.entries@.len() {
                    start + self.viewport_height
                } else {
                    self.entries@.len() as int
                };
                r@ == if start >= end {
                    Seq::<SortableEntry>::empty()
                } else {
                    self.entries@.subrange(start, end)
                }
            }),
    {
        let start: usize = self.scroll_offset;
        let end: usize = if start + self.viewport_height < self.entries.len() {
            start + self.viewport_height
        } else {
            self.entries.len()
        };
        if start >= end || start >= self.entries.len() {
            &self.entries.as_slice()[0..0]
        } else {
            &self.entries.as_slice()[start..end]
        }
    }

    /// Move selection up and adjust scroll if needed
    pub fn move_selection_up(&mut self)
        requires
            match up_target(old(self).selected) {
                Some(ns) => scroll_adjust_defined(Some(ns), old(self).scroll_offset, old(self).viewport_height),
                None => true,
            },
        ensures
            match up_target(old(self).selected) {
                Some(ns) => moved_selection(*old(self), *final(self), ns),
                None => *final(self) == *old(self),
            },
    {
        if let Some(selected) = self.selected {
            if selected > 0 {
                self.selected = Some(selected - 1);
                self.adjust_scroll();
                let row = selected - 1 - self.scroll_offset;
                table_state_select(&mut self.table_state, Some(row));
            }
        }
    }

    /// Move selection down and adjust scroll if needed
    pub fn move_selection_down(&mut self)
        requires
            old(self).selected != Some(usize::MAX),
            match down_target(old(self).selected, old(self).entries@.len()) {
                Some(ns) => scroll_adjust_defined(Some(ns), old(self).scroll_offset, old(self).viewport_height),
                None => true,
            },
        ensures
            match down_target(old(self).selected, old(self).entries@.len()) {
                Some(ns) => moved_selection(*old(self), *final(self), ns),
                None => *final(self) == *old(self),
            },
    {
        if let Some(selected) = self.selected {
            if selected + 1 < self.entries.len() {
                self.selected = Some(selected + 1);
                self.adjust_scroll();
                let row = selected + 1 - self.scroll_offset;
                table_state_select(&mut self.table_state, Some(row));
            }
        }
    }

    /// Adjust scroll offset to keep selection visible
    fn adjust_scroll(&mut self)
        requires
            scroll_adjust_defined(old(self).selected, old(self).scroll_offset, old(self).viewport_height),
        ensures
            *final(self) == (PaneState {
                scroll_offset: scroll_adjusted(
                    old(self).selected,
                    old(self).scroll_offset,
                    old(self).viewport_height,
                ),
                ..*old(self)
            }),
            final(self).selected matches Some(s) ==> final(self).scroll_offset <= s,
    {
        if let Some(selected) = self.selected {
            if selected < self.scroll_offset {
                self.scroll_offset = selected;
            } else if selected >= self.scroll_offset + self.viewport_height {
                self.scroll_offset = selected - (self.viewport_height - 1);
            }
        }
    }

    /// Jump to top of list
    pub fn select_first(&mut self)
        ensures
            old(self).entries@.len() > 0 ==> {
                &&& *final(self) == (PaneState {
                    selected: Some(0usize),
                    scroll_offset: 0,
                    table_state: final(self).table_state,
                    ..*old(self)
                })
                &&& table_selected(final(self).table_state) == Some(0usize)
            },
            old(self).entries@.len() == 0 ==> *final(self) == *old(self),
    {
        if self.entries.len() > 0 {
            self.selected = Some(0);
            self.scroll_offset = 0;
            table_state_select(&mut self.table_state, Some(0));
        }
    }

    /// Jump to bottom of list
    pub fn select_last(&mut self)
        requires
            old(self).entries@.len() > 0 ==> old(self).viewport_height > 0,
        ensures
            old(self).entries@.len() > 0 ==> {
                let last = (old(self).entries@.len() - 1) as usize;
                let sc = if last >= old(self).viewport_height - 1 {
                    (last - (old(self).viewport_height - 1)) as usize
                } else {
                    0usize
                };
                &&& *final(self) == (PaneState {
                    selected: Some(last),
                    scroll_offset: sc,
                    table_state: final(self).table_state,
                    ..*old(self)
                })
                &&& table_selected(final(self).table_state) == Some((last - sc) as usize)
            },
            old(self).entries@.len() == 0 ==> *final(self) == *old(self),
    {
        if self.entries.len() > 0 {
            let last_idx = self.entries.len() - 1;
            self.selected = Some(last_idx);
            let back = self.viewport_height - 1;
            self.scroll_offset = if last_idx >= back {
                last_idx - back
            } else {
                0
            };
            table_state_select(&mut self.table_state, Some(last_idx - self.scroll_offset));
        }
    }

    /// Page up (move selection up by viewport height)
    pub fn page_up(&mut self)
        requires
            old(self).selected matches Some(s) ==> scroll_adjust_defined(
                Some(
                    (if s >= old(self).viewport_height {
                        s - old(self).viewport_height
                    } else {
                        0
                    }) as usize,
                ),
                old(self).scroll_offset,
                old(self).viewport_height,
            ),
        ensures
            old(self).selected matches Some(s) ==> {
                moved_selection(*old(self), *final(self), page_up_target(s, old(self).viewport_height))
            },
            old(self).selected is None ==> *final(self) == *old(self),
    {
        if let Some(selected) = self.selected {
            let new_selected: usize = if selected >= self.viewport_height {
                selected - self.viewport_height
            } else {
                0
            };
            self.selected = Some(new_selected);
            self.adjust_scroll();
            table_state_select(&mut self.table_state, Some(new_selected - self.scroll_offset));
        }
    }

    /// Page down (move selection down by viewport height)
    pub fn page_down(&mut self)
        requires
            old(self).selected matches Some(s) ==> {
                &&& s + old(self).viewport_height <= usize::MAX
                &&& old(self).entries@.len() > 0
                &&& scroll_adjust_defined(
                    Some(page_down_target(s, old(self).viewport_height, old(self).entries@.len())),
                    old(self).scroll_offset,
                    old(self).viewport_height,
                )
            },
        ensures
            old(self).selected matches Some(s) ==> {
                moved_selection(
                    *old(self),
                    *final(self),
                    page_down_target(s, old(self).viewport_height, old(self).entries@.len()),
                )
            },
            old(self).selected matches Some(s) ==> (s + old(self).viewport_height < old(self).entries@.len() - 1
                ==> final(self).selected == Some((s + old(self).viewport_height) as usize)),
            old(self).selected matches Some(s) ==> (s + old(self).viewport_height >= old(self).entries@.len() - 1
                ==> final(self).selected == Some((old(self).entries@.len() - 1) as usize)),
            old(self).selected is None ==> *final(self) == *old(self),
    {
        proof {
            if let Some(s) = old(self).selected {
                law_page_moves_by_viewport(s, old(self).viewport_height, old(self).entries@.len());
            }
        }
        if let Some(selected) = self.selected {
            let sum = selected + self.viewport_height;
            let last = self.entries.len() - 1;
            let new_selected: usize = if sum < last {
                sum
            } else {
                last
            };
            self.selected = Some(new_selected);
            self.adjust_scroll();
            table_state_select(&mut self.table_state, Some(new_selected - self.scroll_offset));
        }
    }

    /// Start incremental loading mode
    pub fn start_incremental_loading(&mut self)
        ensures
            *final(self) == (PaneState {
                is_incremental_loading: true,
                incremental_entries: final(self).incremental_entries,
                expected_entries: None,
                is_loading: true,
                ..*old(self)
            }),
            final(self).incremental_entries@.len() == 0,
    {
        self.is_incremental_loading = true;
        self.incremental_entries = Vec::new();
        self.expected_entries = None;
        self.is_loading = true;
    }

    /// Adds an entry while incremental loading is on; otherwise ignores it.
    pub fn add_incremental_entry(&mut self, entry: SortableEntry)
        ensures
            old(self).is_incremental_loading ==> *final(self) == (PaneState {
                incremental_entries: final(self).incremental_entries,
                ..*old(self)
            }) && final(self).incremental_entries@ == old(self).incremental_entries@.push(entry),
            !old(self).is_incremental_loading ==> *final(self) == *old(self),
    {
        if !self.is_incremental_loading {
            return ;
        }
        self.incremental_entries.push(entry);
    }

    /// Complete incremental loading with final sorted entries
    pub fn complete_incremental_loading(&mut self, final_entries: Vec<SortableEntry>)
        ensures
            final(self).is_incremental_loading == false,
            final(self).is_loading == false,
            final(self).entries == final_entries,
            final(self).incremental_entries@.len() == 0,
            final_entries@.len() > 0 ==> final(self).selected == Some(0usize) && final(self).scroll_offset == 0 && table_selected(final(self).table_state) == Some(0usize),
            final_entries@.len() == 0 ==> final(self).selected == old(self).selected && final(self).scroll_offset == old(self).scroll_offset && final(self).table_state == old(self).table_state,
            final(self).cwd == old(self).cwd,
            final(self).focused == old(self).focused,
            final(self).last_error == old(self).last_error,
            final(self).sort == old(self).sort,
            final(self).filter == old(self).filter,
            final(self).viewport_height == old(self).viewport_height,
            final(self).expected_entries == old(self).expected_entries,
    {
        self.is_incremental_loading = false;
        self.is_loading = false;
        let nonempty = final_entries.len() > 0;
        self.entries = final_entries;
        self.incremental_entries = Vec::new();
        if nonempty {
            self.selected = Some(0);
            self.scroll_offset = 0;
            table_state_select(&mut self.table_state, Some(0));
        }
    }

    /// Sort entries in place based on current sort mode; the sort is stable,
    /// and `Custom` keeps the current order.
    pub fn sort_entries(&mut self)
        ensures
            is_stable_sort(final(self).entries@, old(self).entries@, old(self).sort),
            (old(self).sort matches EntrySort::Custom(_)) ==> final(self).entries@ == old(self).entries@,
            *final(self) == (PaneState { entries: final(self).entries, ..*old(self) }),
    {
        if let EntrySort::Custom(_) = self.sort {
            proof {
                let perm = Seq::new(self.entries@.len(), |i: int| i);
                assert(is_index_permutation(perm, self.entries@.len() as int));
            }
            return ;
        }
        let n = self.entries.len();
        let mut keys: Vec<(u64, usize)> = Vec::new();
        let mut i: usize = 0;
        while i < n
            invariant
                n == self.entries.len(),
                i <= n,
                keys@.len() == i,
                forall|k: int|
                    0 <= k < i ==> (#[trigger] keys@[k]).1 == k && keys@[k].0 as int == rank(
                        self.sort,
                        self.entries@[k],
                    ),
            decreases n - i,
        {
            let r = entry_rank(&self.sort, &self.entries[i]);
            keys.push((r, i));
            i = i + 1;
        }
        let sorted = sort_pairs(keys.as_slice());
        proof {
            lemma_sorted_pairs_origin(keys@, sorted@);
        }
        let mut out: Vec<SortableEntry> = Vec::new();
        let mut k: usize = 0;
        while k < n
            invariant
                n == self.entries.len(),
                n == sorted@.len(),
                k <= n,
                out@.len() == k,
                forall|j: int|
                    0 <= j < n ==> (#[trigger] sorted@[j]).1 < n && sorted@[j] == keys@[sorted@[j].1 as int],
                forall|j: int| 0 <= j < k ==> #[trigger] out@[j] == self.entries@[sorted@[j].1 as int],
            decreases n - k,
        {
            let idx = sorted[k].1;
            out.push(self.entries[idx]);
            k = k + 1;
        }
        proof {
            let inp = self.entries@;
            let perm = Seq::new(n as nat, |j: int| sorted@[j].1 as int);
            assert(is_index_permutation(perm, n as int));
            assert forall|a: int, b: int| 0 <= a < b < out@.len() implies entry_before(
                self.sort,
                #[trigger] out@[a],
                #[trigger] out@[b],
            ) || (!entry_before(self.sort, out@[b], out@[a]) && perm[a] < perm[b]) by {
                assert(le_pair(sorted@[a], sorted@[b]));
                assert(sorted@[a].0 as int == rank(self.sort, out@[a]));
                assert(sorted@[b].0 as int == rank(self.sort, out@[b]));
                lemma_rank_orders(self.sort, out@[a], out@[b]);
                lemma_rank_orders(self.sort, out@[b], out@[a]);
            }
            assert(is_stable_sort(out@, inp, self.sort));
        }
        self.entries = out;
    }
}

/// Persistent filesystem state for the app/session.
#[derive(Debug)]
pub struct FSState {
    /// One or more open panes (for dual-pane, etc.).
    pub panes: Vec<PaneState>,
    /// Which pane is currently focused.
    pub active_pane: usize,
    /// Batch operation progress (for power-user bulk actions).
    pub batch_op_status: Option<String>,
    /// Recently visited directories, oldest first.
    pub recent_dirs: VecDeque<Arc<PathBuf>>,
    /// Favourite directories.
    pub favorite_dirs: HashSet<Arc<PathBuf>>,
}

/// How many recent directories are remembered.
pub const MAX_RECENT_DIRS: usize = 32;

/// The recent directories after visiting `path`: it is appended, and the
/// oldest is dropped when the list was full.
pub open spec fn recent_after_visit(recent: Seq<Arc<PathBuf>>, path: Arc<PathBuf>) -> Seq<Arc<PathBuf>> {
    if recent.len() == MAX_RECENT_DIRS {
        recent.drop_first().push(path)
    } else {
        recent.push(path)
    }
}

/// The list of recent directories never grows past its bound, and the
/// directory just visited is always the newest entry.
pub proof fn law_recent_dirs_bounded(recent: Seq<Arc<PathBuf>>, path: Arc<PathBuf>)
    requires
        recent.len() <= MAX_RECENT_DIRS,
    ensures
        recent_after_visit(recent, path).len() <= MAX_RECENT_DIRS,
        recent_after_visit(recent, path).last() == path,
{
}

impl FSState {
    /// Construct FS state with one pane in the given directory.
    pub fn new(cwd: PathBuf) -> (r: Self)
        ensures
            r.panes@.len() == 1,
            r.panes@[0].cwd == cwd,
            r.panes@[0].entries@.len() == 0,
            r.panes@[0].selected == Some(0usize),
            r.active_pane == 0,
            r.batch_op_status.is_none(),
            r.recent_dirs@.len() == 0,
            r.favorite_dirs@ == Set::<Arc<PathBuf>>::empty(),
    {
        let mut panes: Vec<PaneState> = Vec::new();
        panes.push(PaneState::new(cwd));
        FSState {
            panes,
            active_pane: 0,
            batch_op_status: None,
            recent_dirs: VecDeque::with_capacity(32),
            favorite_dirs: HashSet::new(),
        }
    }

    /// The currently active pane, for changing it.
    pub fn active_pane_mut(&mut self) -> (r: &mut PaneState)
        requires
            old(self).active_pane < old(self).panes@.len(),
        ensures
            *r == old(self).panes@[old(self).active_pane as int],
            final(self).panes@ == old(self).panes@.update(old(self).active_pane as int, *final(r)),
            final(self).active_pane == old(self).active_pane,
            final(self).batch_op_status == old(self).batch_op_status,
            final(self).recent_dirs == old(self).recent_dirs,
            final(self).favorite_dirs == old(self).favorite_dirs,
    {
        let i = self.active_pane;
        &mut self.panes[i]
    }

    /// Get the currently active pane.
    pub fn active_pane(&self) -> (r: &PaneState)
        requires
            self.active_pane < self.panes@.len(),
        ensures
            *r == self.panes@[self.active_pane as int],
    {
        &self.panes[self.active_pane]
    }

    /// Switch focus to a different pane; an index past the last pane is ignored.
    pub fn set_active_pane(&mut self, idx: usize)
        ensures
            final(self).active_pane == (if idx < old(self).panes@.len() {
                idx
            } else {
                old(self).active_pane
            }),
            final(self).panes == old(self).panes,
            final(self).batch_op_status == old(self).batch_op_status,
            final(self).recent_dirs == old(self).recent_dirs,
            final(self).favorite_dirs == old(self).favorite_dirs,
    {
        if idx < self.panes.len() {
            self.active_pane = idx;
        }
    }

    /// Add a path to recents (evicts the oldest when 32 are held).
    pub fn add_recent_dir(&mut self, path: Arc<PathBuf>)
        ensures
            final(self).recent_dirs@ == recent_after_visit(old(self).recent_dirs@, path),
            final(self).panes == old(self).panes,
            final(self).active_pane == old(self).active_pane,
            final(self).batch_op_status == old(self).batch_op_status,
            final(self).favorite_dirs == old(self).favorite_dirs,
    {
        if self.recent_dirs.len() == MAX_RECENT_DIRS {
            let _ = self.recent_dirs.pop_front();
        }
        self.recent_dirs.push_back(path);
    }

    /// Marks a directory as favourite.
    pub fn add_favorite(&mut self, path: Arc<PathBuf>)
        ensures
            vstd::std_specs::hash::obeys_key_model::<Arc<PathBuf>>()
                ==> final(self).favorite_dirs@ == old(self).favorite_dirs@.insert(path),
            final(self).panes == old(self).panes,
            final(self).active_pane == old(self).active_pane,
            final(self).batch_op_status == old(self).batch_op_status,
            final(self).recent_dirs == old(self).recent_dirs,
    {
        let _ = self.favorite_dirs.insert(path);
    }

    /// Removes a directory from the favourites.
    pub fn remove_favorite(&mut self, path: &Arc<PathBuf>)
        ensures
            vstd::std_specs::hash::obeys_key_model::<Arc<PathBuf>>()
                ==> final(self).favorite_dirs@ == old(self).favorite_dirs@.remove(*path),
            final(self).panes == old(self).panes,
            final(self).active_pane == old(self).active_pane,
            final(self).batch_op_status == old(self).batch_op_status,
            final(self).recent_dirs == old(self).recent_dirs,
    {
        let _ = self.favorite_dirs.remove(path);
    }
}

impl Default for FSState {
    fn default() -> (r: Self)
        ensures
            r.panes@.len() == 1,
            r.panes@[0].cwd == crate::paths::pathbuf_from("."@),
            r.active_pane == 0,
            r.recent_dirs@.len() == 0,
    {
        Self::new(pathbuf_from_str("."))
    }
}

} // verus!
