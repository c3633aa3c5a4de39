//! UI-level enums, notifications and the clipboard search cursor.
use vstd::prelude::*;
use std::time::Instant;
use crate::debounce::{duration_as_nanos, duration_nanos, instant_duration_since, instant_elapsed, instant_now};

verus! {

/* ========================= Redraw flags ============================= */

/// Regions of the screen that may be marked for redraw; each is one bit of
/// a redraw mask, and `All` covers the four of them.
#[derive(Clone, Copy, Debug, PartialEq, Eq)]
pub enum RedrawFlag {
    Main,
    StatusBar,
    Overlay,
    Notification,
    All,
}

impl RedrawFlag {
    pub open spec fn bits_spec(self) -> u8 {
        match self {
            RedrawFlag::Main => 1,
            RedrawFlag::StatusBar => 2,
            RedrawFlag::Overlay => 4,
            RedrawFlag::Notification => 8,
            RedrawFlag::All => 15,
        }
    }

    /// The flag's bit in the redraw mask.
    pub fn bits(self) -> (r: u8)
        ensures
            r == self.bits_spec(),
    {
        match self {
            RedrawFlag::Main => 1,
            RedrawFlag::StatusBar => 2,
            RedrawFlag::Overlay => 4,
            RedrawFlag::Notification => 8,
            RedrawFlag::All => 15,
        }
    }
}

/// The bits of the four single regions are distinct powers of two, and
/// `All` is exactly their union.
pub proof fn law_redraw_bits_partition()
    ensures
        RedrawFlag::Main.bits_spec() & RedrawFlag::StatusBar.bits_spec() == 0,
        RedrawFlag::Main.bits_spec() & RedrawFlag::Overlay.bits_spec() == 0,
        RedrawFlag::Main.bits_spec() & RedrawFlag::Notification.bits_spec() == 0,
        RedrawFlag::StatusBar.bits_spec() & RedrawFlag::Overlay.bits_spec() == 0,
        RedrawFlag::StatusBar.bits_spec() & RedrawFlag::Notification.bits_spec() == 0,
        RedrawFlag::Overlay.bits_spec() & RedrawFlag::Notification.bits_spec() == 0,
        RedrawFlag::All.bits_spec() == (RedrawFlag::Main.bits_spec() | RedrawFlag::StatusBar.bits_spec()
            | RedrawFlag::Overlay.bits_spec() | RedrawFlag::Notification.bits_spec()),
{
    assert(1u8 & 2u8 == 0) by (bit_vector);
    assert(1u8 & 4u8 == 0) by (bit_vector);
    assert(1u8 & 8u8 == 0) by (bit_vector);
    assert(2u8 & 4u8 == 0) by (bit_vector);
    assert(2u8 & 8u8 == 0) by (bit_vector);
    assert(4u8 & 8u8 == 0) by (bit_vector);
    assert(15u8 == (1u8 | 2u8 | 4u8 | 8u8)) by (bit_vector);
}

/* ========================= Modes and overlays ======================== */

/// The input mode of the user interface.
#[derive(Clone, Copy, Debug, PartialEq, Eq)]
pub enum UIMode {
    Browse,
    Search,
    Command,
    Visual,
    ClipboardMultiSelect,
    ClipboardSearch,
}

impl Default for UIMode {
    fn default() -> (r: Self)
        ensures
            r == UIMode::Browse,
    {
        UIMode::Browse
    }
}

/// Which overlay, if any, is drawn above the main view.
#[derive(Clone, Copy, Debug, Hash, PartialEq, Eq)]
pub enum UIOverlay {
    NoOverlay,
    Help,
    FileNameSearch,
    ContentSearch,
    SearchResults,
    Prompt,
    Loading,
    Search,
    SystemMonitor,
    ClipBoard,
    ClipboardSearch,
    ClipboardStats,
    ClipboardBatchOperation,
}

impl Default for UIOverlay {
    fn default() -> (r: Self)
        ensures
            r == UIOverlay::NoOverlay,
    {
        UIOverlay::NoOverlay
    }
}

/// Severity of a notification.
#[derive(Clone, Copy, Debug, PartialEq, Eq)]
pub enum NotificationLevel {
    Info,
    Success,
    Warning,
    Error,
}

/// A message shown to the user, possibly dismissed after some milliseconds.
#[derive(Clone, Debug)]
pub struct Notification {
    pub message: String,
    pub level: NotificationLevel,
    pub timestamp: Instant,
    pub auto_dismiss_ms: Option<u32>,
}

/// Whether a notification has outlived its auto-dismiss delay at `now`:
/// more whole milliseconds have passed since it was shown than the delay.
/// A notification without a delay stays.
pub open spec fn notification_expired(n: Notification, now: Instant) -> bool {
    match n.auto_dismiss_ms {
        Some(ms) => duration_as_nanos(instant_elapsed(now, n.timestamp)) / 1_000_000 > ms as u128,
        None => false,
    }
}

impl Notification {
    /// A notification shown at `timestamp`.
    pub fn new(message: String, level: NotificationLevel, timestamp: Instant, auto_dismiss_ms: Option<u32>) -> (r: Self)
        ensures
            r.message == message,
            r.level == level,
            r.timestamp == timestamp,
            r.auto_dismiss_ms == auto_dismiss_ms,
    {
        Notification { message, level, timestamp, auto_dismiss_ms }
    }

    /// Whether the notification is to be dismissed at `now`.
    pub fn expired_at(&self, now: &Instant) -> (r: bool)
        ensures
            r == notification_expired(*self, *now),
    {
        match self.auto_dismiss_ms {
            Some(ms) => {
                let elapsed = instant_duration_since(now, &self.timestamp);
                duration_nanos(&elapsed) / 1_000_000 > ms as u128
            },
            None => false,
        }
    }
}

/// Dismisses the shown notification once it has expired at `now`; tells
/// whether it did.
pub fn poll_notification(notification: &mut Option<Notification>, now: &Instant) -> (dismissed: bool)
    ensures
        dismissed == (*old(notification) matches Some(n) && notification_expired(n, *now)),
        dismissed ==> *final(notification) is None,
        !dismissed ==> *final(notification) == *old(notification),
{
    let expired = match notification {
        Some(n) => n.expired_at(now),
        None => false,
    };
    if expired {
        *notification = None;
    }
    expired
}

/* ===================== Clipboard search cursor ======================= */

/// The state of a search over clipboard items: the pattern, the ids of the
/// matching items and which of them is selected.
#[derive(Clone, Debug)]
pub struct ClipboardSearchState {
    pub pattern: String,
    pub results: Vec<u64>,
    pub selected_result_idx: usize,
    pub search_started_at: Instant,
    pub search_duration_us: u64,
    pub use_simd: bool,
    pub case_sensitive: bool,
    pub regex_mode: bool,
}

/// The selection after moving to the next of `len` results.
pub open spec fn next_result_index(len: nat, idx: usize) -> usize {
    if len > 0 && idx + 1 < len {
        (idx + 1) as usize
    } else {
        idx
    }
}

/// The selection after moving to the previous result.
pub open spec fn prev_result_index(idx: usize) -> usize {
    if idx > 0 {
        (idx - 1) as usize
    } else {
        0
    }
}

impl ClipboardSearchState {
    /// A fresh search: empty pattern, no results, acceleration on, case
    /// insensitive, plain text matching, started now.
    pub fn default_state() -> (r: Self)
        ensures
            r.pattern@ == Seq::<char>::empty(),
            r.results@ == Seq::<u64>::empty(),
            r.selected_result_idx == 0,
            r.search_duration_us == 0,
            r.use_simd,
            !r.case_sensitive,
            !r.regex_mode,
    {
        ClipboardSearchState {
            pattern: String::new(),
            results: Vec::new(),
            selected_result_idx: 0,
            search_started_at: instant_now(),
            search_duration_us: 0,
            use_simd: true,
            case_sensitive: false,
            regex_mode: false,
        }
    }

    /// Forget the pattern and the results.
    pub fn clear(&mut self)
        ensures
            final(self).pattern@ == Seq::<char>::empty(),
            final(self).results@ == Seq::<u64>::empty(),
            final(self).selected_result_idx == 0,
            final(self).search_duration_us == 0,
            final(self).search_started_at == old(self).search_started_at,
            final(self).use_simd == old(self).use_simd,
            final(self).case_sensitive == old(self).case_sensitive,
            final(self).regex_mode == old(self).regex_mode,
    {
        self.pattern = String::new();
        self.results = Vec::new();
        self.selected_result_idx = 0;
        self.search_duration_us = 0;
    }

    /// Install the results of a finished search and select the first one.
    pub fn set_results(&mut self, results: Vec<u64>, duration_us: u64)
        ensures
            final(self).results@ == results@,
            final(self).selected_result_idx == 0,
            final(self).search_duration_us == duration_us,
            final(self).pattern@ == old(self).pattern@,
            final(self).search_started_at == old(self).search_started_at,
            final(self).use_simd == old(self).use_simd,
            final(self).case_sensitive == old(self).case_sensitive,
            final(self).regex_mode == old(self).regex_mode,
    {
        self.results = results;
        self.selected_result_idx = 0;
        self.search_duration_us = duration_us;
    }

    /// Select the next result; stays on the last one.
    pub fn next_result(&mut self)
        ensures
            final(self).selected_result_idx == next_result_index(
                old(self).results@.len(),
                old(self).selected_result_idx,
            ),
            final(self).results@ == old(self).results@,
            final(self).pattern@ == old(self).pattern@,
            final(self).search_duration_us == old(self).search_duration_us,
    {
        if self.results.len() > 0 && self.selected_result_idx < self.results.len() - 1 {
            self.selected_result_idx = self.selected_result_idx + 1;
        }
    }

    /// Select the previous result; stays on the first one.
    pub fn prev_result(&mut self)
        ensures
            final(self).selected_result_idx == prev_result_index(old(self).selected_result_idx),
            final(self).results@ == old(self).results@,
            final(self).pattern@ == old(self).pattern@,
            final(self).search_duration_us == old(self).search_duration_us,
    {
        if self.selected_result_idx > 0 {
            self.selected_result_idx = self.selected_result_idx - 1;
        }
    }

    /// The id of the selected result, if the selection is within the results.
    pub fn selected_item_id(&self) -> (r: Option<u64>)
        ensures
            r == (if self.selected_result_idx < self.results@.len() {
                Some(self.results@[self.selected_result_idx as int])
            } else {
                None
            }),
    {
        if self.selected_result_idx < self.results.len() {
            Some(self.results[self.selected_result_idx])
        } else {
            None
        }
    }
}

impl Default for ClipboardSearchState {
    fn default() -> (r: Self)
        ensures
            r.pattern@ == Seq::<char>::empty(),
            r.results@ == Seq::<u64>::empty(),
            r.selected_result_idx == 0,
            r.search_duration_us == 0,
            r.use_simd,
            !r.case_sensitive,
            !r.regex_mode,
    {
        ClipboardSearchState::default_state()
    }
}

/// Moving to the next result and back returns to the same result whenever
/// a next result exists; moving back and forth again does the same whenever
/// a previous result exists.
pub proof fn law_result_moves_undo(len: nat, idx: usize)
    requires
        len <= usize::MAX,
    ensures
        idx + 1 < len ==> prev_result_index(next_result_index(len, idx)) == idx,
        0 < idx < len ==> next_result_index(len, prev_result_index(idx)) == idx,
{
}

} // verus!
