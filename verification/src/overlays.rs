//! The computing parts of the screen components: texts, sizes and the
//! small state some overlays keep. Drawing itself is done by the caller.
use vstd::prelude::*;
use std::path::PathBuf;
use std::time::Instant;
use crate::debounce::{
    duration_as_nanos, duration_secs, instant_elapsed, instant_duration_since, instant_is_later,
    instant_later_than, instant_now,
};
use crate::humanize::{throughput_spec, throughput_text};
use crate::text::{append_chars, append_str, chars_of, push_decimal, string_of, decimal};
use crate::ui_state::NotificationLevel;
use crate::file_ops::{path_display, path_display_text};

verus! {

/* ========================= Path texts ================================ */

/// What `Path::to_string_lossy` gives for a path. Named: the platform's path
/// encoding is not modelled.
pub uninterp spec fn path_lossy(p: PathBuf) -> Seq<char>;

/// Calls `Path::to_string_lossy` and keeps the text.
#[verifier::external_body]
pub(crate) fn path_lossy_text(p: &PathBuf) -> (r: String)
    ensures
        r@ == path_lossy(*p),
{
    p.to_string_lossy().into_owned()
}

/// What `Path::strip_prefix` gives: the rest of `p` below `base`, or nothing
/// when `base` is not a prefix of `p`.
pub uninterp spec fn path_below(p: PathBuf, base: PathBuf) -> Option<PathBuf>;

/// Calls `Path::strip_prefix`, keeping the remainder when there is one.
#[verifier::external_body]
pub(crate) fn path_strip_prefix(p: &PathBuf, base: &PathBuf) -> (r: Option<PathBuf>)
    ensures
        r == path_below(*p, *base),
{
    match p.strip_prefix(base) {
        Ok(rest) => Some(rest.to_path_buf()),
        Err(_) => None,
    }
}

/* ===================== File operations overlay ======================= */

/// The estimated remaining time, given the clock's reading `now`.
pub open spec fn eta_spec(eta: Option<Instant>, now: Instant) -> Seq<char> {
    match eta {
        None => "Calculating..."@,
        Some(t) => if instant_later_than(t, now) {
            decimal(duration_as_nanos(instant_elapsed(t, now)) as nat / 1_000_000_000)
                + "s remaining"@
        } else {
            "Finishing..."@
        },
    }
}

/// The UTF-8 length of a text.
pub open spec fn byte_len(s: Seq<char>) -> nat {
    vstd::utf8::encode_utf8(s).len()
}

/// Where `truncate_text` cuts a text longer than `max_len` bytes.
pub open spec fn cut_start(s: Seq<char>, max_len: usize) -> int {
    byte_len(s) - max_len + 3
}

/// Whether `truncate_text` can cut the text: it is short enough to stay
/// whole, or its last `max_len - 3` bytes start at a character boundary.
pub open spec fn truncatable(s: Seq<char>, max_len: usize) -> bool {
    byte_len(s) <= max_len || vstd::utf8::is_char_boundary(vstd::utf8::encode_utf8(s), cut_start(s, max_len))
}

/// A text of at most `max_len` bytes stays whole; a longer one becomes
/// `...` followed by its last `max_len - 3` bytes.
pub open spec fn truncate_spec(s: Seq<char>, max_len: usize) -> Seq<char> {
    if byte_len(s) <= max_len {
        s
    } else {
        "..."@ + vstd::utf8::decode_utf8(vstd::utf8::encode_utf8(s).subrange(cut_start(s, max_len), byte_len(s) as int))
    }
}

proof fn lemma_boundary_within(s: Seq<char>, idx: int)
    ensures
        vstd::utf8::is_char_boundary(vstd::utf8::encode_utf8(s), idx) ==> 0 <= idx <= byte_len(s),
{
    vstd::utf8::encode_utf8_valid_utf8(s);
}

proof fn lemma_encode_concat(a: Seq<char>, b: Seq<char>)
    ensures
        vstd::utf8::encode_utf8(a + b) == vstd::utf8::encode_utf8(a) + vstd::utf8::encode_utf8(b),
    decreases a.len(),
{
    if a.len() > 0 {
        lemma_encode_concat(a.drop_first(), b);
        assert((a + b).drop_first() =~= a.drop_first() + b);
        assert((a + b)[0] == a[0]);
        assert(vstd::utf8::encode_utf8(a + b) =~= vstd::utf8::encode_utf8(a) + vstd::utf8::encode_utf8(b));
    } else {
        assert(a + b =~= b);
        assert(vstd::utf8::encode_utf8(a) =~= Seq::<u8>::empty());
        assert(vstd::utf8::encode_utf8(a) + vstd::utf8::encode_utf8(b) =~= vstd::utf8::encode_utf8(b));
    }
}

/// A truncated text never takes more than `max_len` bytes: a text that is
/// cut takes exactly `max_len`, its marker included.
pub proof fn law_truncation_fits(s: Seq<char>, max_len: usize)
    requires
        truncatable(s, max_len),
    ensures
        byte_len(truncate_spec(s, max_len)) <= max_len,
        byte_len(s) > max_len ==> byte_len(truncate_spec(s, max_len)) == max_len,
{
    if byte_len(s) > max_len {
        let b = vstd::utf8::encode_utf8(s);
        let start = cut_start(s, max_len);
        vstd::utf8::encode_utf8_valid_utf8(s);
        lemma_boundary_within(s, start);
        vstd::utf8::valid_utf8_split(b, start);
        let sub = b.subrange(start, b.len() as int);
        vstd::utf8::decode_utf8_encode_utf8(sub);
        let tail = vstd::utf8::decode_utf8(sub);
        lemma_encode_concat("..."@, tail);
        reveal_strlit("...");
        assert("..."@ =~= seq!['.', '.', '.']);
        reveal_with_fuel(vstd::utf8::encode_utf8, 4);
        assert(vstd::utf8::encode_utf8("..."@).len() == 3);
    }
}

/// Progress bars for running file operations.
pub struct FileOperationsOverlay;

impl FileOperationsOverlay {
    /// A transfer rate such as `1.5MB/s`, or `Calculating...`.
    pub fn format_throughput(bps: Option<u64>) -> (r: String)
        ensures
            r@ == throughput_spec(bps),
    {
        throughput_text(bps)
    }

    /// The remaining time until `eta` as seen at `now`.
    pub fn eta_text_at(eta: Option<Instant>, now: Instant) -> (r: String)
        ensures
            r@ == eta_spec(eta, now),
    {
        match eta {
            None => string_of(chars_of("Calculating...").as_slice()),
            Some(t) => {
                if instant_is_later(&t, &now) {
                    let d = instant_duration_since(&t, &now);
                    let secs = duration_secs(&d);
                    let mut out: Vec<char> = Vec::new();
                    push_decimal(&mut out, secs);
                    append_str(&mut out, "s remaining");
                    string_of(out.as_slice())
                } else {
                    string_of(chars_of("Finishing...").as_slice())
                }
            },
        }
    }

    /// The remaining time until `eta`, as seen now.
    pub fn format_eta(eta: Option<Instant>) -> (r: String)
        ensures
            eta is None ==> r@ == "Calculating..."@,
            exists|now: Instant| r@ == eta_spec(eta, now),
    {
        let now = instant_now();
        Self::eta_text_at(eta, now)
    }

    /// A text cut from the front to at most `max_len` bytes, marked by `...`.
    pub fn truncate_text(text: &str, max_len: usize) -> (r: String)
        requires
            truncatable(text@, max_len),
        ensures
            r@ == truncate_spec(text@, max_len),
    {
        let n = text.as_bytes().len();
        if n <= max_len {
            return string_of(chars_of(text).as_slice());
        }
        proof {
            lemma_boundary_within(text@, cut_start(text@, max_len));
        }
        let start = n - max_len + 3;
        let (_, tail) = text.split_at(start);
        proof {
            vstd::utf8::encode_utf8_decode_utf8(tail@);
        }
        let mut out: Vec<char> = Vec::new();
        append_str(&mut out, "...");
        append_str(&mut out, tail);
        string_of(out.as_slice())
    }

    /// The text of a path, cut from the front to at most `max_len` bytes.
    pub fn truncate_path(path: &PathBuf, max_len: usize) -> (r: String)
        requires
            truncatable(path_lossy(*path), max_len),
        ensures
            r@ == truncate_spec(path_lossy(*path), max_len),
    {
        let text = path_lossy_text(path);
        Self::truncate_text(text.as_str(), max_len)
    }

    /// `truncate_path` where the cut is possible; `None` where the cut would
    /// fall inside a character or before the start of the text.
    pub fn truncate_path_checked(path: &PathBuf, max_len: usize) -> (r: Option<String>)
        ensures
            truncatable(path_lossy(*path), max_len) ==> r is Some && r->0@ == truncate_spec(
                path_lossy(*path),
                max_len,
            ),
            !truncatable(path_lossy(*path), max_len) ==> r is None,
    {
        let text = path_lossy_text(path);
        let s = text.as_str();
        let n = s.as_bytes().len();
        if n <= max_len {
            return Some(Self::truncate_text(s, max_len));
        }
        if n - max_len > usize::MAX - 3 {
            proof {
                lemma_boundary_within(path_lossy(*path), cut_start(path_lossy(*path), max_len));
            }
            return None;
        }
        let start = n - max_len + 3;
        if s.is_char_boundary(start) {
            Some(Self::truncate_text(s, max_len))
        } else {
            None
        }
    }
}

/// The rows of the file-operations overlay, one per operation, each at
/// least three lines high, sharing the area's height but its last line.
pub open spec fn op_height(area: crate::ui::ScreenArea, count: usize) -> u16 {
    let avail: int = if area.height >= 1 { area.height - 1 } else { 0 };
    let share: int = avail / ((count as u16) as int);
    if share >= 3 { share as u16 } else { 3 }
}

/// Whether the rows of `count` operations fit below the area's top.
pub open spec fn layout_fits(area: crate::ui::ScreenArea, count: usize) -> bool {
    &&& 0 < count <= u16::MAX
    &&& area.y + (count - 1) * op_height(area, count) <= u16::MAX
}

impl FileOperationsOverlay {
    /// The rows for `operation_count` operations.
    pub fn calculate_layout(area: crate::ui::ScreenArea, operation_count: usize) -> (r: Vec<crate::ui::ScreenArea>)
        requires
            layout_fits(area, operation_count),
        ensures
            r@.len() == operation_count,
            forall|i: int| 0 <= i < operation_count ==> #[trigger] r@[i] == (crate::ui::ScreenArea {
                x: area.x,
                y: (area.y + i * op_height(area, operation_count)) as u16,
                width: area.width,
                height: op_height(area, operation_count),
            }),
    {
        let available: u16 = area.height.saturating_sub(1);
        let per: u16 = available / (operation_count as u16);
        let h: u16 = if per >= 3 { per } else { 3 };
        let mut out: Vec<crate::ui::ScreenArea> = Vec::new();
        let mut i: usize = 0;
        while i < operation_count
            invariant
                i <= operation_count,
                layout_fits(area, operation_count),
                h == op_height(area, operation_count),
                out@.len() == i,
                forall|j: int| 0 <= j < i ==> #[trigger] out@[j] == (crate::ui::ScreenArea {
                    x: area.x,
                    y: (area.y + j * op_height(area, operation_count)) as u16,
                    width: area.width,
                    height: op_height(area, operation_count),
                }),
            decreases operation_count - i,
        {
            assert(i * h <= (operation_count - 1) * h) by (nonlinear_arith)
                requires
                    i <= operation_count - 1,
            ;
            let k: u16 = i as u16;
            let y: u16 = area.y + k * h;
            out.push(crate::ui::ScreenArea { x: area.x, y, width: area.width, height: h });
            i = i + 1;
        }
        out
    }

    /// The line below the last row, where the cancel hint is shown.
    pub fn cancel_instruction_area(areas: &[crate::ui::ScreenArea]) -> (r: Option<crate::ui::ScreenArea>)
        requires
            areas@.len() > 0 ==> areas@.last().y + areas@.last().height <= u16::MAX,
        ensures
            areas@.len() == 0 ==> r is None,
            areas@.len() > 0 ==> r == Some(crate::ui::ScreenArea {
                x: areas@.last().x,
                y: (areas@.last().y + areas@.last().height) as u16,
                width: areas@.last().width,
                height: 1,
            }),
    {
        if areas.len() == 0 {
            return None;
        }
        let last = areas[areas.len() - 1];
        Some(crate::ui::ScreenArea { x: last.x, y: last.y + last.height, width: last.width, height: 1 })
    }
}

/* ======================= Clipboard item texts ======================== */

/// The position of the last `/` in `s` before position `k`, if any.
pub open spec fn last_slash_before(s: Seq<char>, k: int) -> Option<int>
    decreases k,
{
    if k <= 0 || k > s.len() {
        None
    } else if s[k - 1] == '/' {
        Some(k - 1)
    } else {
        last_slash_before(s, k - 1)
    }
}

/// A path cut to `max_len` bytes: whole when it fits; else `.../` and its
/// last component when that component is short enough (under `max_len - 5`
/// bytes); else cut from the front as `truncate_spec` does.
pub open spec fn smart_path_spec(s: Seq<char>, max_len: usize) -> Seq<char> {
    if byte_len(s) <= max_len {
        s
    } else {
        match last_slash_before(s, s.len() as int) {
            Some(k) => if byte_len(s.skip(k + 1)) + 5 < max_len {
                ".../"@ + s.skip(k + 1)
            } else {
                truncate_spec(s, max_len)
            },
            None => truncate_spec(s, max_len),
        }
    }
}

/// Whether `smart_path_spec` can shorten the path without a panic: a path
/// with a `/` needs room for the marker, and a path cut from the front a
/// character boundary at the cut.
pub open spec fn smart_path_defined(s: Seq<char>, max_len: usize) -> bool {
    byte_len(s) <= max_len || match last_slash_before(s, s.len() as int) {
        Some(k) => max_len >= 5 && (byte_len(s.skip(k + 1)) + 5 < max_len || truncatable(s, max_len)),
        None => truncatable(s, max_len),
    }
}

proof fn lemma_last_slash_bounds(s: Seq<char>, k: int)
    ensures
        last_slash_before(s, k) matches Some(i) ==> 0 <= i < k && i < s.len() && s[i] == '/',
    decreases k,
{
    if 0 < k <= s.len() && s[k - 1] != '/' {
        lemma_last_slash_bounds(s, k - 1);
    }
}

/// Shortens a path for the clipboard list, keeping its file name when it can.
pub fn format_path_smart(path: &str, max_len: usize) -> (r: String)
    requires
        smart_path_defined(path@, max_len),
    ensures
        r@ == smart_path_spec(path@, max_len),
{
    let n = path.as_bytes().len();
    if n <= max_len {
        return string_of(chars_of(path).as_slice());
    }
    let cs = chars_of(path);
    let mut k: usize = cs.len();
    while k > 0 && cs[k - 1] != '/'
        invariant
            k <= cs.len(),
            cs@ == path@,
            last_slash_before(path@, path@.len() as int) == last_slash_before(path@, k as int),
        decreases k,
    {
        k = k - 1;
    }
    proof {
        lemma_last_slash_bounds(path@, path@.len() as int);
    }
    if k > 0 {
        let mut name: Vec<char> = Vec::new();
        let mut j: usize = k;
        while j < cs.len()
            invariant
                k <= j <= cs.len(),
                cs@ == path@,
                name@ == path@.subrange(k as int, j as int),
            decreases cs.len() - j,
        {
            name.push(cs[j]);
            assert(path@.subrange(k as int, j as int).push(path@[j as int]) =~= path@.subrange(k as int, j + 1));
            j = j + 1;
        }
        assert(name@ =~= path@.skip(k as int));
        let name_text = string_of(name.as_slice());
        let name_bytes = name_text.as_str().as_bytes().len();
        if name_bytes < max_len - 5 {
            let mut out: Vec<char> = chars_of(".../");
            append_chars(&mut out, name.as_slice());
            return string_of(out.as_slice());
        }
    }
    FileOperationsOverlay::truncate_text(path, max_len)
}

/// A size as `512B` or `1.5K`, as the clipboard list shows it.
pub fn format_file_size_compact(size: u64) -> (r: String)
    ensures
        r@ == crate::humanize::compact_size_spec(size as nat),
{
    crate::humanize::compact_size(size)
}

/// A size as `512 bytes` or `1.50 KB`, as the clipboard details show it.
pub fn format_file_size_human(size: u64) -> (r: String)
    ensures
        r@ == crate::humanize::spelled_size_spec(size as nat),
{
    crate::humanize::spelled_size(size)
}

/// How long ago a time was, from the seconds elapsed: seconds under a
/// minute, minutes under an hour, hours under a day, then days.
pub open spec fn age_text_spec(secs: u64) -> Seq<char> {
    if secs < 60 {
        decimal(secs as nat) + "s ago"@
    } else if secs < 3600 {
        decimal((secs / 60) as nat) + "m ago"@
    } else if secs < 86400 {
        decimal((secs / 3600) as nat) + "h ago"@
    } else {
        decimal((secs / 86400) as nat) + "d ago"@
    }
}

/// The age of a timestamp in nanoseconds, as seen at `now_ns` (a time in
/// the future counts as now).
pub fn format_timestamp_relative_at(now_ns: u64, timestamp: u64) -> (r: String)
    ensures
        r@ == age_text_spec((if now_ns >= timestamp { now_ns - timestamp } else { 0 }) as u64 / 1_000_000_000),
{
    let diff = now_ns.saturating_sub(timestamp);
    let secs = diff / 1_000_000_000;
    let mut out: Vec<char> = Vec::new();
    if secs < 60 {
        push_decimal(&mut out, secs);
        append_str(&mut out, "s ago");
    } else if secs < 3600 {
        push_decimal(&mut out, secs / 60);
        append_str(&mut out, "m ago");
    } else if secs < 86400 {
        push_decimal(&mut out, secs / 3600);
        append_str(&mut out, "h ago");
    } else {
        push_decimal(&mut out, secs / 86400);
        append_str(&mut out, "d ago");
    }
    string_of(out.as_slice())
}

/* ===================== Filename search results ======================= */

pub open spec fn binary_unit(k: nat) -> Seq<char> {
    if k == 0 {
        "B"@
    } else if k == 1 {
        "KiB"@
    } else if k == 2 {
        "MiB"@
    } else if k == 3 {
        "GiB"@
    } else {
        "TiB"@
    }
}

/// `v` divided by 1024 (rounding down) while it is at least 1024, at most
/// up to TiB, followed by its unit; `k` units have been taken off already.
pub open spec fn size_text_from(v: nat, k: nat) -> Seq<char>
    decreases 4 - k,
{
    if k < 4 && v >= 1024 {
        size_text_from(v / 1024, k + 1)
    } else {
        decimal(v) + " "@ + binary_unit(k)
    }
}

/// The size in whole units of the largest binary unit (up to TiB) that
/// keeps it at least 1, such as `3 KiB`.
pub open spec fn size_text(v: nat) -> Seq<char> {
    size_text_from(v, 0)
}

/// A search hit shown as its path (relative to the directory when it lies
/// below it) and, when known, its size.
pub open spec fn display_spec(display_path: Seq<char>, size: u64) -> Seq<char> {
    if size == 0 {
        display_path
    } else {
        display_path + " ("@ + size_text(size as nat) + ")"@
    }
}

/// The path part of a search hit.
pub open spec fn hit_path_text(name: Seq<char>, path: PathBuf, cwd: PathBuf) -> Seq<char> {
    match path_below(path, cwd) {
        Some(rest) => path_lossy(rest),
        None => name,
    }
}

/// Renders a size in whole binary units, such as `3 KiB`.
pub fn fmt_size(size: u64) -> (r: String)
    ensures
        r@ == size_text(size as nat),
{
    let mut v: u64 = size;
    let mut k: usize = 0;
    while v >= 1024 && k + 1 < 5
        invariant
            k <= 4,
            size_text_from(v as nat, k as nat) == size_text(size as nat),
        decreases v,
    {
        v = v / 1024;
        k = k + 1;
    }
    let mut out: Vec<char> = Vec::new();
    push_decimal(&mut out, v);
    append_str(&mut out, " ");
    let unit: &str = if k == 0 {
        "B"
    } else if k == 1 {
        "KiB"
    } else if k == 2 {
        "MiB"
    } else if k == 3 {
        "GiB"
    } else {
        "TiB"
    };
    append_str(&mut out, unit);
    string_of(out.as_slice())
}

/// A search hit's text from its path text and size.
pub fn display_with_size(display_path: &str, size: u64) -> (r: String)
    ensures
        r@ == display_spec(display_path@, size),
{
    let mut out: Vec<char> = chars_of(display_path);
    if size == 0 {
        return string_of(out.as_slice());
    }
    append_str(&mut out, " (");
    let s = fmt_size(size);
    append_str(&mut out, s.as_str());
    append_str(&mut out, ")");
    string_of(out.as_slice())
}

/// A search hit's text: its path relative to `cwd` when it lies below it,
/// else its name, followed by its size when that is known.
pub fn build_display(name: &str, path: &PathBuf, size: u64, cwd: &PathBuf) -> (r: String)
    ensures
        r@ == display_spec(hit_path_text(name@, *path, *cwd), size),
{
    let shown: String = match path_strip_prefix(path, cwd) {
        Some(rest) => path_lossy_text(&rest),
        None => string_of(chars_of(name).as_slice()),
    };
    display_with_size(shown.as_str(), size)
}

/* ============================ Help overlay ============================ */

/// The number of tabs of the help overlay.
pub const HELP_TABS: usize = 4;

/// The help screen, organised in tabs.
pub struct OptimizedHelpOverlay {
    selected_tab: usize,
}

impl OptimizedHelpOverlay {
    /// The selected tab, always one of the four.
    pub closed spec fn tab(&self) -> usize {
        self.selected_tab
    }

    pub closed spec fn well_formed(&self) -> bool {
        self.selected_tab < HELP_TABS
    }

    /// Opens on the first tab.
    pub fn new() -> (r: Self)
        ensures
            r.well_formed(),
            r.tab() == 0,
    {
        OptimizedHelpOverlay { selected_tab: 0 }
    }

    /// The selected tab.
    pub fn selected_tab(&self) -> (r: usize)
        ensures
            r == self.tab(),
    {
        self.selected_tab
    }

    /// Moves to the next tab, from the last back to the first.
    pub fn next_tab(&mut self)
        requires
            old(self).well_formed(),
        ensures
            final(self).well_formed(),
            final(self).tab() == next_tab_index(old(self).tab()),
    {
        self.selected_tab = (self.selected_tab + 1) % HELP_TABS;
    }

    /// Moves to the previous tab, from the first to the last.
    pub fn prev_tab(&mut self)
        requires
            old(self).well_formed(),
        ensures
            final(self).well_formed(),
            final(self).tab() == prev_tab_index(old(self).tab()),
    {
        if self.selected_tab > 0 {
            self.selected_tab = self.selected_tab - 1;
        } else {
            self.selected_tab = HELP_TABS - 1;
        }
    }
}

impl Default for OptimizedHelpOverlay {
    fn default() -> (r: Self)
        ensures
            r.well_formed(),
            r.tab() == 0,
    {
        Self::new()
    }
}

/// The tab after `t`, from the last back to the first.
pub open spec fn next_tab_index(t: usize) -> usize {
    ((t + 1) % (HELP_TABS as int)) as usize
}

/// The tab before `t`, from the first to the last.
pub open spec fn prev_tab_index(t: usize) -> usize {
    if t > 0 {
        (t - 1) as usize
    } else {
        (HELP_TABS - 1) as usize
    }
}

/// Tab moves undo each other, and going forward through all four tabs comes
/// back to the start.
pub proof fn law_help_tabs_cycle(t: usize)
    requires
        t < HELP_TABS,
    ensures
        prev_tab_index(next_tab_index(t)) == t,
        next_tab_index(prev_tab_index(t)) == t,
        next_tab_index(next_tab_index(next_tab_index(next_tab_index(t)))) == t,
{
}

/* =========================== Help content ============================ */

/// How a help line is shown: the tab's title, a section heading, a muted
/// heading, or plain text.
#[derive(Debug, Clone, Copy, PartialEq, Eq)]
pub enum HelpLineKind {
    Title,
    Section,
    Aside,
    Text,
}

/// The titles of the help tabs.
pub open spec fn help_tab_titles() -> Seq<Seq<char>> {
    seq!["Navigation"@, "Commands"@, "Search"@, "Advanced"@]
}

/// The footer of the help overlay.
pub open spec fn help_footer_spec() -> Seq<char> {
    "←→ Switch tabs • Esc/h/? Close help • Enter Open section"@
}

/// The lines of a help tab; a tab past the last shows the first.
pub open spec fn help_tab_lines(tab: usize) -> Seq<(HelpLineKind, Seq<char>)> {
    if tab == 1 {
        seq![
            (HelpLineKind::Title, "⌨  Command Mode & Operations"@),
            (HelpLineKind::Text, ""@),
            (HelpLineKind::Section, "Command Mode (: to enter):"@),
            (HelpLineKind::Text, "  :cd <path>     Change directory"@),
            (HelpLineKind::Text, "  :mkdir <name>  Create new directory"@),
            (HelpLineKind::Text, "  :touch <name>  Create new file"@),
            (HelpLineKind::Text, "  :reload        Refresh current directory"@),
            (HelpLineKind::Text, "  :config        Open configuration"@),
            (HelpLineKind::Text, "  :help          Show this help"@),
            (HelpLineKind::Text, "  :quit/:q       Exit application"@),
            (HelpLineKind::Text, ""@),
            (HelpLineKind::Section, "File Operations:"@),
            (HelpLineKind::Text, "  d              Delete selected items"@),
            (HelpLineKind::Text, "  r              Rename selected item"@),
            (HelpLineKind::Text, "  y              Copy (yank) selected items"@),
            (HelpLineKind::Text, "  p              Paste copied items"@),
            (HelpLineKind::Text, "  x              Cut selected items"@),
            (HelpLineKind::Text, "  n              Create new file"@),
            (HelpLineKind::Text, "  f              Create new folder"@),
            (HelpLineKind::Text, ""@),
            (HelpLineKind::Section, "Command Features:"@),
            (HelpLineKind::Text, "  Tab            Auto-complete commands"@),
            (HelpLineKind::Text, "  ↑↓             Navigate command history"@),
            (HelpLineKind::Text, "  Esc            Exit command mode"@),
            (HelpLineKind::Text, "  Enter          Execute command"@),
        ]
    } else if tab == 2 {
        seq![
            (HelpLineKind::Title, "🔍 Search & Filtering"@),
            (HelpLineKind::Text, ""@),
            (HelpLineKind::Section, "File Name Search (/):"@),
            (HelpLineKind::Text, "  /              Open filename search"@),
            (HelpLineKind::Text, "  *.rs           Search for Rust files"@),
            (HelpLineKind::Text, "  test*          Files starting with 'test'"@),
            (HelpLineKind::Text, "  *config*       Files containing 'config'"@),
            (HelpLineKind::Text, "  src/*.rs       Rust files in src directory"@),
            (HelpLineKind::Text, ""@),
            (HelpLineKind::Section, "Content Search:"@),
            (HelpLineKind::Text, "  :grep <term>   Search file contents"@),
            (HelpLineKind::Text, "  :find <name>   Find files by name"@),
            (HelpLineKind::Text, "  Ctrl+F         Global content search (future)"@),
            (HelpLineKind::Text, ""@),
            (HelpLineKind::Section, "Search Tips:"@),
            (HelpLineKind::Text, "  • Use wildcards (*) for flexible matching"@),
            (HelpLineKind::Text, "  • Search is case-insensitive by default"@),
            (HelpLineKind::Text, "  • Use / for path separators in patterns"@),
            (HelpLineKind::Text, "  • Enter navigates to first result"@),
            (HelpLineKind::Text, "  • Esc cancels search and returns to browser"@),
            (HelpLineKind::Text, ""@),
            (HelpLineKind::Section, "Filter Operations:"@),
            (HelpLineKind::Text, "  Ctrl+H         Toggle hidden files"@),
            (HelpLineKind::Text, "  Ctrl+S         Sort options menu (future)"@),
        ]
    } else if tab == 3 {
        seq![
            (HelpLineKind::Title, "⚙  Advanced Features"@),
            (HelpLineKind::Text, ""@),
            (HelpLineKind::Section, "Themes & UI:"@),
            (HelpLineKind::Text, "  t              Toggle theme"@),
            (HelpLineKind::Text, "  Ctrl+T         Theme selector (future)"@),
            (HelpLineKind::Text, "  F11            Toggle fullscreen"@),
            (HelpLineKind::Text, ""@),
            (HelpLineKind::Section, "Clipboard & Selection:"@),
            (HelpLineKind::Text, "  Ctrl+V         Show clipboard overlay"@),
            (HelpLineKind::Text, "  v              Enter visual selection mode"@),
            (HelpLineKind::Text, "  V              Visual line mode"@),
            (HelpLineKind::Text, "  Ctrl+A         Select all"@),
            (HelpLineKind::Text, ""@),
            (HelpLineKind::Section, "Performance:"@),
            (HelpLineKind::Text, "  • 60fps rendering with sub-ms response"@),
            (HelpLineKind::Text, "  • Lock-free navigation for large directories"@),
            (HelpLineKind::Text, "  • Async directory loading"@),
            (HelpLineKind::Text, "  • Optimized file metadata caching"@),
            (HelpLineKind::Text, ""@),
            (HelpLineKind::Section, "Configuration:"@),
            (HelpLineKind::Text, "  :config        Open config file"@),
            (HelpLineKind::Text, "  • Custom key bindings"@),
            (HelpLineKind::Text, "  • Theme customization"@),
            (HelpLineKind::Text, "  • Performance tuning"@),
            (HelpLineKind::Text, "  • Plugin system (future)"@),
            (HelpLineKind::Text, ""@),
            (HelpLineKind::Aside, "Version Info:"@),
            (HelpLineKind::Text, "  FSM v4.1 - Enhanced Overlay System"@),
            (HelpLineKind::Text, "  Built with Rust + Ratatui"@),
        ]
    } else {
        seq![
            (HelpLineKind::Title, "🗂  Navigation & Movement"@),
            (HelpLineKind::Text, ""@),
            (HelpLineKind::Section, "Basic Movement:"@),
            (HelpLineKind::Text, "  ↑↓             Move selection up/down"@),
            (HelpLineKind::Text, "  PgUp/PgDn      Page up/down"@),
            (HelpLineKind::Text, "  Home/End       Jump to first/last item"@),
            (HelpLineKind::Text, "  Enter          Open file or enter directory"@),
            (HelpLineKind::Text, "  Backspace      Go to parent directory"@),
            (HelpLineKind::Text, ""@),
            (HelpLineKind::Section, "Selection:"@),
            (HelpLineKind::Text, "  Space          Mark/unmark item for batch operations"@),
            (HelpLineKind::Text, "  Ctrl+A         Select all items"@),
            (HelpLineKind::Text, "  Ctrl+D         Deselect all items"@),
            (HelpLineKind::Text, "  Tab            Switch between panes (future)"@),
            (HelpLineKind::Text, ""@),
            (HelpLineKind::Section, "Quick Navigation:"@),
            (HelpLineKind::Text, "  g g            Go to top"@),
            (HelpLineKind::Text, "  G              Go to bottom"@),
            (HelpLineKind::Text, "  Ctrl+O         Open directory chooser (future)"@),
            (HelpLineKind::Text, "  Ctrl+L         Refresh current directory"@),
            (HelpLineKind::Text, ""@),
            (HelpLineKind::Section, "Application:"@),
            (HelpLineKind::Text, "  q/Q            Quit application"@),
            (HelpLineKind::Text, "  Ctrl+C         Force quit"@),
            (HelpLineKind::Text, "  h/?            Toggle this help"@),
        ]
    }
}

/// The lines of a help tab, with their texts as characters.
pub open spec fn help_line_views(s: Seq<(HelpLineKind, &'static str)>) -> Seq<(HelpLineKind, Seq<char>)> {
    s.map_values(|p: (HelpLineKind, &'static str)| (p.0, p.1@))
}

impl OptimizedHelpOverlay {
    /// The titles of the tabs.
    pub fn tab_titles() -> (r: Vec<&'static str>)
        ensures
            r@.map_values(|s: &'static str| s@) == help_tab_titles(),
    {
        let v: Vec<&'static str> = vec!["Navigation", "Commands", "Search", "Advanced"];
        assert(v@.map_values(|s: &'static str| s@) =~= help_tab_titles());
        v
    }

    /// The footer line.
    pub fn footer_text() -> (r: &'static str)
        ensures
            r@ == help_footer_spec(),
    {
        "←→ Switch tabs • Esc/h/? Close help • Enter Open section"
    }

    /// The lines of tab `tab`; a tab past the last shows the first.
    pub fn tab_lines(tab: usize) -> (r: Vec<(HelpLineKind, &'static str)>)
        ensures
            help_line_views(r@) == help_tab_lines(tab),
    {
        if tab == 1 {
            let v: Vec<(HelpLineKind, &'static str)> = vec![
                (HelpLineKind::Title, "⌨  Command Mode & Operations"),
                (HelpLineKind::Text, ""),
                (HelpLineKind::Section, "Command Mode (: to enter):"),
                (HelpLineKind::Text, "  :cd <path>     Change directory"),
                (HelpLineKind::Text, "  :mkdir <name>  Create new directory"),
                (HelpLineKind::Text, "  :touch <name>  Create new file"),
                (HelpLineKind::Text, "  :reload        Refresh current directory"),
                (HelpLineKind::Text, "  :config        Open configuration"),
                (HelpLineKind::Text, "  :help          Show this help"),
                (HelpLineKind::Text, "  :quit/:q       Exit application"),
                (HelpLineKind::Text, ""),
                (HelpLineKind::Section, "File Operations:"),
                (HelpLineKind::Text, "  d              Delete selected items"),
                (HelpLineKind::Text, "  r              Rename selected item"),
                (HelpLineKind::Text, "  y              Copy (yank) selected items"),
                (HelpLineKind::Text, "  p              Paste copied items"),
                (HelpLineKind::Text, "  x              Cut selected items"),
                (HelpLineKind::Text, "  n              Create new file"),
                (HelpLineKind::Text, "  f              Create new folder"),
                (HelpLineKind::Text, ""),
                (HelpLineKind::Section, "Command Features:"),
                (HelpLineKind::Text, "  Tab            Auto-complete commands"),
                (HelpLineKind::Text, "  ↑↓             Navigate command history"),
                (HelpLineKind::Text, "  Esc            Exit command mode"),
                (HelpLineKind::Text, "  Enter          Execute command"),
            ];
            assert(help_line_views(v@) =~= help_tab_lines(tab));
            v
        } else if tab == 2 {
            let v: Vec<(HelpLineKind, &'static str)> = vec![
                (HelpLineKind::Title, "🔍 Search & Filtering"),
                (HelpLineKind::Text, ""),
                (HelpLineKind::Section, "File Name Search (/):"),
                (HelpLineKind::Text, "  /              Open filename search"),
                (HelpLineKind::Text, "  *.rs           Search for Rust files"),
                (HelpLineKind::Text, "  test*          Files starting with 'test'"),
                (HelpLineKind::Text, "  *config*       Files containing 'config'"),
                (HelpLineKind::Text, "  src/*.rs       Rust files in src directory"),
                (HelpLineKind::Text, ""),
                (HelpLineKind::Section, "Content Search:"),
                (HelpLineKind::Text, "  :grep <term>   Search file contents"),
                (HelpLineKind::Text, "  :find <name>   Find files by name"),
                (HelpLineKind::Text, "  Ctrl+F         Global content search (future)"),
                (HelpLineKind::Text, ""),
                (HelpLineKind::Section, "Search Tips:"),
                (HelpLineKind::Text, "  • Use wildcards (*) for flexible matching"),
                (HelpLineKind::Text, "  • Search is case-insensitive by default"),
                (HelpLineKind::Text, "  • Use / for path separators in patterns"),
                (HelpLineKind::Text, "  • Enter navigates to first result"),
                (HelpLineKind::Text, "  • Esc cancels search and returns to browser"),
                (HelpLineKind::Text, ""),
                (HelpLineKind::Section, "Filter Operations:"),
                (HelpLineKind::Text, "  Ctrl+H         Toggle hidden files"),
                (HelpLineKind::Text, "  Ctrl+S         Sort options menu (future)"),
            ];
            assert(help_line_views(v@) =~= help_tab_lines(tab));
            v
        } else if tab == 3 {
            let v: Vec<(HelpLineKind, &'static str)> = vec![
                (HelpLineKind::Title, "⚙  Advanced Features"),
                (HelpLineKind::Text, ""),
                (HelpLineKind::Section, "Themes & UI:"),
                (HelpLineKind::Text, "  t              Toggle theme"),
                (HelpLineKind::Text, "  Ctrl+T         Theme selector (future)"),
                (HelpLineKind::Text, "  F11            Toggle fullscreen"),
                (HelpLineKind::Text, ""),
                (HelpLineKind::Section, "Clipboard & Selection:"),
                (HelpLineKind::Text, "  Ctrl+V         Show clipboard overlay"),
                (HelpLineKind::Text, "  v              Enter visual selection mode"),
                (HelpLineKind::Text, "  V              Visual line mode"),
                (HelpLineKind::Text, "  Ctrl+A         Select all"),
                (HelpLineKind::Text, ""),
                (HelpLineKind::Section, "Performance:"),
                (HelpLineKind::Text, "  • 60fps rendering with sub-ms response"),
                (HelpLineKind::Text, "  • Lock-free navigation for large directories"),
                (HelpLineKind::Text, "  • Async directory loading"),
                (HelpLineKind::Text, "  • Optimized file metadata caching"),
                (HelpLineKind::Text, ""),
                (HelpLineKind::Section, "Configuration:"),
                (HelpLineKind::Text, "  :config        Open config file"),
                (HelpLineKind::Text, "  • Custom key bindings"),
                (HelpLineKind::Text, "  • Theme customization"),
                (HelpLineKind::Text, "  • Performance tuning"),
                (HelpLineKind::Text, "  • Plugin system (future)"),
                (HelpLineKind::Text, ""),
                (HelpLineKind::Aside, "Version Info:"),
                (HelpLineKind::Text, "  FSM v4.1 - Enhanced Overlay System"),
                (HelpLineKind::Text, "  Built with Rust + Ratatui"),
            ];
            assert(help_line_views(v@) =~= help_tab_lines(tab));
            v
        } else {
            let v: Vec<(HelpLineKind, &'static str)> = vec![
                (HelpLineKind::Title, "🗂  Navigation & Movement"),
                (HelpLineKind::Text, ""),
                (HelpLineKind::Section, "Basic Movement:"),
                (HelpLineKind::Text, "  ↑↓             Move selection up/down"),
                (HelpLineKind::Text, "  PgUp/PgDn      Page up/down"),
                (HelpLineKind::Text, "  Home/End       Jump to first/last item"),
                (HelpLineKind::Text, "  Enter          Open file or enter directory"),
                (HelpLineKind::Text, "  Backspace      Go to parent directory"),
                (HelpLineKind::Text, ""),
                (HelpLineKind::Section, "Selection:"),
                (HelpLineKind::Text, "  Space          Mark/unmark item for batch operations"),
                (HelpLineKind::Text, "  Ctrl+A         Select all items"),
                (HelpLineKind::Text, "  Ctrl+D         Deselect all items"),
                (HelpLineKind::Text, "  Tab            Switch between panes (future)"),
                (HelpLineKind::Text, ""),
                (HelpLineKind::Section, "Quick Navigation:"),
                (HelpLineKind::Text, "  g g            Go to top"),
                (HelpLineKind::Text, "  G              Go to bottom"),
                (HelpLineKind::Text, "  Ctrl+O         Open directory chooser (future)"),
                (HelpLineKind::Text, "  Ctrl+L         Refresh current directory"),
                (HelpLineKind::Text, ""),
                (HelpLineKind::Section, "Application:"),
                (HelpLineKind::Text, "  q/Q            Quit application"),
                (HelpLineKind::Text, "  Ctrl+C         Force quit"),
                (HelpLineKind::Text, "  h/?            Toggle this help"),
            ];
            assert(help_line_views(v@) =~= help_tab_lines(tab));
            v
        }
    }
}


/* ========================= Notification overlay ======================= */

/// Draws the current notification.
pub struct OptimizedNotificationOverlay;

pub open spec fn notification_title_spec(level: NotificationLevel) -> Seq<char> {
    match level {
        NotificationLevel::Info => " ℹ Info "@,
        NotificationLevel::Warning => " ⚠ Warning "@,
        NotificationLevel::Error => " ✕ Error "@,
        NotificationLevel::Success => " ✓ Success "@,
    }
}

impl OptimizedNotificationOverlay {
    pub fn new() -> (r: Self) {
        OptimizedNotificationOverlay
    }

    /// The title of a notification's frame: its icon and level.
    pub fn notification_title(level: NotificationLevel) -> (r: String)
        ensures
            r@ == notification_title_spec(level),
    {
        let t: &str = match level {
            NotificationLevel::Info => " ℹ Info ",
            NotificationLevel::Warning => " ⚠ Warning ",
            NotificationLevel::Error => " ✕ Error ",
            NotificationLevel::Success => " ✓ Success ",
        };
        string_of(chars_of(t).as_slice())
    }
}

impl Default for OptimizedNotificationOverlay {
    fn default() -> (r: Self) {
        Self::new()
    }
}

/* ============================ Status bar ============================== */

/// The colour class of a status text.
#[derive(Debug, Clone, Copy, PartialEq, Eq)]
pub enum StatusTone {
    Error,
    Success,
    Muted,
}

/// The texts of the status bar: a left part, a right part and the tone of
/// the left part.
#[derive(Debug, Clone)]
pub struct StatusLine {
    pub left: String,
    pub right: String,
    pub tone: StatusTone,
}

/// The first `n` characters of `s` (all of it when shorter).
pub open spec fn prefix_upto(s: Seq<char>, n: int) -> Seq<char> {
    if s.len() <= n {
        s
    } else {
        s.take(n)
    }
}

/// The status message: the last error, else the last status, else `Ready`.
pub open spec fn status_message_spec(err: Option<Seq<char>>, status: Option<Seq<char>>, error_prefix: Seq<char>)
    -> (Seq<char>, StatusTone)
{
    match err {
        Some(e) => (error_prefix + e, StatusTone::Error),
        None => match status {
            Some(s) => (s, StatusTone::Success),
            None => ("Ready"@, StatusTone::Muted),
        },
    }
}

pub open spec fn opt_view(o: Option<&str>) -> Option<Seq<char>> {
    match o {
        Some(s) => Some(s@),
        None => None,
    }
}

/// The status bar degrades with the width: below 20 columns only `OK` or
/// the cut error, below 40 the cut message, below 80 the message and the
/// item count, and from 80 the full message left and the count right.
pub open spec fn status_line_spec(
    width: u16,
    err: Option<Seq<char>>,
    status: Option<Seq<char>>,
    item_count: usize,
) -> (Seq<char>, Seq<char>, StatusTone) {
    let (msg, tone) = status_message_spec(err, status, "Error: "@);
    if width < 20 {
        match err {
            Some(e) => ("ERR: "@ + prefix_upto(e, width - 5), ""@, StatusTone::Error),
            None => ("OK"@, ""@, StatusTone::Success),
        }
    } else if width < 40 {
        (" "@ + prefix_upto(msg, width - 2), ""@, tone)
    } else if width < 80 {
        (" "@ + prefix_upto(msg, 30) + " | "@ + decimal(item_count as nat) + " items"@, ""@, tone)
    } else {
        let (full, ftone) = status_message_spec(err, status, "🔥 Error: "@);
        (" "@ + full + " "@, decimal(item_count as nat) + " items "@, ftone)
    }
}

fn take_chars(s: &str, n: usize) -> (r: Vec<char>)
    ensures
        r@ == prefix_upto(s@, n as int),
{
    let cs = chars_of(s);
    if cs.len() <= n {
        cs
    } else {
        let mut r: Vec<char> = Vec::new();
        let mut i: usize = 0;
        while i < n
            invariant
                i <= n < cs.len(),
                cs@ == s@,
                r@ == cs@.take(i as int),
            decreases n - i,
        {
            r.push(cs[i]);
            assert(cs@.take(i as int).push(cs@[i as int]) =~= cs@.take(i + 1));
            i = i + 1;
        }
        r
    }
}

/// The bottom status line.
pub struct StatusBar;

impl StatusBar {
    /// The status message and its tone; an error is prefixed `Error: `.
    pub fn status_message(last_error: Option<&str>, last_status: Option<&str>) -> (r: (String, StatusTone))
        ensures
            (r.0@, r.1) == status_message_spec(opt_view(last_error), opt_view(last_status), "Error: "@),
    {
        Self::message_with_prefix(last_error, last_status, "Error: ")
    }

    fn message_with_prefix(last_error: Option<&str>, last_status: Option<&str>, prefix: &str) -> (r: (
        String,
        StatusTone,
    ))
        ensures
            (r.0@, r.1) == status_message_spec(opt_view(last_error), opt_view(last_status), prefix@),
    {
        match last_error {
            Some(e) => {
                let mut out: Vec<char> = chars_of(prefix);
                append_str(&mut out, e);
                (string_of(out.as_slice()), StatusTone::Error)
            },
            None => match last_status {
                Some(s) => (string_of(chars_of(s).as_slice()), StatusTone::Success),
                None => (string_of(chars_of("Ready").as_slice()), StatusTone::Muted),
            },
        }
    }

    /// The status line for a bar `width` columns wide.
    pub fn status_line(width: u16, last_error: Option<&str>, last_status: Option<&str>, item_count: usize) -> (r: StatusLine)
        requires
            width < 20 && last_error is Some ==> width >= 5,
        ensures
            (r.left@, r.right@, r.tone) == status_line_spec(
                width,
                opt_view(last_error),
                opt_view(last_status),
                item_count,
            ),
    {
        let empty = string_of(chars_of("").as_slice());
        proof {
            reveal_strlit("");
        }
        if width < 20 {
            match last_error {
                Some(e) => {
                    let mut out: Vec<char> = chars_of("ERR: ");
                    let cut = take_chars(e, (width - 5) as usize);
                    append_chars(&mut out, cut.as_slice());
                    StatusLine { left: string_of(out.as_slice()), right: empty, tone: StatusTone::Error }
                },
                None => StatusLine {
                    left: string_of(chars_of("OK").as_slice()),
                    right: empty,
                    tone: StatusTone::Success,
                },
            }
        } else if width < 40 {
            let (msg, tone) = Self::status_message(last_error, last_status);
            let mut out: Vec<char> = chars_of(" ");
            let cut = take_chars(msg.as_str(), (width - 2) as usize);
            append_chars(&mut out, cut.as_slice());
            StatusLine { left: string_of(out.as_slice()), right: empty, tone }
        } else if width < 80 {
            let (msg, tone) = Self::status_message(last_error, last_status);
            let mut out: Vec<char> = chars_of(" ");
            let cut = take_chars(msg.as_str(), 30);
            append_chars(&mut out, cut.as_slice());
            append_str(&mut out, " | ");
            push_decimal(&mut out, item_count as u64);
            append_str(&mut out, " items");
            StatusLine { left: string_of(out.as_slice()), right: empty, tone }
        } else {
            let (msg, tone) = Self::message_with_prefix(last_error, last_status, "🔥 Error: ");
            let mut out: Vec<char> = chars_of(" ");
            append_str(&mut out, msg.as_str());
            append_str(&mut out, " ");
            let mut right: Vec<char> = Vec::new();
            push_decimal(&mut right, item_count as u64);
            append_str(&mut right, " items ");
            StatusLine { left: string_of(out.as_slice()), right: string_of(right.as_slice()), tone }
        }
    }
}

/* ======================= Other screen components ====================== */

/// The command palette's screen area (drawn by the command line).
pub struct CommandPalette;

/// The content search overlay.
pub struct ContentSearchOverlay;

/// The line under the search input.
pub open spec fn search_status_spec(
    input: Seq<char>,
    raw_lines: Option<Seq<Seq<char>>>,
    result_count: usize,
    loading_message: Option<Seq<char>>,
    has_last_query: bool,
) -> Seq<char> {
    let quoted = "'"@ + input + "'"@;
    if input.len() == 0 {
        "Ready to search • Type pattern and press Enter"@
    } else {
        match raw_lines {
            Some(lines) => "Found "@ + decimal(crate::search::count_kind(lines, false)) + " matches in "@
                + decimal(crate::search::count_kind(lines, true)) + " files for "@ + quoted,
            None => if result_count > 0 {
                "Found "@ + decimal(result_count as nat) + " files matching "@ + quoted
            } else if is_searching_spec(loading_message) {
                "Searching for "@ + quoted + "..."@
            } else if has_last_query {
                "No matches found for "@ + quoted
            } else {
                "Press Enter to search for "@ + quoted
            },
        }
    }
}

/// A search is running while the loading message mentions `Searching`.
pub open spec fn is_searching_spec(loading_message: Option<Seq<char>>) -> bool {
    match loading_message {
        Some(m) => crate::text::contains(m, "Searching"@),
        None => false,
    }
}

pub open spec fn search_title_spec(input_empty: bool, searching: bool, has_results: bool) -> Seq<char> {
    if searching {
        " 🔍 Searching... "@
    } else if input_empty {
        " Content Search (ripgrep) "@
    } else if has_results {
        " Content Search - Results Found "@
    } else {
        " Content Search - Type to Search "@
    }
}

pub open spec fn search_help_spec(input_empty: bool, has_results: bool) -> Seq<char> {
    if input_empty {
        "Type search pattern • Enter to search • Esc to close • Use regex for advanced patterns"@
    } else if has_results {
        "↑↓ Navigate • Enter to open file • Shift+Enter to jump to match • Esc to close"@
    } else {
        "Enter to search • Esc to close • Use quotes for exact phrases • Case sensitive by default"@
    }
}

impl ContentSearchOverlay {
    /// Whether a loading message says that a search is running.
    pub fn is_searching(loading_message: Option<&str>) -> (r: bool)
        ensures
            r == is_searching_spec(opt_view(loading_message)),
    {
        match loading_message {
            Some(m) => crate::text::chars_contains(chars_of(m).as_slice(), chars_of("Searching").as_slice()),
            None => false,
        }
    }

    /// The title of the search input's frame.
    pub fn search_input_title(input_empty: bool, searching: bool, has_results: bool) -> (r: &'static str)
        ensures
            r@ == search_title_spec(input_empty, searching, has_results),
    {
        if searching {
            " 🔍 Searching... "
        } else if input_empty {
            " Content Search (ripgrep) "
        } else if has_results {
            " Content Search - Results Found "
        } else {
            " Content Search - Type to Search "
        }
    }

    /// The help line of the overlay.
    pub fn search_help_text(input_empty: bool, has_results: bool) -> (r: &'static str)
        ensures
            r@ == search_help_spec(input_empty, has_results),
    {
        if input_empty {
            "Type search pattern • Enter to search • Esc to close • Use regex for advanced patterns"
        } else if has_results {
            "↑↓ Navigate • Enter to open file • Shift+Enter to jump to match • Esc to close"
        } else {
            "Enter to search • Esc to close • Use quotes for exact phrases • Case sensitive by default"
        }
    }

    /// The status line: what was found, or what to do next.
    pub fn search_status_text(
        input: &str,
        raw_lines: Option<&[String]>,
        result_count: usize,
        loading_message: Option<&str>,
        has_last_query: bool,
    ) -> (r: String)
        ensures
            r@ == search_status_spec(
                input@,
                match raw_lines {
                    Some(l) => Some(crate::text::string_views(l@)),
                    None => None,
                },
                result_count,
                opt_view(loading_message),
                has_last_query,
            ),
    {
        proof {
            reveal_strlit("");
        }
        let inp = chars_of(input);
        if inp.len() == 0 {
            return string_of(chars_of("Ready to search • Type pattern and press Enter").as_slice());
        }
        let mut quoted: Vec<char> = chars_of("'");
        append_str(&mut quoted, input);
        append_str(&mut quoted, "'");
        let mut out: Vec<char> = Vec::new();
        match raw_lines {
            Some(lines) => {
                let matches = crate::search::count_lines_of_kind(lines, false);
                let files = crate::search::count_lines_of_kind(lines, true);
                append_str(&mut out, "Found ");
                push_decimal(&mut out, matches as u64);
                append_str(&mut out, " matches in ");
                push_decimal(&mut out, files as u64);
                append_str(&mut out, " files for ");
                append_chars(&mut out, quoted.as_slice());
            },
            None => {
                if result_count > 0 {
                    append_str(&mut out, "Found ");
                    push_decimal(&mut out, result_count as u64);
                    append_str(&mut out, " files matching ");
                    append_chars(&mut out, quoted.as_slice());
                } else if Self::is_searching(loading_message) {
                    append_str(&mut out, "Searching for ");
                    append_chars(&mut out, quoted.as_slice());
                    append_str(&mut out, "...");
                } else if has_last_query {
                    append_str(&mut out, "No matches found for ");
                    append_chars(&mut out, quoted.as_slice());
                } else {
                    append_str(&mut out, "Press Enter to search for ");
                    append_chars(&mut out, quoted.as_slice());
                }
            },
        }
        string_of(out.as_slice())
    }
}

/// The overlay asking the user for a name or a path.
pub struct InputPromptOverlay;

/// The overlay shown while something loads.
pub struct LoadingOverlay;

/// The frames of the loading spinner.
pub open spec fn spinner_frames() -> Seq<Seq<char>> {
    seq!["⠁"@, "⠃"@, "⠇"@, "⠧"@, "⠷"@, "⠿"@, "⠻"@, "⠹"@, "⠸"@]
}

/// The text lines of the loading overlay.
pub open spec fn loading_lines_spec(
    message: Seq<char>,
    spinner_frame: usize,
    current_item: Option<Seq<char>>,
    completed: Option<u64>,
    total: Option<u64>,
) -> Seq<Seq<char>> {
    let first = seq![spinner_frames()[(spinner_frame % 9) as int] + " "@ + message];
    let with_item = match current_item {
        Some(item) => first.push("Current: "@ + item),
        None => first,
    };
    let with_count = match (completed, total) {
        (Some(d), Some(t)) => with_item.push("Completed: "@ + decimal(d as nat) + "/"@ + decimal(t as nat)),
        _ => with_item,
    };
    with_count.push(Seq::empty())
}

impl LoadingOverlay {
    /// The area with `margin_x` cells cut off left and right and `margin_y`
    /// lines off top and bottom.
    pub fn inset_rect(area: crate::ui::ScreenArea, margin_x: u16, margin_y: u16) -> (r: crate::ui::ScreenArea)
        requires
            area.x + margin_x <= u16::MAX,
            area.y + margin_y <= u16::MAX,
            margin_x * 2 <= u16::MAX,
            margin_y * 2 <= u16::MAX,
        ensures
            r.x == area.x + margin_x,
            r.y == area.y + margin_y,
            r.width == (if area.width >= margin_x * 2 { area.width - margin_x * 2 } else { 0 }),
            r.height == (if area.height >= margin_y * 2 { area.height - margin_y * 2 } else { 0 }),
    {
        crate::ui::ScreenArea {
            x: area.x + margin_x,
            y: area.y + margin_y,
            width: area.width.saturating_sub(margin_x * 2),
            height: area.height.saturating_sub(margin_y * 2),
        }
    }

    /// The lines shown while loading: spinner and message, the current
    /// item, the progress count, and a blank line.
    pub fn loading_lines(
        message: &str,
        spinner_frame: usize,
        current_item: Option<&str>,
        completed: Option<u64>,
        total: Option<u64>,
    ) -> (r: Vec<String>)
        ensures
            crate::text::string_views(r@) == loading_lines_spec(
                message@,
                spinner_frame,
                opt_view(current_item),
                completed,
                total,
            ),
    {
        let frames: Vec<&'static str> = vec!["⠁", "⠃", "⠇", "⠧", "⠷", "⠿", "⠻", "⠹", "⠸"];
        assert(frames@.map_values(|s: &'static str| s@) =~= spinner_frames());
        let k = spinner_frame % 9;
        assert(frames@[k as int]@ == spinner_frames()[k as int]);
        let mut first: Vec<char> = chars_of(frames[k]);
        append_str(&mut first, " ");
        append_str(&mut first, message);
        let mut lines: Vec<String> = Vec::new();
        lines.push(string_of(first.as_slice()));
        let ghost v1 = crate::text::string_views(lines@);
        match current_item {
            Some(item) => {
                let mut l: Vec<char> = chars_of("Current: ");
                append_str(&mut l, item);
                lines.push(string_of(l.as_slice()));
            },
            None => {},
        }
        match (completed, total) {
            (Some(d), Some(t)) => {
                let mut l: Vec<char> = chars_of("Completed: ");
                push_decimal(&mut l, d);
                append_str(&mut l, "/");
                push_decimal(&mut l, t);
                lines.push(string_of(l.as_slice()));
            },
            _ => {},
        }
        lines.push(String::new());
        assert(crate::text::string_views(lines@) =~= loading_lines_spec(
            message@,
            spinner_frame,
            opt_view(current_item),
            completed,
            total,
        ));
        lines
    }
}

/// The table of the directory's entries.
pub struct ObjectTable;

/// The last component of a path as text (`Path::file_name`, when it is
/// valid Unicode).
pub uninterp spec fn path_file_name(p: PathBuf) -> Option<Seq<char>>;

/// Calls `Path::file_name` and keeps it when it is valid Unicode.
#[verifier::external_body]
pub(crate) fn path_file_name_text(p: &PathBuf) -> (r: Option<String>)
    ensures
        match r {
            Some(s) => path_file_name(*p) == Some(s@),
            None => path_file_name(*p) is None,
        },
{
    p.file_name().and_then(|n| n.to_str()).map(|n| n.to_string())
}

/// The columns shown for a table `width` columns wide.
pub open spec fn column_headers_spec(width: u16) -> Seq<Seq<char>> {
    if width < 20 {
        seq!["Name"@]
    } else if width < 40 {
        seq!["Name"@, "Type"@]
    } else if width < 80 {
        seq!["Name"@, "Type"@, "Size"@]
    } else {
        seq!["Name"@, "Type"@, "Items"@, "Size"@, "Modified"@]
    }
}

/// The number of entries shown in the viewport.
pub open spec fn visible_count(p: crate::fs_state::PaneState) -> int {
    let start = p.scroll_offset as int;
    let end = if start + p.viewport_height < p.entries@.len() {
        start + p.viewport_height
    } else {
        p.entries@.len() as int
    };
    if start >= end { 0 } else { end - start }
}

/// The table's title: the directory's name when narrow, its path when wide,
/// with the position `first/total` when not every entry is shown (from 40
/// columns on).
pub open spec fn table_title_spec(p: crate::fs_state::PaneState, width: u16) -> Seq<char> {
    let name = match path_file_name(p.cwd) {
        Some(n) => n,
        None => "?"@,
    };
    let total = p.entries@.len();
    let position = " ("@ + decimal((p.scroll_offset + 1) as nat) + "/"@ + decimal(total) + ") "@;
    if width < 20 {
        name
    } else if width < 40 {
        " "@ + name + " "@
    } else if width < 80 {
        if total > visible_count(p) {
            " "@ + name + position
        } else {
            " "@ + path_display(p.cwd) + " "@
        }
    } else {
        if total > visible_count(p) {
            " "@ + path_display(p.cwd) + position
        } else {
            " "@ + path_display(p.cwd) + " "@
        }
    }
}

/// The hotkeys shown under the table: none below 20 columns, three below
/// 40, four below 80, six from 80 on.
pub open spec fn footer_keys_spec(width: u16) -> Seq<(Seq<char>, Seq<char>)> {
    if width < 20 {
        Seq::empty()
    } else if width < 40 {
        seq![(":"@, "Cmd"@), ("/"@, "Find"@), ("h"@, "Help"@)]
    } else if width < 80 {
        seq![(":"@, "Command"@), ("/"@, "Search"@), (":nf"@, "New File"@), ("h"@, "Help"@)]
    } else {
        seq![(":nf"@, "New File"@), (":nd"@, "New Folder"@), ("/"@, "File Search"@), (":grep"@,
            "Content Search"@), (":"@, "Command"@), ("h"@, "Help"@)]
    }
}

pub open spec fn key_views(v: Seq<(&'static str, &'static str)>) -> Seq<(Seq<char>, Seq<char>)> {
    v.map_values(|k: (&'static str, &'static str)| (k.0@, k.1@))
}

impl ObjectTable {
    /// The hotkeys of the footer, for a footer `width` columns wide.
    pub fn footer_hotkeys(width: u16) -> (r: Vec<(&'static str, &'static str)>)
        ensures
            key_views(r@) == footer_keys_spec(width),
    {
        let v: Vec<(&'static str, &'static str)> = if width < 20 {
            Vec::new()
        } else if width < 40 {
            vec![(":", "Cmd"), ("/", "Find"), ("h", "Help")]
        } else if width < 80 {
            vec![(":", "Command"), ("/", "Search"), (":nf", "New File"), ("h", "Help")]
        } else {
            vec![(":nf", "New File"), (":nd", "New Folder"), ("/", "File Search"), (":grep", "Content Search"),
                (":", "Command"), ("h", "Help")]
        };
        assert(key_views(v@) =~= footer_keys_spec(width));
        v
    }

    /// The column headers for a table `width` columns wide.
    pub fn column_headers(width: u16) -> (r: Vec<&'static str>)
        ensures
            r@.map_values(|s: &'static str| s@) == column_headers_spec(width),
    {
        let v: Vec<&'static str> = if width < 20 {
            vec!["Name"]
        } else if width < 40 {
            vec!["Name", "Type"]
        } else if width < 80 {
            vec!["Name", "Type", "Size"]
        } else {
            vec!["Name", "Type", "Items", "Size", "Modified"]
        };
        assert(v@.map_values(|s: &'static str| s@) =~= column_headers_spec(width));
        v
    }

    /// The marker of the selected row.
    pub fn highlight_symbol(width: u16) -> (r: &'static str)
        ensures
            r@ == (if width < 20 { ">"@ } else { "▶ "@ }),
    {
        if width < 20 {
            ">"
        } else {
            "▶ "
        }
    }

    /// The space between columns.
    pub fn column_spacing(width: u16) -> (r: u16)
        ensures
            r == (if width < 40 { 1u16 } else { 2u16 }),
    {
        if width < 40 {
            1
        } else {
            2
        }
    }

    /// The title of the table for a pane.
    pub fn table_title(pane: &crate::fs_state::PaneState, width: u16) -> (r: String)
        requires
            pane.scroll_offset < usize::MAX,
            pane.scroll_offset + pane.viewport_height <= usize::MAX,
        ensures
            r@ == table_title_spec(*pane, width),
    {
        let total = pane.entries.len();
        let visible = pane.visible_entries().len();
        let name: String = match path_file_name_text(&pane.cwd) {
            Some(n) => n,
            None => string_of(chars_of("?").as_slice()),
        };
        let mut position: Vec<char> = chars_of(" (");
        push_decimal(&mut position, (pane.scroll_offset + 1) as u64);
        append_str(&mut position, "/");
        push_decimal(&mut position, total as u64);
        append_str(&mut position, ") ");
        let mut out: Vec<char> = Vec::new();
        if width < 20 {
            append_str(&mut out, name.as_str());
        } else if width < 40 {
            append_str(&mut out, " ");
            append_str(&mut out, name.as_str());
            append_str(&mut out, " ");
        } else if width < 80 && total > visible {
            append_str(&mut out, " ");
            append_str(&mut out, name.as_str());
            append_chars(&mut out, position.as_slice());
        } else {
            let shown = path_display_text(&pane.cwd);
            append_str(&mut out, " ");
            append_str(&mut out, shown.as_str());
            if total > visible {
                append_chars(&mut out, position.as_slice());
            } else {
                append_str(&mut out, " ");
            }
        }
        string_of(out.as_slice())
    }
}

/// The prompt line.
pub struct PromptBar;

pub open spec fn prompt_label_spec(overlay: crate::ui_state::UIOverlay) -> Seq<char> {
    match overlay {
        crate::ui_state::UIOverlay::Prompt => "Command:"@,
        crate::ui_state::UIOverlay::Search => "Search:"@,
        _ => "Input:"@,
    }
}

impl PromptBar {
    /// The label of the prompt, by the overlay it belongs to.
    pub fn prompt_label(overlay: crate::ui_state::UIOverlay) -> (r: &'static str)
        ensures
            r@ == prompt_label_spec(overlay),
    {
        match overlay {
            crate::ui_state::UIOverlay::Prompt => "Command:",
            crate::ui_state::UIOverlay::Search => "Search:",
            _ => "Input:",
        }
    }
}

/// The list of search results.
pub struct SearchResultsOverlay;

pub open spec fn results_header_spec(count: usize) -> Seq<Seq<char>> {
    if count == 0 {
        seq!["Search Results"@, "No results found."@]
    } else {
        seq!["Search Results"@, "Found "@ + decimal(count as nat) + " results:"@, Seq::empty()]
    }
}

impl SearchResultsOverlay {
    /// The lines above the list of results.
    pub fn header_lines(count: usize) -> (r: Vec<String>)
        ensures
            crate::text::string_views(r@) == results_header_spec(count),
    {
        let mut v: Vec<String> = Vec::new();
        v.push(string_of(chars_of("Search Results").as_slice()));
        if count == 0 {
            v.push(string_of(chars_of("No results found.").as_slice()));
        } else {
            let mut l: Vec<char> = chars_of("Found ");
            push_decimal(&mut l, count as u64);
            append_str(&mut l, " results:");
            v.push(string_of(l.as_slice()));
            v.push(String::new());
        }
        assert(crate::text::string_views(v@) =~= results_header_spec(count));
        v
    }
}

/// A component whose content scrolls.
pub trait Scrollable {
    /// The first shown position.
    fn scroll_position(&self) -> usize;

    /// Scrolls up by `n` items.
    fn scroll_up(&mut self, n: usize);

    /// Scrolls down by `n` items.
    fn scroll_down(&mut self, n: usize);

    /// Scrolls to a position.
    fn scroll_to(&mut self, position: usize);

    /// The size of the whole content.
    fn content_size(&self) -> usize;

    /// The size of the visible part.
    fn visible_size(&self) -> usize;
}

} // verus!
