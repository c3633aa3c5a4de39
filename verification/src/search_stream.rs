//! The decisions of a filename search while it reads the search command's
//! output line by line: which lines count, when progress is reported, and
//! when reading stops. The caller performs each step's action and hands the
//! outcome back as the next event.
use vstd::prelude::*;
use std::time::{Duration, Instant};
use crate::debounce::{duration_as_nanos, duration_nanos, instant_duration_since, instant_elapsed};
use crate::text::{append_str, chars_of, decimal, push_decimal, string_of, trim, trim_chars};

verus! {

/// How long a search may read output before it is stopped (30 s).
pub const SEARCH_TIMEOUT_NANOS: u128 = 30_000_000_000;

/// How often a search reports progress at most (500 ms).
pub const SEARCH_PROGRESS_NANOS: u128 = 500_000_000;

/// How the search command stands when no line came in time.
#[derive(Debug, Clone, Copy, PartialEq, Eq)]
pub enum ChildStatus {
    Exited,
    Running,
    Unknown,
}

/// What happened since the last step.
#[derive(Debug, Clone)]
pub enum StreamEvent {
    /// A line of output was read.
    Line(String),
    /// The path of the pending line does not exist.
    PathMissing,
    /// The pending path's metadata was loaded and kept as a result.
    InfoLoaded,
    /// Loading the pending path's metadata failed.
    InfoFailed,
    /// The output ended.
    EndOfOutput,
    /// Reading the output failed.
    ReadFailed,
    /// No line came within the read timeout.
    ReadTimedOut(ChildStatus),
}

/// What to do next.
#[derive(Debug, Clone)]
pub enum StreamAction {
    /// Send the progress message, if any, then read the next line.
    ReadNext(Option<String>),
    /// Check that the path exists and, if it does, load its metadata.
    CheckPath(String),
    /// Send the progress message, if any, then stop the command and hand
    /// over the results.
    Finish(Option<String>),
}

/// A step's action, with its texts as character sequences.
pub enum StreamActionModel {
    ReadNext(Option<Seq<char>>),
    CheckPath(Seq<char>),
    Finish(Option<Seq<char>>),
}

pub open spec fn opt_text(o: Option<String>) -> Option<Seq<char>> {
    match o {
        Some(s) => Some(s@),
        None => None,
    }
}

impl View for StreamAction {
    type V = StreamActionModel;

    open spec fn view(&self) -> StreamActionModel {
        match self {
            StreamAction::ReadNext(p) => StreamActionModel::ReadNext(opt_text(*p)),
            StreamAction::CheckPath(p) => StreamActionModel::CheckPath(p@),
            StreamAction::Finish(p) => StreamActionModel::Finish(opt_text(*p)),
        }
    }
}

/// The state of a search reading its command's output.
#[derive(Debug)]
pub struct SearchStream {
    /// When reading began.
    pub started_at: Instant,
    /// When progress was last reported (at first: when reading began).
    pub last_progress: Instant,
    /// Non-blank lines read.
    pub processed: u64,
    /// Missing paths, failed loads and failed reads.
    pub errors: u64,
    /// Results kept.
    pub found: u64,
    /// Whether a line's path is being checked.
    pub awaiting_path: bool,
}

/// Whether reading has gone on for longer than the search timeout.
pub open spec fn timed_out(s: SearchStream, now: Instant) -> bool {
    duration_as_nanos(instant_elapsed(now, s.started_at)) > SEARCH_TIMEOUT_NANOS
}

/// Whether progress is due: at least the progress interval after the last
/// report.
pub open spec fn progress_due(s: SearchStream, now: Instant) -> bool {
    duration_as_nanos(instant_elapsed(now, s.last_progress)) >= SEARCH_PROGRESS_NANOS
}

/// The progress message.
pub open spec fn progress_text(s: SearchStream) -> Seq<char> {
    "Found "@ + decimal(s.found as nat) + " matches (processed "@ + decimal(s.processed as nat) + ", "@
        + decimal(s.errors as nat) + " errors)"@
}

/// Read on unless the search has timed out.
pub open spec fn read_or_finish(s: SearchStream, now: Instant, progress: Option<Seq<char>>) -> StreamActionModel {
    if timed_out(s, now) {
        StreamActionModel::Finish(progress)
    } else {
        StreamActionModel::ReadNext(progress)
    }
}

/// The state with one more error and no pending path.
pub open spec fn with_error(s: SearchStream) -> SearchStream {
    SearchStream { errors: (s.errors + 1) as u64, awaiting_path: false, ..s }
}

/// The next state and action after `e` at `now`.
pub open spec fn step_spec(s: SearchStream, e: StreamEvent, now: Instant) -> (SearchStream, StreamActionModel) {
    match e {
        StreamEvent::Line(t) => if trim(t@).len() == 0 {
            (s, read_or_finish(s, now, None))
        } else {
            (
                SearchStream { processed: (s.processed + 1) as u64, awaiting_path: true, ..s },
                StreamActionModel::CheckPath(trim(t@)),
            )
        },
        StreamEvent::PathMissing | StreamEvent::InfoFailed => (
            with_error(s),
            read_or_finish(with_error(s), now, None),
        ),
        StreamEvent::InfoLoaded => {
            let n = SearchStream { found: (s.found + 1) as u64, awaiting_path: false, ..s };
            if progress_due(s, now) {
                let r = SearchStream { last_progress: now, ..n };
                (r, read_or_finish(r, now, Some(progress_text(r))))
            } else {
                (n, read_or_finish(n, now, None))
            }
        },
        StreamEvent::EndOfOutput => (s, StreamActionModel::Finish(None)),
        StreamEvent::ReadFailed => (with_error(s), StreamActionModel::Finish(None)),
        StreamEvent::ReadTimedOut(c) => match c {
            ChildStatus::Running => (s, read_or_finish(s, now, None)),
            _ => (s, StreamActionModel::Finish(None)),
        },
    }
}

/// Whether an event can come in the state: the outcome of a path check
/// only while one is pending, anything else only while none is.
pub open spec fn event_expected(s: SearchStream, e: StreamEvent) -> bool {
    match e {
        StreamEvent::PathMissing | StreamEvent::InfoLoaded | StreamEvent::InfoFailed => s.awaiting_path,
        _ => !s.awaiting_path,
    }
}

/// The counters have room for one more step.
pub open spec fn counters_bounded(s: SearchStream) -> bool {
    s.processed < u64::MAX && s.errors < u64::MAX && s.found < u64::MAX
}

/// Every result kept, and the pending line, was counted as processed.
pub open spec fn stream_consistent(s: SearchStream) -> bool {
    s.found + (if s.awaiting_path { 1int } else { 0int }) <= s.processed
}

impl SearchStream {
    /// A stream that begins reading at `now`.
    pub fn new(now: Instant) -> (r: Self)
        ensures
            r.started_at == now,
            r.last_progress == now,
            r.processed == 0,
            r.errors == 0,
            r.found == 0,
            !r.awaiting_path,
    {
        SearchStream { started_at: now, last_progress: now, processed: 0, errors: 0, found: 0, awaiting_path: false }
    }

    /// The progress message of the current counts.
    pub fn progress_message(&self) -> (r: String)
        ensures
            r@ == progress_text(*self),
    {
        let mut out: Vec<char> = chars_of("Found ");
        push_decimal(&mut out, self.found);
        append_str(&mut out, " matches (processed ");
        push_decimal(&mut out, self.processed);
        append_str(&mut out, ", ");
        push_decimal(&mut out, self.errors);
        append_str(&mut out, " errors)");
        string_of(out.as_slice())
    }

    fn read_or_finish(&self, now: &Instant, progress: Option<String>) -> (r: StreamAction)
        ensures
            r@ == read_or_finish(*self, *now, opt_text(progress)),
    {
        let elapsed: Duration = instant_duration_since(now, &self.started_at);
        if duration_nanos(&elapsed) > SEARCH_TIMEOUT_NANOS {
            StreamAction::Finish(progress)
        } else {
            StreamAction::ReadNext(progress)
        }
    }

    /// Takes in what happened at `now` and decides what to do next.
    pub fn step(&mut self, event: StreamEvent, now: Instant) -> (r: StreamAction)
        requires
            event_expected(*old(self), event),
            counters_bounded(*old(self)),
        ensures
            (*final(self), r@) == step_spec(*old(self), event, now),
    {
        match event {
            StreamEvent::Line(t) => {
                let cs = chars_of(t.as_str());
                let tr = trim_chars(cs.as_slice());
                if tr.len() == 0 {
                    self.read_or_finish(&now, None)
                } else {
                    self.processed = self.processed + 1;
                    self.awaiting_path = true;
                    StreamAction::CheckPath(string_of(tr.as_slice()))
                }
            },
            StreamEvent::PathMissing | StreamEvent::InfoFailed => {
                self.errors = self.errors + 1;
                self.awaiting_path = false;
                self.read_or_finish(&now, None)
            },
            StreamEvent::InfoLoaded => {
                self.found = self.found + 1;
                self.awaiting_path = false;
                let since: Duration = instant_duration_since(&now, &self.last_progress);
                if duration_nanos(&since) >= SEARCH_PROGRESS_NANOS {
                    self.last_progress = now;
                    let msg = self.progress_message();
                    self.read_or_finish(&now, Some(msg))
                } else {
                    self.read_or_finish(&now, None)
                }
            },
            StreamEvent::EndOfOutput => StreamAction::Finish(None),
            StreamEvent::ReadFailed => {
                self.errors = self.errors + 1;
                self.awaiting_path = false;
                StreamAction::Finish(None)
            },
            StreamEvent::ReadTimedOut(c) => match c {
                ChildStatus::Running => self.read_or_finish(&now, None),
                _ => StreamAction::Finish(None),
            },
        }
    }
}

/// Every step keeps the results and the pending line within the lines
/// processed, and no counter ever goes down.
pub proof fn law_stream_counts_consistent(s: SearchStream, e: StreamEvent, now: Instant)
    requires
        stream_consistent(s),
        event_expected(s, e),
        counters_bounded(s),
    ensures
        stream_consistent(step_spec(s, e, now).0),
        step_spec(s, e, now).0.processed >= s.processed,
        step_spec(s, e, now).0.errors >= s.errors,
        step_spec(s, e, now).0.found >= s.found,
{
}

/// How a finished search is rated by its duration: over 5 s slow, over 1 s
/// moderate, otherwise fast.
pub open spec fn performance_category_spec(nanos: u128) -> Seq<char> {
    if nanos > 5_000_000_000 {
        "slow"@
    } else if nanos > 1_000_000_000 {
        "moderate"@
    } else {
        "fast"@
    }
}

/// Rates a finished search by how long it took.
pub fn performance_category(elapsed: &Duration) -> (r: &'static str)
    ensures
        r@ == performance_category_spec(duration_as_nanos(*elapsed)),
{
    let n = duration_nanos(elapsed);
    if n > 5_000_000_000 {
        "slow"
    } else if n > 1_000_000_000 {
        "moderate"
    } else {
        "fast"
    }
}

/// What `{:?}` renders for a duration (such as `1.5s` or `250ms`).
pub uninterp spec fn duration_debug(d: Duration) -> Seq<char>;

/// Renders a duration with `Debug`, as `format!("{:?}", d)` does.
#[verifier::external_body]
fn duration_debug_text(d: &Duration) -> (r: String)
    ensures
        r@ == duration_debug(*d),
{
    format!("{:?}", d)
}

/// The message of a finished search.
pub open spec fn completion_text(found: u64, elapsed: Duration, processed: u64, errors: u64) -> Seq<char> {
    "Found "@ + decimal(found as nat) + " matches in "@ + duration_debug(elapsed) + " (processed "@ + decimal(
        processed as nat,
    ) + " entries, "@ + decimal(errors as nat) + " errors)"@
}

/// The message that reports a finished search.
pub fn completion_message(found: u64, elapsed: &Duration, processed: u64, errors: u64) -> (r: String)
    ensures
        r@ == completion_text(found, *elapsed, processed, errors),
{
    let mut out: Vec<char> = chars_of("Found ");
    push_decimal(&mut out, found);
    append_str(&mut out, " matches in ");
    let d = duration_debug_text(elapsed);
    append_str(&mut out, d.as_str());
    append_str(&mut out, " (processed ");
    push_decimal(&mut out, processed);
    append_str(&mut out, " entries, ");
    push_decimal(&mut out, errors);
    append_str(&mut out, " errors)");
    string_of(out.as_slice())
}

} // verus!
