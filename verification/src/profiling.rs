//! Profiling data records and the pure analyses over them: lock-ordering
//! warnings and function names recovered from type names.
use vstd::prelude::*;
use vstd::string::StrSliceExecFns;
use std::time::Instant;
use crate::text::{append_chars, chars_contains, chars_of, contains, decimal, push_decimal, string_of};

verus! {

/// Custom profiling event
#[derive(Debug, Clone)]
pub struct CustomEvent {
    pub timestamp: u64,
    pub name: String,
    pub duration_ms: u64,
    pub metadata: Option<String>,
    pub category: String,
}

/// Metrics for individual async tasks
#[derive(Debug)]
pub struct TaskMetrics {
    pub task_id: String,
    pub operation_type: String,
    pub started_at: Instant,
    pub spawn_location: Option<String>,
}

/// Supported export formats
#[derive(Debug, Clone, PartialEq, Eq)]
pub enum ExportFormat {
    Json,
    Csv,
    Flamegraph,
}

/// Data exporter utility
pub struct DataExporter;

/// Profiled async operations utilities
pub struct AsyncOps;

/// No-op scope for when profiling is disabled
pub struct NoOpScope;

/// Arc monitoring utility functions
pub struct ArcMonitor;

/// The warning for a UI lock followed by an FS lock within a second.
pub open spec fn ordering_warning(a: (Seq<char>, u64), b: (Seq<char>, u64)) -> Option<Seq<char>> {
    let gap: nat = if b.1 >= a.1 {
        (b.1 - a.1) as nat
    } else {
        0
    };
    if contains(a.0, "ui"@) && contains(b.0, "fs"@) && gap < 1000 {
        Some("Potential deadlock pattern: "@ + a.0 + " -> "@ + b.0 + " within "@ + decimal(gap)
            + "ms"@)
    } else {
        None
    }
}

/// Warnings for each consecutive pair of operations, in order.
pub open spec fn ordering_warnings(ops: Seq<(Seq<char>, u64)>) -> Seq<Seq<char>>
    decreases ops.len(),
{
    if ops.len() < 2 {
        Seq::empty()
    } else {
        let w = ordering_warnings(ops.drop_last());
        match ordering_warning(ops[ops.len() - 2], ops[ops.len() - 1]) {
            Some(m) => w.push(m),
            None => w,
        }
    }
}

/// Only a lock whose name holds "ui" taken directly before one whose name
/// holds "fs" can raise a warning: a pair in any other order (an FS lock
/// before a UI lock, say) never does, and a run of operations without such a
/// pair gives no warning at all. There is at most one warning per
/// consecutive pair.
pub proof fn law_warnings_need_ui_then_fs(ops: Seq<(Seq<char>, u64)>)
    ensures
        forall|a: (Seq<char>, u64), b: (Seq<char>, u64)|
            #[trigger] ordering_warning(a, b) is Some ==> contains(a.0, "ui"@) && contains(b.0, "fs"@),
        forall|a: (Seq<char>, u64), b: (Seq<char>, u64)|
            (contains(a.0, "ui"@) && contains(b.0, "fs"@) && b.1 >= a.1 && b.1 - a.1 < 1000)
                ==> #[trigger] ordering_warning(a, b) is Some,
        (forall|i: int| 0 <= i < ops.len() - 1 ==> !(contains(#[trigger] ops[i].0, "ui"@) && contains(ops[i + 1].0, "fs"@)))
            ==> ordering_warnings(ops).len() == 0,
        ops.len() > 0 ==> ordering_warnings(ops).len() < ops.len(),
        ops.len() == 0 ==> ordering_warnings(ops).len() == 0,
    decreases ops.len(),
{
    if ops.len() >= 2 {
        let front = ops.drop_last();
        law_warnings_need_ui_then_fs(front);
        if forall|i: int| 0 <= i < ops.len() - 1 ==> !(contains(#[trigger] ops[i].0, "ui"@) && contains(ops[i + 1].0, "fs"@)) {
            assert forall|i: int| 0 <= i < front.len() - 1 implies !(contains(#[trigger] front[i].0, "ui"@)
                && contains(front[i + 1].0, "fs"@)) by {
                assert(front[i] == ops[i]);
                assert(front[i + 1] == ops[i + 1]);
                assert(!(contains(ops[i].0, "ui"@) && contains(ops[i + 1].0, "fs"@)));
            }
            let k = ops.len() - 2;
            assert(!(contains(ops[k].0, "ui"@) && contains(ops[k + 1].0, "fs"@)));
        }
    }
}

pub open spec fn op_views(ops: Seq<(String, u64)>) -> Seq<(Seq<char>, u64)> {
    ops.map_values(|o: (String, u64)| (o.0@, o.1))
}

impl ArcMonitor {
    /// Detect potential deadlock patterns by analyzing lock ordering
    pub fn analyze_lock_ordering(operations: &[(String, u64)]) -> (r: Vec<String>)
        ensures
            crate::text::string_views(r@) == ordering_warnings(op_views(operations@)),
            (forall|i: int|
                0 <= i < operations@.len() - 1 ==> !(contains(#[trigger] operations@[i].0@, "ui"@) && contains(
                    operations@[i + 1].0@,
                    "fs"@,
                ))) ==> r@.len() == 0,
            operations@.len() > 0 ==> r@.len() < operations@.len(),
    {
        proof {
            let vs = op_views(operations@);
            law_warnings_need_ui_then_fs(vs);
            if forall|i: int|
                0 <= i < operations@.len() - 1 ==> !(contains(#[trigger] operations@[i].0@, "ui"@) && contains(
                    operations@[i + 1].0@,
                    "fs"@,
                )) {
                assert forall|i: int| 0 <= i < vs.len() - 1 implies !(contains(#[trigger] vs[i].0, "ui"@)
                    && contains(vs[i + 1].0, "fs"@)) by {
                    assert(vs[i].0 == operations@[i].0@);
                    assert(vs[i + 1].0 == operations@[i + 1].0@);
                }
            }
        }
        let mut warnings: Vec<String> = Vec::new();
        let n = operations.len();
        let ui = chars_of("ui");
        let fs = chars_of("fs");
        if n < 2 {
            assert(crate::text::string_views(warnings@) =~= ordering_warnings(op_views(operations@)));
            return warnings;
        }
        let mut i: usize = 1;
        assert(crate::text::string_views(warnings@) =~= ordering_warnings(op_views(operations@).take(1)));
        while i < n
            invariant
                n == operations@.len(),
                1 <= i <= n,
                ui@ == "ui"@,
                fs@ == "fs"@,
                crate::text::string_views(warnings@) == ordering_warnings(
                    op_views(operations@).take(i as int),
                ),
            decreases n - i,
        {
            let ghost vs = op_views(operations@);
            let (op1, t1) = (&operations[i - 1].0, operations[i - 1].1);
            let (op2, t2) = (&operations[i].0, operations[i].1);
            let c1 = chars_of(op1.as_str());
            let c2 = chars_of(op2.as_str());
            let gap: u64 = if t2 >= t1 {
                t2 - t1
            } else {
                0
            };
            assert(vs.take(i + 1).drop_last() =~= vs.take(i as int));
            assert(vs.take(i + 1)[i - 1] == vs[i - 1]);
            assert(vs[i - 1] == (op1@, t1));
            assert(vs[i as int] == (op2@, t2));
            if chars_contains(c1.as_slice(), ui.as_slice()) && chars_contains(
                c2.as_slice(),
                fs.as_slice(),
            ) && gap < 1000 {
                let mut m: Vec<char> = chars_of("Potential deadlock pattern: ");
                append_chars(&mut m, c1.as_slice());
                append_chars(&mut m, chars_of(" -> ").as_slice());
                append_chars(&mut m, c2.as_slice());
                append_chars(&mut m, chars_of(" within ").as_slice());
                push_decimal(&mut m, gap);
                append_chars(&mut m, chars_of("ms").as_slice());
                let ghost before = crate::text::string_views(warnings@);
                warnings.push(string_of(m.as_slice()));
                assert(crate::text::string_views(warnings@) =~= before.push(m@));
            }
            i = i + 1;
        }
        assert(op_views(operations@).take(n as int) =~= op_views(operations@));
        warnings
    }
}

/// Where the segments produced by `split("::")` would make the last segment
/// start, scanning matches left to right without overlap from position `i`.
pub open spec fn last_segment_start(s: Seq<char>, i: int, start: int) -> int
    decreases s.len() - i,
{
    if i + 2 <= s.len() && s[i] == ':' && s[i + 1] == ':' {
        last_segment_start(s, i + 2, i + 2)
    } else if i < s.len() {
        last_segment_start(s, i + 1, start)
    } else {
        start
    }
}

/// The name without a trailing `::f`.
pub open spec fn without_f_suffix(s: Seq<char>) -> Seq<char> {
    if s.len() >= 3 && s.subrange(s.len() - 3, s.len() as int) == "::f"@ {
        s.subrange(0, s.len() - 3)
    } else {
        s
    }
}

/// The function name within the type name of a nested item `f`: the type
/// name without a trailing `::f`, then its last `::`-separated segment.
pub open spec fn function_name_spec(qualified_name: Seq<char>) -> Seq<char> {
    let s = without_f_suffix(qualified_name);
    s.subrange(last_segment_start(s, 0, 0), s.len() as int)
}

/// Recovers a function name from the type name of an item `f` declared in
/// its body (the computation behind the `current_function!` helper).
pub fn current_function_name(qualified_name: &str) -> (r: &str)
    ensures
        r@ == function_name_spec(qualified_name@),
{
    let cs = chars_of(qualified_name);
    let n = cs.len();
    proof {
        reveal_strlit("::f");
    }
    let end: usize = if n >= 3 && cs[n - 3] == ':' && cs[n - 2] == ':' && cs[n - 1] == 'f' {
        assert(cs@.subrange(n - 3, n as int) =~= "::f"@);
        n - 3
    } else {
        proof {
            if n >= 3 {
                assert(cs@.subrange(n - 3, n as int)[0] == cs@[n - 3]);
                assert(cs@.subrange(n - 3, n as int)[1] == cs@[n - 2]);
                assert(cs@.subrange(n - 3, n as int)[2] == cs@[n - 1]);
            }
        }
        n
    };
    let ghost s = without_f_suffix(qualified_name@);
    assert(s =~= cs@.subrange(0, end as int));
    let mut i: usize = 0;
    let mut start: usize = 0;
    while i < end
        invariant
            end <= n == cs@.len(),
            s == cs@.subrange(0, end as int),
            start <= i <= end,
            last_segment_start(s, 0, 0) == last_segment_start(s, i as int, start as int),
        decreases end - i,
    {
        if end - i >= 2 && cs[i] == ':' && cs[i + 1] == ':' {
            i = i + 2;
            start = i;
        } else {
            i = i + 1;
        }
    }
    qualified_name.substring_char(start, end)
}

/* ========================= Contention report ========================= */

/// How contended the locks were, as the caller rated its measured rate:
/// under 5 % low, under 15 % moderate, otherwise high.
#[derive(Debug, Clone, Copy, PartialEq, Eq)]
pub enum ContentionLevel {
    Low,
    Moderate,
    High,
}

/// The report line of a lock access pattern.
pub open spec fn pattern_line(p: (String, u64)) -> Seq<char> {
    p.0@ + ": "@ + decimal(p.1 as nat) + " accesses"@
}

/// Pattern `i` is listed before pattern `j`: more accesses first, ties in
/// the order given.
pub open spec fn ranked_before(ps: Seq<(String, u64)>, i: int, j: int) -> bool {
    ps[i].1 > ps[j].1 || (ps[i].1 == ps[j].1 && i < j)
}

/// `perm` lists the patterns' positions in report order.
pub open spec fn is_access_ranking(ps: Seq<(String, u64)>, perm: Seq<int>) -> bool {
    &&& crate::fs_state::is_index_permutation(perm, ps.len() as int)
    &&& forall|a: int, b: int| 0 <= a < b < ps.len() ==> ranked_before(ps, #[trigger] perm[a], #[trigger] perm[b])
}

/// `lines` are the patterns' report lines in report order.
pub open spec fn ranked_lines(ps: Seq<(String, u64)>, lines: Seq<Seq<char>>) -> bool {
    exists|perm: Seq<int>|
        #[trigger] is_access_ranking(ps, perm) && lines.len() == ps.len() && forall|k: int|
            0 <= k < lines.len() ==> lines[k] == pattern_line(ps[perm[k]])
}

/// The verdict line of a contention level.
pub open spec fn contention_verdict(level: ContentionLevel) -> Seq<char> {
    match level {
        ContentionLevel::Low => "✅ Low contention rate - Arc architecture working well\n"@,
        ContentionLevel::Moderate => "⚠️  Moderate contention rate - monitor for issues\n"@,
        ContentionLevel::High => "❌ High contention rate - Arc architecture may need optimization\n"@,
    }
}

/// The verdict line of the lock wait time.
pub open spec fn wait_verdict(fast_locks: bool) -> Seq<char> {
    if fast_locks {
        "✅ Fast lock acquisition times\n"@
    } else {
        "⚠️  Slow lock acquisition times\n"@
    }
}

/// The contention report: counters, the rate (printed twice) and wait
/// time as the caller rendered them, the access patterns in report order,
/// and the verdicts.
pub open spec fn contention_report_text(
    lock_acquisitions: u64,
    contention_events: u64,
    rate_text: Seq<char>,
    wait_text: Seq<char>,
    near_misses: u64,
    lines: Seq<Seq<char>>,
    level: ContentionLevel,
    fast_locks: bool,
) -> Seq<char> {
    "=== Arc Contention Report ===\n"@ + "Total lock acquisitions: "@ + decimal(lock_acquisitions as nat) + "\n"@
        + "Contention events: "@ + decimal(contention_events as nat) + "\n"@ + "Contention rate: "@ + rate_text
        + "%\n"@ + "Average wait time: "@ + wait_text + "ms\n"@ + "Contention rate: "@ + rate_text + "%\n"@
        + "Deadlock near misses: "@ + decimal(near_misses as nat) + "\n"@ + "\n=== Access Patterns ===\n"@
        + lines_text(lines) + "\n=== Crisis #2 Validation ===\n"@ + contention_verdict(level) + wait_verdict(
        fast_locks,
    )
}

impl ArcMonitor {
    /// The access-pattern lines of the report: most accesses first, ties
    /// in the order given.
    pub fn access_pattern_lines(patterns: &[(String, u64)]) -> (r: Vec<String>)
        ensures
            ranked_lines(patterns@, crate::text::string_views(r@)),
    {
        let n = patterns.len();
        let mut keys: Vec<(u64, usize)> = Vec::new();
        let mut i: usize = 0;
        while i < n
            invariant
                n == patterns@.len(),
                i <= n,
                keys@.len() == i,
                forall|k: int|
                    0 <= k < i ==> (#[trigger] keys@[k]).1 == k && keys@[k].0 == u64::MAX - patterns@[k].1,
            decreases n - i,
        {
            keys.push((u64::MAX - patterns[i].1, i));
            i = i + 1;
        }
        let sorted = crate::stable_sort::sort_pairs(keys.as_slice());
        proof {
            crate::fs_state::lemma_sorted_pairs_origin(keys@, sorted@);
        }
        let mut out: Vec<String> = Vec::new();
        let mut k: usize = 0;
        while k < n
            invariant
                n == patterns@.len(),
                n == sorted@.len(),
                k <= n,
                out@.len() == k,
                forall|j: int|
                    0 <= j < n ==> (#[trigger] sorted@[j]).1 < n && sorted@[j] == keys@[sorted@[j].1 as int],
                forall|j: int| 0 <= j < k ==> #[trigger] out@[j]@ == pattern_line(patterns@[sorted@[j].1 as int]),
            decreases n - k,
        {
            let idx = sorted[k].1;
            let (op, count) = &patterns[idx];
            let mut line: Vec<char> = chars_of(op.as_str());
            crate::text::append_str(&mut line, ": ");
            push_decimal(&mut line, *count);
            crate::text::append_str(&mut line, " accesses");
            out.push(string_of(line.as_slice()));
            k = k + 1;
        }
        proof {
            let perm = Seq::new(n as nat, |j: int| sorted@[j].1 as int);
            assert(crate::fs_state::is_index_permutation(perm, n as int));
            assert forall|a: int, b: int| 0 <= a < b < n implies ranked_before(
                patterns@,
                #[trigger] perm[a],
                #[trigger] perm[b],
            ) by {
                assert(crate::stable_sort::le_pair(sorted@[a], sorted@[b]));
            }
            assert(is_access_ranking(patterns@, perm));
            let lines = crate::text::string_views(out@);
            assert forall|j: int| 0 <= j < lines.len() implies lines[j] == pattern_line(patterns@[perm[j]]) by {}
        }
        out
    }

    /// The lock contention report. The rate and wait time are measured in
    /// floating point by the caller, which renders them and rates them.
    pub fn generate_contention_report(
        lock_acquisitions: u64,
        contention_events: u64,
        rate_text: &str,
        wait_text: &str,
        near_misses: u64,
        patterns: &[(String, u64)],
        level: ContentionLevel,
        fast_locks: bool,
    ) -> (r: String)
        ensures
            exists|lines: Seq<Seq<char>>|
                ranked_lines(patterns@, lines) && r@ == contention_report_text(
                    lock_acquisitions,
                    contention_events,
                    rate_text@,
                    wait_text@,
                    near_misses,
                    lines,
                    level,
                    fast_locks,
                ),
    {
        let mut out: Vec<char> = chars_of("=== Arc Contention Report ===\n");
        crate::text::append_str(&mut out, "Total lock acquisitions: ");
        push_decimal(&mut out, lock_acquisitions);
        crate::text::append_str(&mut out, "\n");
        crate::text::append_str(&mut out, "Contention events: ");
        push_decimal(&mut out, contention_events);
        crate::text::append_str(&mut out, "\n");
        crate::text::append_str(&mut out, "Contention rate: ");
        crate::text::append_str(&mut out, rate_text);
        crate::text::append_str(&mut out, "%\n");
        crate::text::append_str(&mut out, "Average wait time: ");
        crate::text::append_str(&mut out, wait_text);
        crate::text::append_str(&mut out, "ms\n");
        crate::text::append_str(&mut out, "Contention rate: ");
        crate::text::append_str(&mut out, rate_text);
        crate::text::append_str(&mut out, "%\n");
        crate::text::append_str(&mut out, "Deadlock near misses: ");
        push_decimal(&mut out, near_misses);
        crate::text::append_str(&mut out, "\n");
        crate::text::append_str(&mut out, "\n=== Access Patterns ===\n");
        let lines = Self::access_pattern_lines(patterns);
        let section = DataExporter::lines_document(&lines);
        crate::text::append_str(&mut out, section.as_str());
        crate::text::append_str(&mut out, "\n=== Crisis #2 Validation ===\n");
        match level {
            ContentionLevel::Low => crate::text::append_str(
                &mut out,
                "✅ Low contention rate - Arc architecture working well\n",
            ),
            ContentionLevel::Moderate => crate::text::append_str(
                &mut out,
                "⚠️  Moderate contention rate - monitor for issues\n",
            ),
            ContentionLevel::High => crate::text::append_str(
                &mut out,
                "❌ High contention rate - Arc architecture may need optimization\n",
            ),
        }
        if fast_locks {
            crate::text::append_str(&mut out, "✅ Fast lock acquisition times\n");
        } else {
            crate::text::append_str(&mut out, "⚠️  Slow lock acquisition times\n");
        }
        let ghost lv = crate::text::string_views(lines@);
        assert(out@ =~= contention_report_text(
            lock_acquisitions,
            contention_events,
            rate_text@,
            wait_text@,
            near_misses,
            lv,
            level,
            fast_locks,
        ));
        string_of(out.as_slice())
    }

    /// Whether the locks are healthy: low contention, fast acquisitions and
    /// no deadlock near miss.
    pub fn is_arc_healthy(level: ContentionLevel, fast_locks: bool, near_misses: u64) -> (r: bool)
        ensures
            r == (level == ContentionLevel::Low && fast_locks && near_misses == 0),
    {
        match level {
            ContentionLevel::Low => fast_locks && near_misses == 0,
            _ => false,
        }
    }
}

/* ========================= Export formats ============================ */

/// The columns of the CSV export.
pub open spec fn csv_columns() -> Seq<Seq<char>> {
    seq!["timestamp"@, "event_type"@, "name"@, "duration_ms"@, "category"@, "metadata"@,
        "system_memory_mb"@, "system_cpu_percent"@, "process_memory_mb"@, "arc_lock_acquisitions"@,
        "arc_contention_events"@, "arc_avg_wait_ms"@, "async_tasks_completed"@, "async_avg_task_ms"@]
}

/// Eight empty cells: the system columns that an event row leaves blank.
pub open spec fn blank_system_cells() -> Seq<Seq<char>> {
    Seq::new(8, |i: int| Seq::<char>::empty())
}

/// The CSV row of a custom event.
pub open spec fn custom_event_row(e: CustomEvent) -> Seq<Seq<char>> {
    seq![decimal(e.timestamp as nat), "custom_event"@, e.name@, decimal(e.duration_ms as nat), e.category@,
        match e.metadata {
            Some(m) => m@,
            None => Seq::empty(),
        }] + blank_system_cells()
}

/// The CSV row of a lock operation and how often it was seen.
pub open spec fn arc_operation_row(timestamp: u64, operation: Seq<char>, count: u64) -> Seq<Seq<char>> {
    seq![decimal(timestamp as nat), "arc_operation"@, operation, "0"@, "arc_pattern"@,
        "access_count:"@ + decimal(count as nat)] + blank_system_cells()
}

/// One async operation type and its statistics, the average already
/// rendered as text and cut to a whole number by the caller.
#[derive(Debug, Clone)]
pub struct OperationCells {
    pub op_type: String,
    pub avg_time_ms: String,
    pub avg_time_whole: u64,
    pub count: u64,
    pub max_time_ms: u64,
    pub min_time_ms: u64,
}

/// What the exports show of a profiling snapshot: counters as integers,
/// each measured average or percentage already rendered as text (and, where
/// the folded stacks need it, cut to a whole number) by the caller, and the
/// lock access patterns and async operation types in the order in which
/// the caller walked them.
#[derive(Debug, Clone)]
pub struct SnapshotCells {
    pub timestamp: u64,
    pub memory_used_mb: u64,
    pub cpu_usage_percent: String,
    pub cpu_usage_whole: u64,
    pub process_memory_mb: u64,
    pub lock_acquisitions: u64,
    pub contention_events: u64,
    pub avg_wait_time_ms: String,
    pub avg_wait_time_whole: u64,
    pub tasks_completed: u64,
    pub avg_task_time_ms: String,
    pub custom_events: Vec<CustomEvent>,
    pub access_patterns: Vec<(String, u64)>,
    pub operations: Vec<OperationCells>,
}

/// The CSV row of the system metrics of a snapshot.
pub open spec fn system_metrics_row(s: SnapshotCells) -> Seq<Seq<char>> {
    seq![decimal(s.timestamp as nat), "system_metrics"@, "system_snapshot"@, "0"@, "system"@,
        Seq::<char>::empty(), decimal(s.memory_used_mb as nat), s.cpu_usage_percent@,
        decimal(s.process_memory_mb as nat), decimal(s.lock_acquisitions as nat),
        decimal(s.contention_events as nat), s.avg_wait_time_ms@, decimal(s.tasks_completed as nat),
        s.avg_task_time_ms@]
}

/// The statistics cell of an async operation type.
pub open spec fn operation_stats_cell(op: OperationCells) -> Seq<char> {
    "count:"@ + decimal(op.count as nat) + ",max:"@ + decimal(op.max_time_ms as nat) + ",min:"@
        + decimal(op.min_time_ms as nat)
}

/// The CSV row of an async operation type.
pub open spec fn async_operation_row(timestamp: u64, op: OperationCells) -> Seq<Seq<char>> {
    seq![decimal(timestamp as nat), "async_operation"@, op.op_type@, op.avg_time_ms@, "async_stats"@,
        operation_stats_cell(op)] + blank_system_cells()
}

/// The records of the CSV export: the header, the system metrics, then one
/// row per custom event, per lock access pattern and per async operation
/// type, each group in the order given.
pub open spec fn csv_table(s: SnapshotCells) -> Seq<Seq<Seq<char>>> {
    seq![csv_columns(), system_metrics_row(s)] + s.custom_events@.map_values(
        |e: CustomEvent| custom_event_row(e),
    ) + s.access_patterns@.map_values(|p: (String, u64)| arc_operation_row(s.timestamp, p.0@, p.1))
        + s.operations@.map_values(|o: OperationCells| async_operation_row(s.timestamp, o))
}

/// The text of lines, each followed by a newline.
pub open spec fn lines_text(lines: Seq<Seq<char>>) -> Seq<char>
    decreases lines.len(),
{
    if lines.len() == 0 {
        Seq::empty()
    } else {
        lines_text(lines.drop_last()) + lines.last() + "\n"@
    }
}

/// The folded-stack line of one async operation type.
pub open spec fn async_stack_line(op: OperationCells) -> Seq<char> {
    "async;"@ + op.op_type@ + " "@ + decimal(op.avg_time_whole as nat) + " "@ + decimal(op.count as nat)
}

/// The folded-stack lines of the lock counters: none without acquisitions,
/// the contention line only with contention events.
pub open spec fn lock_stack_lines(s: SnapshotCells) -> Seq<Seq<char>> {
    if s.lock_acquisitions > 0 {
        let first = "arc;lock_operations "@ + decimal(s.avg_wait_time_whole as nat) + " "@ + decimal(
            s.lock_acquisitions as nat,
        );
        if s.contention_events > 0 {
            seq![first, "arc;lock_operations;contention "@ + decimal(s.avg_wait_time_whole as nat) + " "@
                + decimal(s.contention_events as nat)]
        } else {
            seq![first]
        }
    } else {
        Seq::empty()
    }
}

/// The lines of the folded-stack export: system, locks, async operation
/// types in the order given, then the custom events per name.
pub open spec fn folded_lines(s: SnapshotCells) -> Seq<Seq<char>> {
    seq!["system;memory_usage "@ + decimal(s.memory_used_mb as nat) + " 1"@, "system;cpu_usage "@ + decimal(
        s.cpu_usage_whole as nat,
    ) + " 1"@] + lock_stack_lines(s) + s.operations@.map_values(|o: OperationCells| async_stack_line(o))
        + aggregate_spec(s.custom_events@).map_values(
        |a: (Seq<char>, nat, nat)| custom_stack_line(a.0, a.1, a.2),
    )
}

/// Every record of the CSV export has one field per column.
proof fn lemma_csv_table_width(s: SnapshotCells)
    ensures
        crate::csv_doc::uniform_width(csv_table(s)),
        csv_table(s)[0].len() == 14,
{
    let t = csv_table(s);
    let evs = s.custom_events@.map_values(|e: CustomEvent| custom_event_row(e));
    let arcs = s.access_patterns@.map_values(|p: (String, u64)| arc_operation_row(s.timestamp, p.0@, p.1));
    let ops = s.operations@.map_values(|o: OperationCells| async_operation_row(s.timestamp, o));
    assert forall|i: int| 0 <= i < t.len() implies #[trigger] t[i].len() == 14 by {
        if i >= 2 + evs.len() + arcs.len() {
            assert(t[i] == ops[i - 2 - evs.len() - arcs.len()]);
        } else if i >= 2 + evs.len() {
            assert(t[i] == arcs[i - 2 - evs.len()]);
        } else if i >= 2 {
            assert(t[i] == evs[i - 2]);
        }
    }
}

/// The file an export is written to.
pub open spec fn export_file_name_spec(format: ExportFormat, timestamp: u64) -> Seq<char> {
    match format {
        ExportFormat::Json => "profiling-"@ + decimal(timestamp as nat) + ".json"@,
        ExportFormat::Csv => "profiling-"@ + decimal(timestamp as nat) + ".csv"@,
        ExportFormat::Flamegraph => "flamegraph-"@ + decimal(timestamp as nat) + ".folded"@,
    }
}

/// Whether a file in the logs directory is one of the exports.
pub open spec fn is_export_name(name: Seq<char>) -> bool {
    crate::text::starts_with(name, "profiling-"@) || crate::text::starts_with(name, "arc-metrics-"@)
        || crate::text::starts_with(name, "flamegraph-"@)
}

/// The position of the entry named `name` in `acc`, or its length.
pub open spec fn entry_index(acc: Seq<(Seq<char>, nat, nat)>, name: Seq<char>) -> int
    decreases acc.len(),
{
    if acc.len() == 0 {
        0
    } else if acc.last().0 == name && entry_index(acc.drop_last(), name) == acc.len() - 1 {
        acc.len() - 1
    } else {
        entry_index(acc.drop_last(), name)
    }
}

/// The per-name totals of the events: one entry per distinct name, in the
/// order in which names first occur, with the summed duration and the
/// number of events.
pub open spec fn aggregate_spec(events: Seq<CustomEvent>) -> Seq<(Seq<char>, nat, nat)>
    decreases events.len(),
{
    if events.len() == 0 {
        Seq::empty()
    } else {
        let acc = aggregate_spec(events.drop_last());
        let e = events.last();
        let k = first_index_of(acc, e.name@);
        if k < acc.len() {
            acc.update(k, (acc[k].0, acc[k].1 + e.duration_ms as nat, acc[k].2 + 1nat))
        } else {
            acc.push((e.name@, e.duration_ms as nat, 1))
        }
    }
}

/// The first position in `acc` whose name is `name`, or its length.
pub open spec fn first_index_of(acc: Seq<(Seq<char>, nat, nat)>, name: Seq<char>) -> int {
    first_index_from(acc, name, 0)
}

pub open spec fn first_index_from(acc: Seq<(Seq<char>, nat, nat)>, name: Seq<char>, k: int) -> int
    decreases acc.len() - k,
{
    if k < 0 || k >= acc.len() {
        acc.len() as int
    } else if acc[k].0 == name {
        k
    } else {
        first_index_from(acc, name, k + 1)
    }
}

/// Whether every per-name total fits in 64 bits.
pub open spec fn totals_fit(events: Seq<CustomEvent>) -> bool {
    forall|i: int| 0 <= i < aggregate_spec(events).len() ==> #[trigger] aggregate_spec(events)[i].1 <= u64::MAX
}

pub open spec fn agg_view(v: Seq<(String, u64, u64)>) -> Seq<(Seq<char>, nat, nat)> {
    v.map_values(|t: (String, u64, u64)| (t.0@, t.1 as nat, t.2 as nat))
}

/// The folded-stack line of one event name: its average duration and count.
pub open spec fn custom_stack_line(name: Seq<char>, total: nat, count: nat) -> Seq<char> {
    "custom;"@ + name + " "@ + decimal(total / count) + " "@ + decimal(count)
}

proof fn lemma_first_index_bounds(acc: Seq<(Seq<char>, nat, nat)>, name: Seq<char>, k: int)
    requires
        0 <= k <= acc.len(),
    ensures
        k <= first_index_from(acc, name, k) <= acc.len(),
        first_index_from(acc, name, k) < acc.len() ==> acc[first_index_from(acc, name, k)].0 == name,
    decreases acc.len() - k,
{
    if k < acc.len() && acc[k].0 != name {
        lemma_first_index_bounds(acc, name, k + 1);
    }
}

/// Aggregating more events never lowers a total, and keeps every name.
proof fn lemma_aggregate_grows(events: Seq<CustomEvent>, j: int)
    requires
        0 <= j <= events.len(),
    ensures
        aggregate_spec(events.take(j)).len() <= aggregate_spec(events).len(),
        forall|i: int| 0 <= i < aggregate_spec(events.take(j)).len() ==> {
            &&& (#[trigger] aggregate_spec(events.take(j))[i]).0 == aggregate_spec(events)[i].0
            &&& aggregate_spec(events.take(j))[i].1 <= aggregate_spec(events)[i].1
        },
    decreases events.len() - j,
{
    if j == events.len() {
        assert(events.take(j) =~= events);
    } else {
        lemma_aggregate_grows(events, j + 1);
        let t = events.take(j + 1);
        assert(t.drop_last() =~= events.take(j));
        let acc = aggregate_spec(events.take(j));
        lemma_first_index_bounds(acc, t.last().name@, 0);
        assert forall|i: int| 0 <= i < acc.len() implies aggregate_spec(t)[i].0 == acc[i].0 && acc[i].1
            <= aggregate_spec(t)[i].1 by {}
        assert forall|i: int| 0 <= i < acc.len() implies (#[trigger] acc[i]).0 == aggregate_spec(events)[i].0
            && acc[i].1 <= aggregate_spec(events)[i].1 by {
            assert(aggregate_spec(t)[i].0 == aggregate_spec(events)[i].0);
        }
    }
}

/// Every name of the aggregate has at least one event.
proof fn lemma_aggregate_counts(events: Seq<CustomEvent>)
    ensures
        forall|i: int| 0 <= i < aggregate_spec(events).len() ==> #[trigger] aggregate_spec(events)[i].2 >= 1,
    decreases events.len(),
{
    if events.len() > 0 {
        lemma_aggregate_counts(events.drop_last());
        let acc = aggregate_spec(events.drop_last());
        lemma_first_index_bounds(acc, events.last().name@, 0);
    }
}

/// The totals of events of the same name are summed in a `u64`.
fn find_entry(acc: &Vec<(String, u64, u64)>, name: &str) -> (r: usize)
    ensures
        r as int == first_index_of(agg_view(acc@), name@),
{
    let mut k: usize = 0;
    let nm = chars_of(name);
    while k < acc.len()
        invariant
            k <= acc.len(),
            nm@ == name@,
            first_index_from(agg_view(acc@), name@, 0) == first_index_from(agg_view(acc@), name@, k as int),
        decreases acc.len() - k,
    {
        let cur = chars_of(acc[k].0.as_str());
        if crate::text::chars_eq(cur.as_slice(), nm.as_slice()) {
            return k;
        }
        k = k + 1;
    }
    k
}

impl DataExporter {
    /// The header row of the CSV export.
    pub fn csv_header() -> (r: Vec<&'static str>)
        ensures
            r@.map_values(|s: &'static str| s@) == csv_columns(),
    {
        let v: Vec<&'static str> = vec!["timestamp", "event_type", "name", "duration_ms", "category", "metadata",
            "system_memory_mb", "system_cpu_percent", "process_memory_mb", "arc_lock_acquisitions",
            "arc_contention_events", "arc_avg_wait_ms", "async_tasks_completed", "async_avg_task_ms"];
        assert(v@.map_values(|s: &'static str| s@) =~= csv_columns());
        v
    }

    fn push_blank_cells(row: &mut Vec<String>)
        ensures
            crate::text::string_views(final(row)@) == crate::text::string_views(old(row)@) + blank_system_cells(),
    {
        let mut k: usize = 0;
        let ghost start = crate::text::string_views(row@);
        while k < 8
            invariant
                k <= 8,
                crate::text::string_views(row@) == start + Seq::new(k as nat, |i: int| Seq::<char>::empty()),
            decreases 8 - k,
        {
            let ghost before = row@;
            row.push(String::new());
            assert(crate::text::string_views(row@) =~= crate::text::string_views(before).push(Seq::<char>::empty()));
            assert(Seq::new(k as nat, |i: int| Seq::<char>::empty()).push(Seq::<char>::empty())
                =~= Seq::new((k + 1) as nat, |i: int| Seq::<char>::empty()));
            k = k + 1;
        }
    }

    fn text_of(s: &str) -> (r: String)
        ensures
            r@ == s@,
    {
        string_of(chars_of(s).as_slice())
    }

    fn decimal_text(n: u64) -> (r: String)
        ensures
            r@ == decimal(n as nat),
    {
        let mut v: Vec<char> = Vec::new();
        push_decimal(&mut v, n);
        string_of(v.as_slice())
    }

    /// The CSV row of a custom event; the system columns stay blank.
    pub fn custom_event_record(event: &CustomEvent) -> (r: Vec<String>)
        ensures
            crate::text::string_views(r@) == custom_event_row(*event),
    {
        let mut row: Vec<String> = Vec::new();
        row.push(Self::decimal_text(event.timestamp));
        row.push(Self::text_of("custom_event"));
        row.push(Self::text_of(event.name.as_str()));
        row.push(Self::decimal_text(event.duration_ms));
        row.push(Self::text_of(event.category.as_str()));
        match &event.metadata {
            Some(m) => row.push(Self::text_of(m.as_str())),
            None => row.push(String::new()),
        }
        let ghost head = row@;
        Self::push_blank_cells(&mut row);
        assert(crate::text::string_views(head) =~= seq![decimal(event.timestamp as nat), "custom_event"@,
            event.name@, decimal(event.duration_ms as nat), event.category@,
            match event.metadata {
                Some(m) => m@,
                None => Seq::<char>::empty(),
            }]);
        row
    }

    /// The CSV row of a lock operation seen `count` times.
    pub fn arc_operation_record(timestamp: u64, operation: &str, count: u64) -> (r: Vec<String>)
        ensures
            crate::text::string_views(r@) == arc_operation_row(timestamp, operation@, count),
    {
        let mut row: Vec<String> = Vec::new();
        row.push(Self::decimal_text(timestamp));
        row.push(Self::text_of("arc_operation"));
        row.push(Self::text_of(operation));
        row.push(Self::text_of("0"));
        row.push(Self::text_of("arc_pattern"));
        let mut cell: Vec<char> = chars_of("access_count:");
        push_decimal(&mut cell, count);
        row.push(string_of(cell.as_slice()));
        let ghost head = row@;
        Self::push_blank_cells(&mut row);
        assert(crate::text::string_views(head) =~= seq![decimal(timestamp as nat), "arc_operation"@,
            operation@, "0"@, "arc_pattern"@, "access_count:"@ + decimal(count as nat)]);
        row
    }

    /// The CSV row of the system metrics of a snapshot.
    pub fn system_metrics_record(s: &SnapshotCells) -> (r: Vec<String>)
        ensures
            crate::text::string_views(r@) == system_metrics_row(*s),
    {
        let mut row: Vec<String> = Vec::new();
        row.push(Self::decimal_text(s.timestamp));
        row.push(Self::text_of("system_metrics"));
        row.push(Self::text_of("system_snapshot"));
        row.push(Self::text_of("0"));
        row.push(Self::text_of("system"));
        row.push(String::new());
        row.push(Self::decimal_text(s.memory_used_mb));
        row.push(Self::text_of(s.cpu_usage_percent.as_str()));
        row.push(Self::decimal_text(s.process_memory_mb));
        row.push(Self::decimal_text(s.lock_acquisitions));
        row.push(Self::decimal_text(s.contention_events));
        row.push(Self::text_of(s.avg_wait_time_ms.as_str()));
        row.push(Self::decimal_text(s.tasks_completed));
        row.push(Self::text_of(s.avg_task_time_ms.as_str()));
        assert(crate::text::string_views(row@) =~= system_metrics_row(*s));
        row
    }

    /// The CSV row of an async operation type.
    pub fn async_operation_record(timestamp: u64, op: &OperationCells) -> (r: Vec<String>)
        ensures
            crate::text::string_views(r@) == async_operation_row(timestamp, *op),
    {
        let mut row: Vec<String> = Vec::new();
        row.push(Self::decimal_text(timestamp));
        row.push(Self::text_of("async_operation"));
        row.push(Self::text_of(op.op_type.as_str()));
        row.push(Self::text_of(op.avg_time_ms.as_str()));
        row.push(Self::text_of("async_stats"));
        let mut cell: Vec<char> = chars_of("count:");
        push_decimal(&mut cell, op.count);
        crate::text::append_str(&mut cell, ",max:");
        push_decimal(&mut cell, op.max_time_ms);
        crate::text::append_str(&mut cell, ",min:");
        push_decimal(&mut cell, op.min_time_ms);
        assert(cell@ =~= operation_stats_cell(*op));
        row.push(string_of(cell.as_slice()));
        let ghost head = row@;
        Self::push_blank_cells(&mut row);
        assert(crate::text::string_views(head) =~= seq![decimal(timestamp as nat), "async_operation"@,
            op.op_type@, op.avg_time_ms@, "async_stats"@, operation_stats_cell(*op)]);
        row
    }

    /// The header row of the CSV export, as owned strings.
    fn header_record() -> (r: Vec<String>)
        ensures
            crate::text::string_views(r@) == csv_columns(),
    {
        let names = Self::csv_header();
        let mut row: Vec<String> = Vec::new();
        let mut i: usize = 0;
        while i < names.len()
            invariant
                i <= names@.len(),
                names@.map_values(|s: &'static str| s@) == csv_columns(),
                crate::text::string_views(row@) == csv_columns().take(i as int),
            decreases names@.len() - i,
        {
            let ghost before = row@;
            row.push(Self::text_of(names[i]));
            assert(names@.map_values(|s: &'static str| s@)[i as int] == names@[i as int]@);
            assert(crate::text::string_views(row@) =~= crate::text::string_views(before).push(
                names@[i as int]@,
            ));
            assert(csv_columns().take(i + 1) =~= csv_columns().take(i as int).push(csv_columns()[i as int]));
            i = i + 1;
        }
        assert(csv_columns().take(14) =~= csv_columns());
        row
    }

    /// All records of the CSV export of a snapshot.
    pub fn csv_records(s: &SnapshotCells) -> (r: Vec<Vec<String>>)
        ensures
            crate::csv_doc::records_view(r@) == csv_table(*s),
    {
        let mut out: Vec<Vec<String>> = Vec::new();
        out.push(Self::header_record());
        out.push(Self::system_metrics_record(s));
        let ghost head = seq![csv_columns(), system_metrics_row(*s)];
        assert(crate::csv_doc::records_view(out@) =~= head);
        let ghost evs = s.custom_events@.map_values(|e: CustomEvent| custom_event_row(e));
        let mut i: usize = 0;
        while i < s.custom_events.len()
            invariant
                i <= s.custom_events@.len(),
                evs == s.custom_events@.map_values(|e: CustomEvent| custom_event_row(e)),
                crate::csv_doc::records_view(out@) == head + evs.take(i as int),
            decreases s.custom_events@.len() - i,
        {
            let ghost before = out@;
            out.push(Self::custom_event_record(&s.custom_events[i]));
            assert(crate::csv_doc::records_view(out@) =~= crate::csv_doc::records_view(before).push(evs[i as int]));
            assert(evs.take(i + 1) =~= evs.take(i as int).push(evs[i as int]));
            i = i + 1;
        }
        assert(evs.take(s.custom_events@.len() as int) =~= evs);
        let ghost arcs = s.access_patterns@.map_values(
            |p: (String, u64)| arc_operation_row(s.timestamp, p.0@, p.1),
        );
        let mut j: usize = 0;
        while j < s.access_patterns.len()
            invariant
                j <= s.access_patterns@.len(),
                arcs == s.access_patterns@.map_values(|p: (String, u64)| arc_operation_row(s.timestamp, p.0@, p.1)),
                crate::csv_doc::records_view(out@) == head + evs + arcs.take(j as int),
            decreases s.access_patterns@.len() - j,
        {
            let ghost before = out@;
            let (op, count) = &s.access_patterns[j];
            out.push(Self::arc_operation_record(s.timestamp, op.as_str(), *count));
            assert(crate::csv_doc::records_view(out@) =~= crate::csv_doc::records_view(before).push(arcs[j as int]));
            assert(arcs.take(j + 1) =~= arcs.take(j as int).push(arcs[j as int]));
            j = j + 1;
        }
        assert(arcs.take(s.access_patterns@.len() as int) =~= arcs);
        let ghost ops = s.operations@.map_values(|o: OperationCells| async_operation_row(s.timestamp, o));
        let mut k: usize = 0;
        while k < s.operations.len()
            invariant
                k <= s.operations@.len(),
                ops == s.operations@.map_values(|o: OperationCells| async_operation_row(s.timestamp, o)),
                crate::csv_doc::records_view(out@) == head + evs + arcs + ops.take(k as int),
            decreases s.operations@.len() - k,
        {
            let ghost before = out@;
            out.push(Self::async_operation_record(s.timestamp, &s.operations[k]));
            assert(crate::csv_doc::records_view(out@) =~= crate::csv_doc::records_view(before).push(ops[k as int]));
            assert(ops.take(k + 1) =~= ops.take(k as int).push(ops[k as int]));
            k = k + 1;
        }
        assert(ops.take(s.operations@.len() as int) =~= ops);
        out
    }

    /// The CSV export of a snapshot: its records written as one document.
    pub fn export_csv_document(s: &SnapshotCells) -> (r: Vec<u8>)
        ensures
            r@ == crate::csv_doc::csv_document(csv_table(*s)),
    {
        let records = Self::csv_records(s);
        proof {
            lemma_csv_table_width(*s);
        }
        match crate::csv_doc::encode_records(&records) {
            Some(b) => b,
            None => {
                assert(false);
                Vec::new()
            },
        }
    }

    /// The lines joined, each followed by a newline.
    fn lines_document(lines: &Vec<String>) -> (r: String)
        ensures
            r@ == lines_text(crate::text::string_views(lines@)),
    {
        let mut out: Vec<char> = Vec::new();
        let mut i: usize = 0;
        let ghost lv = crate::text::string_views(lines@);
        while i < lines.len()
            invariant
                i <= lines@.len(),
                lv == crate::text::string_views(lines@),
                out@ == lines_text(lv.take(i as int)),
            decreases lines@.len() - i,
        {
            crate::text::append_str(&mut out, lines[i].as_str());
            crate::text::append_str(&mut out, "\n");
            assert(lv.take(i + 1).drop_last() =~= lv.take(i as int));
            i = i + 1;
        }
        assert(lv.take(lines@.len() as int) =~= lv);
        string_of(out.as_slice())
    }

    /// The folded-stack export of a snapshot, one line per stack.
    pub fn export_flamegraph_text(s: &SnapshotCells) -> (r: String)
        requires
            totals_fit(s.custom_events@),
            s.custom_events@.len() <= u64::MAX,
        ensures
            r@ == lines_text(folded_lines(*s)),
    {
        let mut lines: Vec<String> = Vec::new();
        let mut l1: Vec<char> = chars_of("system;memory_usage ");
        push_decimal(&mut l1, s.memory_used_mb);
        crate::text::append_str(&mut l1, " 1");
        lines.push(string_of(l1.as_slice()));
        let mut l2: Vec<char> = chars_of("system;cpu_usage ");
        push_decimal(&mut l2, s.cpu_usage_whole);
        crate::text::append_str(&mut l2, " 1");
        lines.push(string_of(l2.as_slice()));
        let ghost head = seq!["system;memory_usage "@ + decimal(s.memory_used_mb as nat) + " 1"@,
            "system;cpu_usage "@ + decimal(s.cpu_usage_whole as nat) + " 1"@];
        assert(crate::text::string_views(lines@) =~= head);
        if s.lock_acquisitions > 0 {
            let mut l3: Vec<char> = chars_of("arc;lock_operations ");
            push_decimal(&mut l3, s.avg_wait_time_whole);
            crate::text::append_str(&mut l3, " ");
            push_decimal(&mut l3, s.lock_acquisitions);
            let ghost b3 = lines@;
            lines.push(string_of(l3.as_slice()));
            assert(crate::text::string_views(lines@) =~= crate::text::string_views(b3).push(l3@));
            if s.contention_events > 0 {
                let mut l4: Vec<char> = chars_of("arc;lock_operations;contention ");
                push_decimal(&mut l4, s.avg_wait_time_whole);
                crate::text::append_str(&mut l4, " ");
                push_decimal(&mut l4, s.contention_events);
                let ghost b4 = lines@;
                lines.push(string_of(l4.as_slice()));
                assert(crate::text::string_views(lines@) =~= crate::text::string_views(b4).push(l4@));
            }
        }
        assert(crate::text::string_views(lines@) =~= head + lock_stack_lines(*s));
        let ghost pre = head + lock_stack_lines(*s);
        let ghost ops = s.operations@.map_values(|o: OperationCells| async_stack_line(o));
        let mut k: usize = 0;
        while k < s.operations.len()
            invariant
                k <= s.operations@.len(),
                ops == s.operations@.map_values(|o: OperationCells| async_stack_line(o)),
                crate::text::string_views(lines@) == pre + ops.take(k as int),
            decreases s.operations@.len() - k,
        {
            let op = &s.operations[k];
            let mut l: Vec<char> = chars_of("async;");
            crate::text::append_str(&mut l, op.op_type.as_str());
            crate::text::append_str(&mut l, " ");
            push_decimal(&mut l, op.avg_time_whole);
            crate::text::append_str(&mut l, " ");
            push_decimal(&mut l, op.count);
            let ghost before = lines@;
            lines.push(string_of(l.as_slice()));
            assert(l@ =~= ops[k as int]);
            assert(crate::text::string_views(lines@) =~= crate::text::string_views(before).push(ops[k as int]));
            assert(ops.take(k + 1) =~= ops.take(k as int).push(ops[k as int]));
            k = k + 1;
        }
        assert(ops.take(s.operations@.len() as int) =~= ops);
        let custom = Self::custom_stack_lines(s.custom_events.as_slice());
        let ghost agg = aggregate_spec(s.custom_events@).map_values(
            |a: (Seq<char>, nat, nat)| custom_stack_line(a.0, a.1, a.2),
        );
        assert(crate::text::string_views(custom@) =~= agg);
        let ghost mid = pre + ops;
        let mut c: usize = 0;
        while c < custom.len()
            invariant
                c <= custom@.len(),
                crate::text::string_views(custom@) == agg,
                crate::text::string_views(lines@) == mid + agg.take(c as int),
            decreases custom@.len() - c,
        {
            let ghost before = lines@;
            lines.push(Self::text_of(custom[c].as_str()));
            assert(crate::text::string_views(custom@)[c as int] == custom@[c as int]@);
            assert(crate::text::string_views(lines@) =~= crate::text::string_views(before).push(agg[c as int]));
            assert(agg.take(c + 1) =~= agg.take(c as int).push(agg[c as int]));
            c = c + 1;
        }
        assert(agg.take(custom@.len() as int) =~= agg);
        assert(crate::text::string_views(lines@) =~= folded_lines(*s));
        Self::lines_document(&lines)
    }

    /// The name of the file an export of `format` taken at `timestamp` goes to.
    pub fn export_file_name(format: &ExportFormat, timestamp: u64) -> (r: String)
        ensures
            r@ == export_file_name_spec(*format, timestamp),
    {
        let mut out: Vec<char> = Vec::new();
        match format {
            ExportFormat::Json => {
                crate::text::append_str(&mut out, "profiling-");
                push_decimal(&mut out, timestamp);
                crate::text::append_str(&mut out, ".json");
            },
            ExportFormat::Csv => {
                crate::text::append_str(&mut out, "profiling-");
                push_decimal(&mut out, timestamp);
                crate::text::append_str(&mut out, ".csv");
            },
            ExportFormat::Flamegraph => {
                crate::text::append_str(&mut out, "flamegraph-");
                push_decimal(&mut out, timestamp);
                crate::text::append_str(&mut out, ".folded");
            },
        }
        string_of(out.as_slice())
    }

    /// Whether a file name is that of an export.
    pub fn is_export_file_name(name: &str) -> (r: bool)
        ensures
            r == is_export_name(name@),
    {
        let n = chars_of(name);
        crate::text::chars_starts_with(n.as_slice(), chars_of("profiling-").as_slice())
            || crate::text::chars_starts_with(n.as_slice(), chars_of("arc-metrics-").as_slice())
            || crate::text::chars_starts_with(n.as_slice(), chars_of("flamegraph-").as_slice())
    }

    /// Sums the durations and counts the events of each name, names in the
    /// order in which they first occur.
    pub fn aggregate_custom_events(events: &[CustomEvent]) -> (r: Vec<(String, u64, u64)>)
        requires
            totals_fit(events@),
            events@.len() <= u64::MAX,
        ensures
            agg_view(r@) == aggregate_spec(events@),
    {
        let mut acc: Vec<(String, u64, u64)> = Vec::new();
        let mut i: usize = 0;
        while i < events.len()
            invariant
                i <= events.len() <= u64::MAX,
                totals_fit(events@),
                agg_view(acc@) == aggregate_spec(events@.take(i as int)),
                forall|j: int| 0 <= j < acc@.len() ==> #[trigger] acc@[j].2 <= i,
            decreases events.len() - i,
        {
            let e = &events[i];
            let ghost t = events@.take(i + 1);
            assert(t.drop_last() =~= events@.take(i as int));
            assert(t.last() == events@[i as int]);
            proof {
                lemma_aggregate_grows(events@, i + 1);
                lemma_first_index_bounds(agg_view(acc@), e.name@, 0);
            }
            let k = find_entry(&acc, e.name.as_str());
            if k < acc.len() {
                assert(aggregate_spec(t)[k as int].1 == acc@[k as int].1 + e.duration_ms);
                assert(aggregate_spec(events@.take(i + 1))[k as int].0 == aggregate_spec(events@)[k as int].0);
                assert(aggregate_spec(t)[k as int].1 <= aggregate_spec(events@)[k as int].1);
                assert(aggregate_spec(events@)[k as int].1 <= u64::MAX);
                let nm = acc[k].0.clone();
                let tot = acc[k].1;
                let cnt = acc[k].2;
                let ghost before = acc@;
                acc.set(k, (nm, tot + e.duration_ms, cnt + 1));
                assert(agg_view(acc@) =~= agg_view(before).update(
                    k as int,
                    (before[k as int].0@, (before[k as int].1 + e.duration_ms) as nat, (before[k as int].2 + 1) as nat),
                ));
            } else {
                let ghost before = acc@;
                let nm = Self::text_of(e.name.as_str());
                acc.push((nm, e.duration_ms, 1));
                assert(agg_view(acc@) =~= agg_view(before).push((e.name@, e.duration_ms as nat, 1nat)));
            }
            i = i + 1;
        }
        assert(events@.take(events.len() as int) =~= events@);
        acc
    }

    /// The folded-stack lines of the custom events: per name, the average
    /// duration (rounded down) and the number of events.
    pub fn custom_stack_lines(events: &[CustomEvent]) -> (r: Vec<String>)
        requires
            totals_fit(events@),
            events@.len() <= u64::MAX,
        ensures
            r@.len() == aggregate_spec(events@).len(),
            forall|i: int| 0 <= i < r@.len() ==> #[trigger] r@[i]@ == custom_stack_line(
                aggregate_spec(events@)[i].0,
                aggregate_spec(events@)[i].1,
                aggregate_spec(events@)[i].2,
            ),
    {
        let agg = Self::aggregate_custom_events(events);
        proof {
            lemma_aggregate_counts(events@);
            assert forall|j: int| 0 <= j < agg@.len() implies #[trigger] agg@[j].2 >= 1 by {
                assert(agg_view(agg@)[j].2 == agg@[j].2 as nat);
            }
        }
        let mut out: Vec<String> = Vec::new();
        let mut i: usize = 0;
        while i < agg.len()
            invariant
                i <= agg.len(),
                agg_view(agg@) == aggregate_spec(events@),
                out@.len() == i,
                forall|j: int| 0 <= j < i ==> #[trigger] out@[j]@ == custom_stack_line(
                    aggregate_spec(events@)[j].0,
                    aggregate_spec(events@)[j].1,
                    aggregate_spec(events@)[j].2,
                ),
                forall|j: int| 0 <= j < agg@.len() ==> #[trigger] agg@[j].2 >= 1,
            decreases agg.len() - i,
        {
            let (nm, tot, cnt) = &agg[i];
            let mut line: Vec<char> = chars_of("custom;");
            crate::text::append_str(&mut line, nm.as_str());
            crate::text::append_str(&mut line, " ");
            push_decimal(&mut line, *tot / *cnt);
            crate::text::append_str(&mut line, " ");
            push_decimal(&mut line, *cnt);
            out.push(string_of(line.as_slice()));
            i = i + 1;
        }
        out
    }
}

} // verus!
