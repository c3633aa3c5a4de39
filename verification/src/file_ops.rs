//! Descriptions of filesystem operations and of the external filename search.
use vstd::prelude::*;
use std::path::PathBuf;
use std::sync::Arc;
use crate::text::{append_str, chars_of, push_decimal, string_of, decimal, trim};
use crate::debounce::{duration_as_nanos, duration_nanos, instant_duration_since, instant_elapsed};
use std::time::Instant;

verus! {

/* ======================= Path rendering ============================= */

/// What `Path::display` renders for a path, as text. Named: the platform's
/// path encoding is not modelled.
pub uninterp spec fn path_display(p: PathBuf) -> Seq<char>;

/// Calls `Path::display` and collects the rendering into a `String`.
#[verifier::external_body]
pub(crate) fn path_display_text(p: &PathBuf) -> (r: String)
    ensures
        r@ == path_display(*p),
{
    p.display().to_string()
}

/* ===================== Filesystem operations ======================== */

/// How a directory scan proceeds.
#[derive(Debug, Clone)]
pub enum ScanMode {
    /// Fast scan with light metadata only
    Fast,
    /// Streaming scan with progress updates every `batch_size` entries
    Streaming { batch_size: usize },
    /// Quick display first, metadata in the background
    TwoPhase,
}

/// A background filesystem operation.
#[derive(Debug, Clone)]
pub enum FileSystemOperation {
    Delete { path: PathBuf },
    CreateFile { path: PathBuf },
    CreateDirectory { path: PathBuf },
    Rename { source: PathBuf, new_name: String },
    ScanDirectory { path: PathBuf, show_hidden: bool, scan_mode: ScanMode },
}

pub open spec fn operation_name_spec(op: FileSystemOperation) -> &'static str {
    match op {
        FileSystemOperation::CreateFile { .. } => "create_file",
        FileSystemOperation::CreateDirectory { .. } => "create_directory",
        FileSystemOperation::Rename { .. } => "rename",
        FileSystemOperation::Delete { .. } => "delete",
        FileSystemOperation::ScanDirectory { scan_mode, .. } => match scan_mode {
            ScanMode::Fast => "scan_directory_fast",
            ScanMode::Streaming { .. } => "scan_directory_streaming",
            ScanMode::TwoPhase => "scan_directory_two_phase",
        },
    }
}

pub open spec fn primary_path_spec(op: FileSystemOperation) -> PathBuf {
    match op {
        FileSystemOperation::CreateFile { path } => path,
        FileSystemOperation::CreateDirectory { path } => path,
        FileSystemOperation::Rename { source, .. } => source,
        FileSystemOperation::Delete { path } => path,
        FileSystemOperation::ScanDirectory { path, .. } => path,
    }
}

/// The debug rendering of a scan mode.
pub open spec fn scan_mode_text(m: ScanMode) -> Seq<char> {
    match m {
        ScanMode::Fast => "Fast"@,
        ScanMode::Streaming { batch_size } => "Streaming { batch_size: "@ + decimal(batch_size as nat)
            + " }"@,
        ScanMode::TwoPhase => "TwoPhase"@,
    }
}

/// The one-line description of an operation.
pub open spec fn describe_spec(op: FileSystemOperation) -> Seq<char> {
    match op {
        FileSystemOperation::Delete { path } => "Delete("@ + path_display(path) + ")"@,
        FileSystemOperation::CreateFile { path } => "CreateFile("@ + path_display(path) + ")"@,
        FileSystemOperation::CreateDirectory { path } => "CreateDirectory("@ + path_display(path)
            + ")"@,
        FileSystemOperation::Rename { source, new_name } => "Rename("@ + path_display(source)
            + " -> "@ + new_name@ + ")"@,
        FileSystemOperation::ScanDirectory { path, show_hidden, scan_mode } => "ScanDirectory("@
            + path_display(path) + ", hidden: "@ + (if show_hidden {
            "true"@
        } else {
            "false"@
        }) + ", mode: "@ + scan_mode_text(scan_mode) + ")"@,
    }
}

impl FileSystemOperation {
    /// The operation's name, as used in logs.
    pub fn operation_name(&self) -> (r: &'static str)
        ensures
            r == operation_name_spec(*self),
    {
        match self {
            FileSystemOperation::CreateFile { .. } => "create_file",
            FileSystemOperation::CreateDirectory { .. } => "create_directory",
            FileSystemOperation::Rename { .. } => "rename",
            FileSystemOperation::Delete { .. } => "delete",
            FileSystemOperation::ScanDirectory { scan_mode, .. } => match scan_mode {
                ScanMode::Fast => "scan_directory_fast",
                ScanMode::Streaming { .. } => "scan_directory_streaming",
                ScanMode::TwoPhase => "scan_directory_two_phase",
            },
        }
    }

    /// The path the operation works on (the source, for a rename).
    pub fn primary_path(&self) -> (r: &PathBuf)
        ensures
            *r == primary_path_spec(*self),
    {
        match self {
            FileSystemOperation::CreateFile { path } => path,
            FileSystemOperation::CreateDirectory { path } => path,
            FileSystemOperation::Rename { source, .. } => source,
            FileSystemOperation::Delete { path } => path,
            FileSystemOperation::ScanDirectory { path, .. } => path,
        }
    }

    /// A one-line description such as `Rename(/a -> b)`.
    pub fn describe(&self) -> (r: String)
        ensures
            r@ == describe_spec(*self),
    {
        let mut out: Vec<char> = Vec::new();
        match self {
            FileSystemOperation::Delete { path } => {
                append_str(&mut out, "Delete(");
                let p = path_display_text(path);
                append_str(&mut out, p.as_str());
                append_str(&mut out, ")");
            },
            FileSystemOperation::CreateFile { path } => {
                append_str(&mut out, "CreateFile(");
                let p = path_display_text(path);
                append_str(&mut out, p.as_str());
                append_str(&mut out, ")");
            },
            FileSystemOperation::CreateDirectory { path } => {
                append_str(&mut out, "CreateDirectory(");
                let p = path_display_text(path);
                append_str(&mut out, p.as_str());
                append_str(&mut out, ")");
            },
            FileSystemOperation::Rename { source, new_name } => {
                append_str(&mut out, "Rename(");
                let p = path_display_text(source);
                append_str(&mut out, p.as_str());
                append_str(&mut out, " -> ");
                append_str(&mut out, new_name.as_str());
                append_str(&mut out, ")");
            },
            FileSystemOperation::ScanDirectory { path, show_hidden, scan_mode } => {
                append_str(&mut out, "ScanDirectory(");
                let p = path_display_text(path);
                append_str(&mut out, p.as_str());
                append_str(&mut out, ", hidden: ");
                if *show_hidden {
                    append_str(&mut out, "true");
                } else {
                    append_str(&mut out, "false");
                }
                append_str(&mut out, ", mode: ");
                match scan_mode {
                    ScanMode::Fast => append_str(&mut out, "Fast"),
                    ScanMode::Streaming { batch_size } => {
                        append_str(&mut out, "Streaming { batch_size: ");
                        push_decimal(&mut out, *batch_size as u64);
                        append_str(&mut out, " }");
                    },
                    ScanMode::TwoPhase => append_str(&mut out, "TwoPhase"),
                }
                append_str(&mut out, ")");
            },
        }
        string_of(out.as_slice())
    }
}

/* ========================= File transfers =========================== */

/// A copy, move or rename run as a background task.
#[derive(Debug, Clone)]
pub enum FileOperation {
    Copy { source: Arc<PathBuf>, dest: Arc<PathBuf> },
    Move { source: Arc<PathBuf>, dest: Arc<PathBuf> },
    Rename { source: Arc<PathBuf>, new_name: String },
}

pub open spec fn file_operation_label(op: FileOperation) -> &'static str {
    match op {
        FileOperation::Copy { .. } => "Copy",
        FileOperation::Move { .. } => "Move",
        FileOperation::Rename { .. } => "Rename",
    }
}

impl FileOperation {
    /// The operation's kind as shown to the user.
    pub fn label(&self) -> (r: &'static str)
        ensures
            r == file_operation_label(*self),
    {
        match self {
            FileOperation::Copy { .. } => "Copy",
            FileOperation::Move { .. } => "Move",
            FileOperation::Rename { .. } => "Rename",
        }
    }
}

/* ======================= Filename search ============================ */

/// One argument of the external search command: a literal, or the
/// directory that is searched.
#[derive(Debug, Clone, PartialEq, Eq)]
pub enum CommandArg {
    Literal(String),
    SearchPath,
}

pub open spec fn arg_view(a: CommandArg) -> Option<Seq<char>> {
    match a {
        CommandArg::Literal(s) => Some(s@),
        CommandArg::SearchPath => None,
    }
}

pub open spec fn args_view(v: Seq<CommandArg>) -> Seq<Option<Seq<char>>> {
    v.map_values(|a: CommandArg| arg_view(a))
}

/// The arguments given to `fd`: files and directories, hidden ones too,
/// following links, matching the pattern case-sensitively under the path.
pub open spec fn fd_args(pattern: Seq<char>) -> Seq<Option<Seq<char>>> {
    seq![Some("--type"@), Some("f"@), Some("--type"@), Some("d"@), Some("--hidden"@),
        Some("--follow"@), Some("--case-sensitive"@), Some(pattern), None]
}

/// The arguments given to `find`: files and directories under the path
/// whose name contains the pattern, ignoring case.
pub open spec fn find_args(pattern: Seq<char>) -> Seq<Option<Seq<char>>> {
    seq![None, Some("("@), Some("-type"@), Some("f"@), Some("-o"@), Some("-type"@), Some("d"@),
        Some(")"@), Some("-iname"@), Some("*"@ + pattern + "*"@)]
}

/// The external search commands, most preferred first.
pub open spec fn search_candidates() -> Seq<Seq<char>> {
    seq!["fd"@, "find"@]
}

/// Background search for files whose names match a pattern, run through
/// `fd` or, failing that, `find`.
pub struct FilenameSearchTask;

fn literal(s: &str) -> (a: CommandArg)
    ensures
        arg_view(a) == Some(s@),
{
    CommandArg::Literal(string_of(chars_of(s).as_slice()))
}

impl FilenameSearchTask {
    /// A pattern is searched for only when it holds more than whitespace.
    pub fn pattern_is_valid(pattern: &str) -> (r: bool)
        ensures
            r == (trim(pattern@).len() > 0),
    {
        let cs = chars_of(pattern);
        let t = crate::text::trim_chars(cs.as_slice());
        t.len() > 0
    }

    /// The commands to try, most preferred first.
    pub fn search_command_candidates() -> (r: Vec<&'static str>)
        ensures
            r@.len() == 2,
            r@[0]@ == search_candidates()[0],
            r@[1]@ == search_candidates()[1],
    {
        let mut v: Vec<&'static str> = Vec::new();
        v.push("fd");
        v.push("find");
        v
    }

    /// The arguments for running `command` to search for `pattern`; `None`
    /// for a command other than `fd` and `find`.
    pub fn search_command_args(command: &str, pattern: &str) -> (r: Option<Vec<CommandArg>>)
        ensures
            command@ == "fd"@ ==> r is Some && args_view(r->0@) == fd_args(pattern@),
            command@ == "find"@ ==> r is Some && args_view(r->0@) == find_args(pattern@),
            command@ != "fd"@ && command@ != "find"@ ==> r is None,
    {
        proof {
            reveal_strlit("fd");
            reveal_strlit("find");
            assert("fd"@.len() == 2);
            assert("find"@.len() == 4);
        }
        let cmd = chars_of(command);
        let fd = chars_of("fd");
        let find = chars_of("find");
        if crate::text::chars_eq(cmd.as_slice(), fd.as_slice()) {
            let mut v: Vec<CommandArg> = Vec::new();
            v.push(literal("--type"));
            v.push(literal("f"));
            v.push(literal("--type"));
            v.push(literal("d"));
            v.push(literal("--hidden"));
            v.push(literal("--follow"));
            v.push(literal("--case-sensitive"));
            v.push(literal(pattern));
            v.push(CommandArg::SearchPath);
            assert(args_view(v@) =~= fd_args(pattern@));
            Some(v)
        } else if crate::text::chars_eq(cmd.as_slice(), find.as_slice()) {
            let mut v: Vec<CommandArg> = Vec::new();
            v.push(CommandArg::SearchPath);
            v.push(literal("("));
            v.push(literal("-type"));
            v.push(literal("f"));
            v.push(literal("-o"));
            v.push(literal("-type"));
            v.push(literal("d"));
            v.push(literal(")"));
            v.push(literal("-iname"));
            let mut glob: Vec<char> = Vec::new();
            append_str(&mut glob, "*");
            append_str(&mut glob, pattern);
            append_str(&mut glob, "*");
            v.push(CommandArg::Literal(string_of(glob.as_slice())));
            assert(args_view(v@) =~= find_args(pattern@));
            Some(v)
        } else {
            None
        }
    }
}

/* ========================= Directory scans =========================== */

/// A hidden entry: its name starts with a dot.
pub open spec fn is_hidden_spec(name: Seq<char>) -> bool {
    name.len() > 0 && name[0] == '.'
}

/// Whether a scan keeps an entry: always when hidden entries are shown,
/// otherwise unless its (readable) name is hidden.
pub open spec fn keeps_entry_spec(file_name: Option<Seq<char>>, show_hidden: bool) -> bool {
    show_hidden || match file_name {
        Some(n) => !is_hidden_spec(n),
        None => true,
    }
}

/// A name is hidden exactly when it starts with a dot: a scan that hides
/// hidden entries keeps every name whose first character is not '.', and
/// drops every other name; a scan that shows them keeps everything.
pub proof fn law_hidden_means_leading_dot(name: Seq<char>, show_hidden: bool)
    ensures
        is_hidden_spec(name) <==> (name.len() > 0 && name[0] == '.'),
        keeps_entry_spec(Some(name), false) <==> (name.len() == 0 || name[0] != '.'),
        keeps_entry_spec(Some(name), true),
        keeps_entry_spec(None, show_hidden),
{
}

/// Whether a name is that of a hidden entry.
pub fn is_hidden_name(name: &str) -> (r: bool)
    ensures
        r == is_hidden_spec(name@),
        r == (name@.len() > 0 && name@[0] == '.'),
{
    let cs = chars_of(name);
    cs.len() > 0 && cs[0] == '.'
}

/// Whether a directory scan keeps an entry with the given file name.
pub fn keeps_entry(file_name: Option<&str>, show_hidden: bool) -> (r: bool)
    ensures
        r == keeps_entry_spec(
            match file_name {
                Some(n) => Some(n@),
                None => None,
            },
            show_hidden,
        ),
        show_hidden ==> r,
        file_name is None ==> r,
        file_name matches Some(n) ==> (r == (show_hidden || n@.len() == 0 || n@[0] != '.')),
{
    proof {
        if let Some(n) = file_name {
            law_hidden_means_leading_dot(n@, show_hidden);
        }
    }
    if show_hidden {
        return true;
    }
    match file_name {
        Some(n) => !is_hidden_name(n),
        None => true,
    }
}

/// Whether a streaming scan reports progress after `processed` entries:
/// after every `batch_size` of them.
pub fn is_batch_boundary(processed: usize, batch_size: usize) -> (r: bool)
    requires
        batch_size > 0,
    ensures
        r == (processed % batch_size == 0),
{
    processed % batch_size == 0
}

/// The progress message of a streaming scan.
pub fn scan_progress_message(processed: usize) -> (r: String)
    ensures
        r@ == "Scanned "@ + decimal(processed as nat) + " entries"@,
{
    let mut out: Vec<char> = Vec::new();
    append_str(&mut out, "Scanned ");
    push_decimal(&mut out, processed as u64);
    append_str(&mut out, " entries");
    string_of(out.as_slice())
}

/* ======================== Progress reports ========================== */

/// How often progress is reported at least, in nanoseconds (100 ms).
pub const PROGRESS_INTERVAL_NANOS: u128 = 100_000_000;

/// How many more bytes force a report (1 MiB).
pub const PROGRESS_BYTES_STEP: u64 = 1024 * 1024;

/// Whether progress is reported now: after at least a mebibyte more, or at
/// least 100 ms after the previous report.
pub open spec fn report_due(last_bytes: u64, last_at: Instant, current_bytes: u64, now: Instant) -> bool {
    (if current_bytes >= last_bytes { current_bytes - last_bytes } else { 0 }) >= PROGRESS_BYTES_STEP
        || duration_as_nanos(instant_elapsed(now, last_at)) >= PROGRESS_INTERVAL_NANOS
}

/// When the last progress report of a transfer was made, and at how many bytes.
pub struct ProgressGate {
    pub last_bytes: u64,
    pub last_at: Instant,
}

impl ProgressGate {
    /// A gate whose last report was at `now`, with nothing transferred.
    pub fn new(now: Instant) -> (r: Self)
        ensures
            r.last_bytes == 0,
            r.last_at == now,
    {
        ProgressGate { last_bytes: 0, last_at: now }
    }

    /// Decides whether to report progress at `current_bytes` and `now`; a
    /// report becomes the last one.
    pub fn should_report(&mut self, current_bytes: u64, now: Instant) -> (r: bool)
        ensures
            r == report_due(old(self).last_bytes, old(self).last_at, current_bytes, now),
            r ==> final(self).last_bytes == current_bytes && final(self).last_at == now,
            !r ==> final(self).last_bytes == old(self).last_bytes && final(self).last_at == old(self).last_at,
    {
        let delta = current_bytes.saturating_sub(self.last_bytes);
        let elapsed = instant_duration_since(&now, &self.last_at);
        if delta >= PROGRESS_BYTES_STEP || duration_nanos(&elapsed) >= PROGRESS_INTERVAL_NANOS {
            self.last_bytes = current_bytes;
            self.last_at = now;
            true
        } else {
            false
        }
    }
}

} // verus!
