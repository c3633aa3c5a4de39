//! Content search through ripgrep: the command line, and the parsing of its
//! output back into file locations.
use vstd::prelude::*;
use std::path::PathBuf;
use crate::file_ops::{CommandArg, args_view};
use crate::paths::{pathbuf_from, pathbuf_from_str};
use crate::text::{append_str, chars_of, push_decimal, string_of, trim, trim_chars, decimal, starts_with};

verus! {

/* ============================ Paths ================================== */

/// Whether a path is absolute (`Path::is_absolute`). Named: it depends on
/// the platform's path rules.
pub uninterp spec fn path_absolute(p: PathBuf) -> bool;

/// What `Path::join` builds from a base and a path.
pub uninterp spec fn path_joined(base: PathBuf, p: PathBuf) -> PathBuf;

/// Calls `Path::is_absolute`.
#[verifier::external_body]
pub(crate) fn path_is_absolute(p: &PathBuf) -> (r: bool)
    ensures
        r == path_absolute(*p),
{
    p.is_absolute()
}

/// Calls `Path::join`.
#[verifier::external_body]
pub(crate) fn path_join(base: &PathBuf, p: &PathBuf) -> (r: PathBuf)
    ensures
        r == path_joined(*base, *p),
{
    base.join(p)
}

/// An absolute path stays as it is; a relative one is taken below `base`.
pub open spec fn resolve_spec(p: PathBuf, base: PathBuf) -> PathBuf {
    if path_absolute(p) {
        p
    } else {
        path_joined(base, p)
    }
}

fn resolve(p: PathBuf, base: &PathBuf) -> (r: PathBuf)
    ensures
        r == resolve_spec(p, *base),
{
    if path_is_absolute(&p) {
        p
    } else {
        path_join(base, &p)
    }
}

/* ========================= ANSI escapes ============================== */

pub open spec fn esc() -> char {
    '\u{1b}'
}

/// `char::is_ascii_alphabetic`.
pub open spec fn is_ascii_alpha(c: char) -> bool {
    (65 <= c as u32 <= 90) || (97 <= c as u32 <= 122)
}

/// `char::is_ascii_digit`.
pub open spec fn is_ascii_digit(c: char) -> bool {
    48 <= c as u32 <= 57
}

/// The position just after the letter that ends an escape sequence whose
/// parameters start at `k`; the end of the text when no letter follows.
pub open spec fn csi_end(s: Seq<char>, k: int) -> int
    decreases s.len() - k,
{
    if k < 0 || k >= s.len() {
        s.len() as int
    } else if is_ascii_alpha(s[k]) {
        k + 1
    } else {
        csi_end(s, k + 1)
    }
}

/// The text from position `i` on without ANSI escapes: an escape character
/// followed by `[` drops everything up to and including the next ASCII
/// letter; an escape followed by anything else drops that one character.
pub open spec fn strip_from(s: Seq<char>, i: int) -> Seq<char>
    decreases s.len() - i,
{
    if i < 0 || i >= s.len() {
        Seq::empty()
    } else if s[i] == esc() {
        if i + 1 >= s.len() {
            Seq::empty()
        } else if s[i + 1] == '[' {
            let j = csi_end(s, i + 2);
            if i < j <= s.len() {
                strip_from(s, j)
            } else {
                Seq::empty()
            }
        } else {
            strip_from(s, i + 2)
        }
    } else {
        seq![s[i]] + strip_from(s, i + 1)
    }
}

pub open spec fn strip_ansi(s: Seq<char>) -> Seq<char> {
    strip_from(s, 0)
}

proof fn lemma_csi_end_bounds(s: Seq<char>, k: int)
    requires
        0 <= k,
    ensures
        k <= s.len() ==> k <= csi_end(s, k) <= s.len(),
        k > s.len() ==> csi_end(s, k) == s.len(),
    decreases s.len() - k,
{
    if k < s.len() && !is_ascii_alpha(s[k]) {
        lemma_csi_end_bounds(s, k + 1);
    }
}

/* ======================= Unsigned parsing ============================ */

/// The value of a run of decimal digits.
pub open spec fn digits_value(s: Seq<char>) -> nat
    decreases s.len(),
{
    if s.len() == 0 {
        0
    } else {
        digits_value(s.drop_last()) * 10 + ((s.last() as u32) - 48) as nat
    }
}

pub open spec fn all_digits(s: Seq<char>) -> bool {
    forall|i: int| 0 <= i < s.len() ==> #[trigger] is_ascii_digit(s[i])
}

/// `str::parse::<u32>`: an optional `+`, then one or more ASCII digits
/// whose value fits in 32 bits.
pub open spec fn parse_u32_spec(s: Seq<char>) -> Option<u32> {
    let d = if s.len() > 0 && s[0] == '+' { s.drop_first() } else { s };
    if d.len() > 0 && all_digits(d) && digits_value(d) <= u32::MAX {
        Some(digits_value(d) as u32)
    } else {
        None
    }
}

proof fn lemma_digits_value_prefix(s: Seq<char>, i: int)
    requires
        0 <= i <= s.len(),
        all_digits(s),
    ensures
        digits_value(s.take(i)) <= digits_value(s),
    decreases s.len() - i,
{
    if i < s.len() {
        lemma_digits_value_prefix(s, i + 1);
        assert(s.take(i + 1).drop_last() =~= s.take(i));
        assert(s.take(i + 1).last() == s[i]);
        assert(is_ascii_digit(s[i]));
        assert(digits_value(s.take(i + 1)) == digits_value(s.take(i)) * 10 + ((s[i] as u32) - 48) as nat);
    } else {
        assert(s.take(i) =~= s);
    }
}

/// Parses an unsigned 32-bit decimal number.
pub fn parse_u32(s: &[char]) -> (r: Option<u32>)
    ensures
        r == parse_u32_spec(s@),
{
    let mut i: usize = 0;
    if s.len() > 0 && s[0] == '+' {
        i = 1;
    }
    let ghost d = if s@.len() > 0 && s@[0] == '+' { s@.drop_first() } else { s@ };
    if i >= s.len() {
        return None;
    }
    let start = i;
    let mut acc: u64 = 0;
    while i < s.len()
        invariant
            start <= i <= s.len(),
            start == 0 || start == 1,
            d == s@.subrange(start as int, s@.len() as int),
            d == (if s@.len() > 0 && s@[0] == '+' { s@.drop_first() } else { s@ }),
            all_digits(s@.subrange(start as int, i as int)),
            acc as nat == digits_value(s@.subrange(start as int, i as int)),
            acc <= u32::MAX,
        decreases s.len() - i,
    {
        let c = s[i];
        let cu = c as u32;
        if !(48 <= cu && cu <= 57) {
            assert(d[i - start] == c);
            assert(!is_ascii_digit(d[i - start]));
            assert(!all_digits(d));
            return None;
        }
        let ghost prev = s@.subrange(start as int, i as int);
        assert(s@.subrange(start as int, i + 1).drop_last() =~= prev);
        assert(all_digits(s@.subrange(start as int, i + 1)));
        assert(s@.subrange(start as int, i + 1).last() == c);
        assert(digits_value(s@.subrange(start as int, i + 1)) == digits_value(prev) * 10 + (cu - 48) as nat);
        acc = acc * 10 + (cu - 48) as u64;
        i = i + 1;
        assert(acc as nat == digits_value(s@.subrange(start as int, i as int)));
        if acc > 0xffff_ffff {
            proof {
                let p = s@.subrange(start as int, i as int);
                if all_digits(d) {
                    assert(d.take(i - start) =~= p);
                    lemma_digits_value_prefix(d, i - start);
                    assert(digits_value(d) > u32::MAX);
                }
            }
            return None;
        }
    }
    assert(s@.subrange(start as int, s.len() as int) =~= d);
    Some(acc as u32)
}

/* ======================= Line parsing ================================ */

/// The first position at or after `k` holding `c`, or the length.
pub open spec fn find_from(s: Seq<char>, c: char, k: int) -> int
    decreases s.len() - k,
{
    if k < 0 || k >= s.len() {
        s.len() as int
    } else if s[k] == c {
        k
    } else {
        find_from(s, c, k + 1)
    }
}

/// The number of leading ASCII digits.
pub open spec fn leading_digits(s: Seq<char>, k: int) -> int
    decreases s.len() - k,
{
    if k < 0 || k >= s.len() || !is_ascii_digit(s[k]) {
        k
    } else {
        leading_digits(s, k + 1)
    }
}

/// A ripgrep context line such as `63-text` or `42+`: digits followed by
/// `-` or `+`.
pub open spec fn is_context_line(s: Seq<char>) -> bool {
    let n = leading_digits(s, 0);
    s.len() > 0 && is_ascii_digit(s[0]) && n < s.len() && (s[n] == '-' || s[n] == '+')
}

/// A line to skip: blank, or a `--` group separator.
pub open spec fn is_skipped(s: Seq<char>) -> bool {
    trim(s).len() == 0 || starts_with(s, "--"@)
}

/// What a complete `file:line:content` line (or a bare file name) of the
/// output names, after escapes are removed.
pub open spec fn parse_file_info_spec(line: Seq<char>) -> Option<(PathBuf, Option<u32>)> {
    let s = strip_ansi(line);
    let c1 = find_from(s, ':', 0);
    if is_skipped(s) {
        None
    } else if c1 == s.len() {
        Some((pathbuf_from(trim(s)), None))
    } else {
        let c2 = find_from(s, ':', c1 + 1);
        let head = trim(s.subrange(0, c1));
        if c2 < s.len() {
            Some((pathbuf_from(head), parse_u32_spec(trim(s.subrange(c1 + 1, c2)))))
        } else if parse_u32_spec(head) is Some {
            None
        } else {
            Some((pathbuf_from(head), None))
        }
    }
}

/// `parse_file_info_spec`, with a relative file resolved below `base`.
pub open spec fn parse_with_base_spec(line: Seq<char>, base: PathBuf) -> Option<(PathBuf, Option<u32>)> {
    match parse_file_info_spec(line) {
        Some((p, n)) => Some((resolve_spec(p, base), n)),
        None => None,
    }
}

/// One step of reading ripgrep's `--heading` output: a file heading becomes
/// the current file, and a `line:content` line names a line of the current
/// file. Gives the result and the current file afterwards.
pub open spec fn heading_step(line: Seq<char>, current: Option<PathBuf>, base: PathBuf) -> (
    Option<(PathBuf, Option<u32>)>,
    Option<PathBuf>,
) {
    let s = strip_ansi(line);
    let c1 = find_from(s, ':', 0);
    if is_skipped(s) {
        (None, current)
    } else if c1 == s.len() {
        if is_context_line(s) {
            (None, current)
        } else {
            let abs = resolve_spec(pathbuf_from(trim(s)), base);
            (Some((abs, None)), Some(abs))
        }
    } else {
        match parse_u32_spec(trim(s.subrange(0, c1))) {
            Some(n) => match current {
                Some(p) => (Some((p, Some(n))), current),
                None => (None, current),
            },
            None => (None, current),
        }
    }
}

/// Whether a line of `--heading` output is a file heading.
pub open spec fn is_heading_step(line: Seq<char>) -> bool {
    let s = strip_ansi(line);
    !is_skipped(s) && find_from(s, ':', 0) == s.len() && !is_context_line(s)
}

/// The line number of a `line:content` line of `--heading` output, if it is one.
pub open spec fn match_line_number(line: Seq<char>) -> Option<u32> {
    let s = strip_ansi(line);
    let c1 = find_from(s, ':', 0);
    if !is_skipped(s) && c1 < s.len() {
        parse_u32_spec(trim(s.subrange(0, c1)))
    } else {
        None
    }
}

/// A file heading becomes the file that the following `line:content` lines
/// are reported in, whatever the file before it was; such a line leaves the
/// current file as it is.
pub proof fn law_heading_sets_context(
    heading: Seq<char>,
    line: Seq<char>,
    current: Option<PathBuf>,
    base: PathBuf,
    n: u32,
)
    requires
        is_heading_step(heading),
        match_line_number(line) == Some(n),
    ensures
        ({
            let file = resolve_spec(pathbuf_from(trim(strip_ansi(heading))), base);
            let (r1, c1) = heading_step(heading, current, base);
            &&& r1 == Some((file, None::<u32>))
            &&& c1 == Some(file)
            &&& heading_step(line, c1, base) == (Some((file, Some(n))), c1)
        }),
{
}

proof fn lemma_find_from_bounds(s: Seq<char>, c: char, k: int)
    requires
        0 <= k,
    ensures
        find_from(s, c, k) <= s.len(),
        find_from(s, c, k) < s.len() ==> s[find_from(s, c, k)] == c,
    decreases s.len() - k,
{
    if k < s.len() && s[k] != c {
        lemma_find_from_bounds(s, c, k + 1);
    }
}

/// Only a file heading changes the current file: a skipped line, a
/// context line, a `number:content` match and any other line with a colon
/// (whatever precedes the colon) leave it as it was; a match line reports
/// the current file, and no match is reported without one.
pub proof fn law_only_headings_change_file(line: Seq<char>, current: Option<PathBuf>, base: PathBuf)
    ensures
        !is_heading_step(line) ==> heading_step(line, current, base).1 == current,
        ({
            let s = strip_ansi(line);
            let c1 = find_from(s, ':', 0);
            (!is_skipped(s) && c1 < s.len() && parse_u32_spec(trim(s.subrange(0, c1))) is None)
                ==> heading_step(line, current, base) == (None::<(PathBuf, Option<u32>)>, current)
        }),
        (match_line_number(line) matches Some(n) && current matches Some(p)) ==> heading_step(
            line,
            current,
            base,
        ).0 == Some((current->0, match_line_number(line))),
        current is None && !is_heading_step(line) ==> heading_step(line, current, base).0 is None,
{
    let s = strip_ansi(line);
    let c1 = find_from(s, ':', 0);
    lemma_find_from_bounds(s, ':', 0);
}

/// The arguments given to ripgrep: line numbers, file names, colours,
/// results grouped under file headings, one line of context, the pattern,
/// then the directory.
pub open spec fn ripgrep_args_spec(pattern: Seq<char>) -> Seq<Option<Seq<char>>> {
    seq![Some("--line-number"@), Some("--with-filename"@), Some("--color=always"@),
        Some("--heading"@), Some("--context=1"@), Some(pattern), None]
}

/// The message reporting how many lines were found.
pub open spec fn found_message_spec(n: nat) -> Seq<char> {
    "found "@ + decimal(n) + " line(s) matching pattern"@
}

/* ============================== Code ================================= */

fn find_char(s: &[char], c: char, k: usize) -> (r: usize)
    requires
        k <= s.len(),
    ensures
        r as int == find_from(s@, c, k as int),
        k <= r <= s.len(),
{
    let mut i = k;
    while i < s.len()
        invariant
            k <= i <= s.len(),
            find_from(s@, c, k as int) == find_from(s@, c, i as int),
        decreases s.len() - i,
    {
        if s[i] == c {
            return i;
        }
        i = i + 1;
    }
    i
}

fn slice_chars(s: &[char], a: usize, b: usize) -> (r: Vec<char>)
    requires
        a <= b <= s.len(),
    ensures
        r@ == s@.subrange(a as int, b as int),
{
    let mut r: Vec<char> = Vec::new();
    let mut i = a;
    while i < b
        invariant
            a <= i <= b <= s.len(),
            r@ == s@.subrange(a as int, i as int),
        decreases b - i,
    {
        r.push(s[i]);
        assert(s@.subrange(a as int, i as int).push(s@[i as int]) =~= s@.subrange(a as int, i + 1));
        i = i + 1;
    }
    r
}

fn path_of(cs: &[char]) -> (p: PathBuf)
    ensures
        p == pathbuf_from(cs@),
{
    let s = string_of(cs);
    pathbuf_from_str(s.as_str())
}

fn is_skipped_chars(s: &[char]) -> (r: bool)
    ensures
        r == is_skipped(s@),
{
    let t = trim_chars(s);
    if t.len() == 0 {
        return true;
    }
    let dd = chars_of("--");
    crate::text::chars_starts_with(s, dd.as_slice())
}

fn is_context_chars(s: &[char]) -> (r: bool)
    ensures
        r == is_context_line(s@),
{
    if s.len() == 0 || !(48 <= s[0] as u32 && s[0] as u32 <= 57) {
        return false;
    }
    let mut i: usize = 0;
    while i < s.len() && 48 <= s[i] as u32 && s[i] as u32 <= 57
        invariant
            i <= s.len(),
            leading_digits(s@, 0) == leading_digits(s@, i as int),
        decreases s.len() - i,
    {
        i = i + 1;
    }
    i < s.len() && (s[i] == '-' || s[i] == '+')
}

/// The output of a content search.
#[derive(Debug, Clone)]
pub struct RawSearchResult {
    /// The output lines, escapes included
    pub lines: Vec<String>,
    /// The number of lines
    pub total_matches: usize,
    /// The directory that was searched
    pub base_directory: PathBuf,
}

impl RawSearchResult {
    /// The characters of a text without its ANSI escape sequences.
    pub fn strip_ansi_chars(s: &[char]) -> (r: Vec<char>)
        ensures
            r@ == strip_ansi(s@),
    {
        let mut out: Vec<char> = Vec::new();
        let mut i: usize = 0;
        while i < s.len()
            invariant
                i <= s.len(),
                strip_ansi(s@) == out@ + strip_from(s@, i as int),
            decreases s.len() - i,
        {
            let c = s[i];
            if c == '\u{1b}' {
                if i + 1 < s.len() {
                    if s[i + 1] == '[' {
                        let mut k: usize = i + 2;
                        proof {
                            lemma_csi_end_bounds(s@, i + 2);
                        }
                        while k < s.len() && !((65 <= s[k] as u32 && s[k] as u32 <= 90) || (97 <= s[k] as u32
                            && s[k] as u32 <= 122))
                            invariant
                                i + 2 <= k <= s.len(),
                                csi_end(s@, (i + 2) as int) == csi_end(s@, k as int),
                            decreases s.len() - k,
                        {
                            k = k + 1;
                        }
                        if k < s.len() {
                            k = k + 1;
                        }
                        assert(csi_end(s@, (i + 2) as int) == k);
                        i = k;
                    } else {
                        i = i + 2;
                    }
                } else {
                    i = s.len();
                }
            } else {
                out.push(c);
                assert(seq![c] + strip_from(s@, i + 1) =~= strip_from(s@, i as int));
                i = i + 1;
            }
        }
        out
    }

    /// A text without its ANSI escape sequences.
    pub fn strip_ansi_codes(input: &str) -> (r: String)
        ensures
            r@ == strip_ansi(input@),
    {
        let cs = chars_of(input);
        string_of(Self::strip_ansi_chars(cs.as_slice()).as_slice())
    }

    /// The file, and the line if there is one, that an output line names;
    /// `None` for blank lines, separators, and `line:content` lines without
    /// a file.
    pub fn parse_file_info(line: &str) -> (r: Option<(PathBuf, Option<u32>)>)
        ensures
            r == parse_file_info_spec(line@),
    {
        let raw = chars_of(line);
        let s = Self::strip_ansi_chars(raw.as_slice());
        let ss = s.as_slice();
        if is_skipped_chars(ss) {
            return None;
        }
        let c1 = find_char(ss, ':', 0);
        if c1 == ss.len() {
            let t = trim_chars(ss);
            return Some((path_of(t.as_slice()), None));
        }
        let c2 = find_char(ss, ':', c1 + 1);
        let head = trim_chars(slice_chars(ss, 0, c1).as_slice());
        if c2 < ss.len() {
            let mid = trim_chars(slice_chars(ss, c1 + 1, c2).as_slice());
            let n = parse_u32(mid.as_slice());
            Some((path_of(head.as_slice()), n))
        } else if parse_u32(head.as_slice()).is_some() {
            None
        } else {
            Some((path_of(head.as_slice()), None))
        }
    }

    /// `parse_file_info`, with a relative file taken below `base_dir`.
    pub fn parse_file_info_with_base(line: &str, base_dir: &PathBuf) -> (r: Option<(PathBuf, Option<u32>)>)
        ensures
            r == parse_with_base_spec(line@, *base_dir),
    {
        match Self::parse_file_info(line) {
            Some((p, n)) => Some((resolve(p, base_dir), n)),
            None => None,
        }
    }

    /// Reads one line of `--heading` output: a heading updates
    /// `current_file`; a `line:content` line names a line of it.
    pub fn parse_heading_line_with_context(
        line: &str,
        current_file: &mut Option<PathBuf>,
        base_dir: &PathBuf,
    ) -> (r: Option<(PathBuf, Option<u32>)>)
        ensures
            (r, *final(current_file)) == heading_step(line@, *old(current_file), *base_dir),
            !is_heading_step(line@) ==> *final(current_file) == *old(current_file),
    {
        proof {
            law_only_headings_change_file(line@, *old(current_file), *base_dir);
        }
        let raw = chars_of(line);
        let s = Self::strip_ansi_chars(raw.as_slice());
        let ss = s.as_slice();
        if is_skipped_chars(ss) {
            return None;
        }
        let c1 = find_char(ss, ':', 0);
        if c1 == ss.len() {
            if is_context_chars(ss) {
                return None;
            }
            let t = trim_chars(ss);
            let abs = resolve(path_of(t.as_slice()), base_dir);
            *current_file = Some(abs.clone());
            return Some((abs, None));
        }
        let head = trim_chars(slice_chars(ss, 0, c1).as_slice());
        match parse_u32(head.as_slice()) {
            Some(n) => match current_file {
                Some(p) => Some((p.clone(), Some(n))),
                None => None,
            },
            None => None,
        }
    }

    /// The arguments of the ripgrep command for `pattern`.
    pub fn ripgrep_args(pattern: &str) -> (r: Vec<CommandArg>)
        ensures
            args_view(r@) == ripgrep_args_spec(pattern@),
    {
        let mut v: Vec<CommandArg> = Vec::new();
        v.push(CommandArg::Literal(string_of(chars_of("--line-number").as_slice())));
        v.push(CommandArg::Literal(string_of(chars_of("--with-filename").as_slice())));
        v.push(CommandArg::Literal(string_of(chars_of("--color=always").as_slice())));
        v.push(CommandArg::Literal(string_of(chars_of("--heading").as_slice())));
        v.push(CommandArg::Literal(string_of(chars_of("--context=1").as_slice())));
        v.push(CommandArg::Literal(string_of(chars_of(pattern).as_slice())));
        v.push(CommandArg::SearchPath);
        assert(args_view(v@) =~= ripgrep_args_spec(pattern@));
        v
    }

    /// Whether ripgrep's exit means success: a zero status, or status 1,
    /// which only says that nothing matched.
    pub fn exit_is_success(success: bool, code: Option<i32>) -> (r: bool)
        ensures
            r == (success || code == Some(1i32)),
    {
        success || match code {
            Some(c) => c == 1,
            None => false,
        }
    }

    /// The report of a finished search.
    pub fn found_message(match_count: usize) -> (r: String)
        ensures
            r@ == found_message_spec(match_count as nat),
    {
        let mut out: Vec<char> = Vec::new();
        append_str(&mut out, "found ");
        push_decimal(&mut out, match_count as u64);
        append_str(&mut out, " line(s) matching pattern");
        string_of(out.as_slice())
    }
}

/* ===================== Result statistics ============================= */

/// A file heading of the output: not blank, no colon, not a separator.
pub open spec fn is_heading_text(line: Seq<char>) -> bool {
    let c = strip_ansi(line);
    trim(c).len() > 0 && find_from(c, ':', 0) == c.len() && !starts_with(c, "--"@)
}

/// A match of the output: a line number before the first colon.
pub open spec fn is_match_text(line: Seq<char>) -> bool {
    let c = strip_ansi(line);
    let k = find_from(c, ':', 0);
    k < c.len() && parse_u32_spec(trim(c.subrange(0, k))) is Some
}

/// How many lines are headings (`files`) or matches (`!files`).
pub open spec fn count_kind(lines: Seq<Seq<char>>, files: bool) -> nat
    decreases lines.len(),
{
    if lines.len() == 0 {
        0
    } else {
        count_kind(lines.drop_last(), files) + (if (files && is_heading_text(lines.last())) || (!files
            && is_match_text(lines.last())) {
            1nat
        } else {
            0nat
        })
    }
}

/// Whether a line of the output is a file heading.
pub fn is_heading_line(line: &str) -> (r: bool)
    ensures
        r == is_heading_text(line@),
{
    let raw = chars_of(line);
    let c = RawSearchResult::strip_ansi_chars(raw.as_slice());
    let cs = c.as_slice();
    let t = trim_chars(cs);
    if t.len() == 0 {
        return false;
    }
    if find_char(cs, ':', 0) < cs.len() {
        return false;
    }
    !crate::text::chars_starts_with(cs, chars_of("--").as_slice())
}

/// Whether a line of the output is a match (`line:content`).
pub fn is_match_line(line: &str) -> (r: bool)
    ensures
        r == is_match_text(line@),
{
    let raw = chars_of(line);
    let c = RawSearchResult::strip_ansi_chars(raw.as_slice());
    let cs = c.as_slice();
    let k = find_char(cs, ':', 0);
    if k == cs.len() {
        return false;
    }
    let head = trim_chars(slice_chars(cs, 0, k).as_slice());
    parse_u32(head.as_slice()).is_some()
}

/// The number of headings (`files`) or of matches among the lines.
pub fn count_lines_of_kind(lines: &[String], files: bool) -> (r: usize)
    ensures
        r as nat == count_kind(crate::text::string_views(lines@), files),
{
    let mut n: usize = 0;
    let mut i: usize = 0;
    while i < lines.len()
        invariant
            i <= lines.len(),
            n <= i,
            n as nat == count_kind(crate::text::string_views(lines@.take(i as int)), files),
        decreases lines.len() - i,
    {
        assert(crate::text::string_views(lines@.take(i + 1)).drop_last() =~= crate::text::string_views(
            lines@.take(i as int),
        ));
        assert(crate::text::string_views(lines@.take(i + 1)).last() == lines@[i as int]@);
        let hit = if files {
            is_heading_line(lines[i].as_str())
        } else {
            is_match_line(lines[i].as_str())
        };
        if hit {
            n = n + 1;
        }
        i = i + 1;
    }
    assert(lines@.take(lines.len() as int) =~= lines@);
    n
}

} // verus!
