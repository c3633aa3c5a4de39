//! Conversion of a JSON-lines log into one JSON array, where each record's
//! `filename` is joined with its `line_number` as `file:line`.
//!
//! Parsing and printing of JSON values are done by `simd_json` and
//! `serde_json`; the line splitting, the record selection, the field rewrite
//! and the assembly of the array are the functions below.
use vstd::prelude::*;
use serde_json::Value;
use crate::text::{append_str, chars_of, string_of, decimal, string_views};

verus! {

/* ====================== Outside functions ============================ */

#[verifier::external_type_specification]
#[verifier::external_body]
pub struct ExJsonValue(serde_json::Value);

/// The first position of `b` in `s` at or after `k`, or the length.
pub open spec fn find_byte(s: Seq<u8>, b: u8, k: int) -> int
    decreases s.len() - k,
{
    if k < 0 || k >= s.len() {
        s.len() as int
    } else if s[k] == b {
        k
    } else {
        find_byte(s, b, k + 1)
    }
}

/// Calls `memchr::memchr`: the position of the first occurrence of `needle`
/// in `haystack`, if there is one.
#[verifier::external_body]
pub(crate) fn memchr_first(needle: u8, haystack: &[u8]) -> (r: Option<usize>)
    ensures
        match r {
            Some(i) => i as int == find_byte(haystack@, needle, 0) && i < haystack@.len(),
            None => find_byte(haystack@, needle, 0) == haystack@.len(),
        },
{
    memchr::memchr(needle, haystack)
}

/// The value `simd_json` parses from a line, if the line is valid JSON.
pub uninterp spec fn json_from_line(line: Seq<u8>) -> Option<Value>;

/// Calls `simd_json::serde::from_slice` on a copy of the line (the parser
/// rewrites its input).
#[verifier::external_body]
pub(crate) fn parse_json_line(line: &[u8]) -> (r: Option<Value>)
    ensures
        r == json_from_line(line@),
{
    let mut buf: Vec<u8> = line.to_vec();
    simd_json::serde::from_slice::<Value>(&mut buf).ok()
}

/// The string held by member `key` of an object, if there is one.
pub uninterp spec fn json_str_member(v: Value, key: Seq<char>) -> Option<Seq<char>>;

/// Calls `Value::get` and keeps the member when it is a string.
#[verifier::external_body]
pub(crate) fn json_get_str(v: &Value, key: &str) -> (r: Option<String>)
    ensures
        match r {
            Some(s) => json_str_member(*v, key@) == Some(s@),
            None => json_str_member(*v, key@) is None,
        },
{
    match v.get(key) {
        Some(Value::String(s)) => Some(s.clone()),
        _ => None,
    }
}

/// The unsigned integer held by member `key` of an object, if there is one.
pub uninterp spec fn json_u64_member(v: Value, key: Seq<char>) -> Option<u64>;

/// Calls `Value::get` and then `Value::as_u64` on the member.
#[verifier::external_body]
pub(crate) fn json_get_u64(v: &Value, key: &str) -> (r: Option<u64>)
    ensures
        r == json_u64_member(*v, key@),
{
    v.get(key).and_then(Value::as_u64)
}

/// The value after member `key` of an object is set to the string `s`.
pub uninterp spec fn json_with_str_member(v: Value, key: Seq<char>, s: Seq<char>) -> Value;

/// Calls `Map::insert` on the object (`Value::as_object_mut`), setting
/// member `key` to the string `s`.
#[verifier::external_body]
pub(crate) fn json_set_str(v: &mut Value, key: &str, s: String)
    ensures
        *final(v) == json_with_str_member(*old(v), key@, s@),
{
    if let Some(obj) = v.as_object_mut() {
        obj.insert(key.to_string(), Value::String(s));
    }
}

/// What `serde_json::to_string_pretty` prints for a value.
pub uninterp spec fn serde_pretty(v: Value) -> Option<Seq<char>>;

/// Calls `serde_json::to_string_pretty`.
#[verifier::external_body]
pub(crate) fn serde_to_string_pretty(v: &Value) -> (r: Option<String>)
    ensures
        match r {
            Some(s) => serde_pretty(*v) == Some(s@),
            None => serde_pretty(*v) is None,
        },
{
    serde_json::to_string_pretty(v).ok()
}

/// What `serde_json::to_string` prints for a value.
pub uninterp spec fn serde_compact(v: Value) -> Option<Seq<char>>;

/// Calls `serde_json::to_string`.
#[verifier::external_body]
pub(crate) fn serde_to_string(v: &Value) -> (r: Option<String>)
    ensures
        match r {
            Some(s) => serde_compact(*v) == Some(s@),
            None => serde_compact(*v) is None,
        },
{
    serde_json::to_string(v).ok()
}

/// What `simd_json::to_string_pretty` prints for a value.
pub uninterp spec fn simd_pretty(v: Value) -> Option<Seq<char>>;

/// Calls `simd_json::to_string_pretty`.
#[verifier::external_body]
pub(crate) fn simd_to_string_pretty(v: &Value) -> (r: Option<String>)
    ensures
        match r {
            Some(s) => simd_pretty(*v) == Some(s@),
            None => simd_pretty(*v) is None,
        },
{
    simd_json::to_string_pretty(v).ok()
}

/// Calls `itoa::Buffer::format`, which writes an integer in decimal.
#[verifier::external_body]
pub(crate) fn itoa_decimal(n: u64) -> (r: String)
    ensures
        r@ == decimal(n as nat),
{
    let mut buf = itoa::Buffer::new();
    buf.format(n).to_string()
}

/* ========================== Specification ============================ */

/// The non-empty lines of `s` from position `pos` on, without their
/// line feeds.
pub open spec fn lines_from(s: Seq<u8>, pos: int) -> Seq<Seq<u8>>
    decreases s.len() - pos,
{
    if pos < 0 || pos >= s.len() {
        Seq::empty()
    } else {
        let e = find_byte(s, 10, pos);
        let rest = if pos <= e < s.len() {
            lines_from(s, e + 1)
        } else {
            Seq::empty()
        };
        if pos < e <= s.len() {
            seq![s.subrange(pos, e)] + rest
        } else {
            rest
        }
    }
}

pub open spec fn jsonl_lines(s: Seq<u8>) -> Seq<Seq<u8>> {
    lines_from(s, 0)
}

/// A record whose `filename` is a string and whose `line_number` is an
/// unsigned integer gets `filename` set to `file:line`; others stay as
/// they are.
pub open spec fn transform_spec(v: Value) -> Value {
    match (json_str_member(v, "filename"@), json_u64_member(v, "line_number"@)) {
        (Some(f), Some(n)) => json_with_str_member(v, "filename"@, f + ":"@ + decimal(n as nat)),
        _ => v,
    }
}

/// Whether a record has both fields that the rewrite uses.
pub open spec fn has_location(v: Value) -> bool {
    json_str_member(v, "filename"@) is Some && json_u64_member(v, "line_number"@) is Some
}

/// How records are printed.
#[derive(Debug, Clone, Copy, PartialEq, Eq)]
pub enum JsonPrinter {
    /// `serde_json::to_string_pretty`
    SerdePretty,
    /// `serde_json::to_string`
    SerdeCompact,
    /// `simd_json::to_string_pretty`
    SimdPretty,
}

pub open spec fn print_spec(p: JsonPrinter, v: Value) -> Option<Seq<char>> {
    match p {
        JsonPrinter::SerdePretty => serde_pretty(v),
        JsonPrinter::SerdeCompact => serde_compact(v),
        JsonPrinter::SimdPretty => simd_pretty(v),
    }
}

/// The printed records of `lines`, in order: lines that are not JSON are
/// left out, and so are records without a location when `strict`. A record
/// that cannot be printed is left out, or, when `fail_on_error`, makes the
/// whole conversion fail.
pub open spec fn records_spec(lines: Seq<Seq<u8>>, p: JsonPrinter, strict: bool, fail_on_error: bool) -> Option<
    Seq<Seq<char>>,
>
    decreases lines.len(),
{
    if lines.len() == 0 {
        Some(Seq::empty())
    } else {
        match records_spec(lines.drop_last(), p, strict, fail_on_error) {
            None => None,
            Some(done) => match json_from_line(lines.last()) {
                None => Some(done),
                Some(v) => if strict && !has_location(v) {
                    Some(done)
                } else {
                    match print_spec(p, transform_spec(v)) {
                        Some(t) => Some(done.push(t)),
                        None => if fail_on_error {
                            None
                        } else {
                            Some(done)
                        },
                    }
                },
            },
        }
    }
}

/// The texts joined with `sep` between consecutive ones.
pub open spec fn join_with(parts: Seq<Seq<char>>, sep: Seq<char>) -> Seq<char>
    decreases parts.len(),
{
    if parts.len() == 0 {
        Seq::empty()
    } else if parts.len() == 1 {
        parts[0]
    } else {
        join_with(parts.drop_last(), sep) + sep + parts.last()
    }
}

/// The records as a pretty JSON array; `[` and `]` alone when there are none.
pub open spec fn pretty_array_spec(data: Seq<u8>) -> Seq<char> {
    let rs = records_spec(jsonl_lines(data), JsonPrinter::SerdePretty, false, false)->0;
    if rs.len() == 0 {
        "[\n]"@
    } else {
        "[\n"@ + join_with(rs, ",\n"@) + "\n]"@
    }
}

/// The records as a JSON array, opened by `open`, separated by `sep` and
/// closed by `close`; `None` when a record cannot be printed and that is an
/// error.
pub open spec fn array_spec(
    data: Seq<u8>,
    p: JsonPrinter,
    strict: bool,
    fail_on_error: bool,
    open: Seq<char>,
    sep: Seq<char>,
    close: Seq<char>,
) -> Option<Seq<char>> {
    match records_spec(jsonl_lines(data), p, strict, fail_on_error) {
        Some(rs) => Some(open + join_with(rs, sep) + close),
        None => None,
    }
}

/* ============================== Code ================================= */

proof fn lemma_find_byte_bounds(s: Seq<u8>, b: u8, k: int)
    requires
        0 <= k,
    ensures
        k <= s.len() ==> k <= find_byte(s, b, k) <= s.len(),
        k > s.len() ==> find_byte(s, b, k) == s.len(),
    decreases s.len() - k,
{
    if k < s.len() && s[k] != b {
        lemma_find_byte_bounds(s, b, k + 1);
    }
}

proof fn lemma_records_none_extends(
    a: Seq<Seq<u8>>,
    b: Seq<Seq<u8>>,
    p: JsonPrinter,
    strict: bool,
    fail_on_error: bool,
)
    requires
        records_spec(a, p, strict, fail_on_error) is None,
    ensures
        records_spec(a + b, p, strict, fail_on_error) is None,
    decreases b.len(),
{
    if b.len() == 0 {
        assert(a + b =~= a);
    } else {
        lemma_records_none_extends(a, b.drop_last(), p, strict, fail_on_error);
        assert((a + b).drop_last() =~= a + b.drop_last());
    }
}

/// The records of a sequence of lines are the records of its first part
/// followed by those of its second part: each line is converted on its own,
/// in order; the whole fails exactly when one of the parts fails.
pub proof fn law_records_concat(
    a: Seq<Seq<u8>>,
    b: Seq<Seq<u8>>,
    p: JsonPrinter,
    strict: bool,
    fail_on_error: bool,
)
    ensures
        records_spec(a + b, p, strict, fail_on_error) == match (
            records_spec(a, p, strict, fail_on_error),
            records_spec(b, p, strict, fail_on_error),
        ) {
            (Some(x), Some(y)) => Some(x + y),
            _ => None::<Seq<Seq<char>>>,
        },
    decreases b.len(),
{
    if b.len() == 0 {
        assert(a + b =~= a);
        if let Some(x) = records_spec(a, p, strict, fail_on_error) {
            assert(x + Seq::<Seq<char>>::empty() =~= x);
        }
    } else {
        law_records_concat(a, b.drop_last(), p, strict, fail_on_error);
        assert((a + b).drop_last() =~= a + b.drop_last());
        assert((a + b).last() == b.last());
        match (records_spec(a, p, strict, fail_on_error), records_spec(b.drop_last(), p, strict, fail_on_error)) {
            (Some(x), Some(y)) => {
                match json_from_line(b.last()) {
                    Some(v) => {
                        if !(strict && !has_location(v)) {
                            if let Some(t) = print_spec(p, transform_spec(v)) {
                                assert((x + y).push(t) =~= x + y.push(t));
                            }
                        }
                    },
                    None => {},
                }
            },
            _ => {},
        }
    }
}

/// `find_byte` on a suffix, shifted back to positions of the whole.
proof fn lemma_find_byte_suffix(s: Seq<u8>, b: u8, pos: int, k: int)
    requires
        0 <= pos <= s.len(),
        0 <= k,
    ensures
        find_byte(s.subrange(pos, s.len() as int), b, k) + pos == find_byte(s, b, pos + k),
    decreases s.len() - pos - k,
{
    if pos + k < s.len() && s[pos + k] != b {
        lemma_find_byte_suffix(s, b, pos, k + 1);
    }
}

/// The end of the line starting at `pos`: the position of the next line
/// feed, or the length.
fn line_end(data: &[u8], pos: usize) -> (e: usize)
    requires
        pos <= data.len(),
    ensures
        e as int == find_byte(data@, 10, pos as int),
        pos <= e <= data.len(),
{
    let rest = &data[pos..data.len()];
    proof {
        lemma_find_byte_suffix(data@, 10, pos as int, 0);
        lemma_find_byte_bounds(data@, 10, pos as int);
    }
    match memchr_first(10, rest) {
        Some(rel) => pos + rel,
        None => data.len(),
    }
}

/// Rewrites a record's `filename` to `file:line` when it has a location.
pub fn transform_filename_field(v: &mut Value)
    ensures
        *final(v) == transform_spec(*old(v)),
{
    let f = json_get_str(v, "filename");
    let n = json_get_u64(v, "line_number");
    match (f, n) {
        (Some(name), Some(line)) => {
            let mut t: Vec<char> = chars_of(name.as_str());
            append_str(&mut t, ":");
            let digits = itoa_decimal(line);
            append_str(&mut t, digits.as_str());
            json_set_str(v, "filename", string_of(t.as_slice()));
        },
        _ => {},
    }
}

/// Prints a value with the chosen printer.
pub fn print_json(p: JsonPrinter, v: &Value) -> (r: Option<String>)
    ensures
        match r {
            Some(s) => print_spec(p, *v) == Some(s@),
            None => print_spec(p, *v) is None,
        },
{
    match p {
        JsonPrinter::SerdePretty => serde_to_string_pretty(v),
        JsonPrinter::SerdeCompact => serde_to_string(v),
        JsonPrinter::SimdPretty => simd_to_string_pretty(v),
    }
}

/// Parses, selects, rewrites and prints the records of a JSON-lines text.
pub fn collect_records(data: &[u8], p: JsonPrinter, strict: bool, fail_on_error: bool) -> (r: Option<
    Vec<String>,
>)
    ensures
        match r {
            Some(v) => records_spec(jsonl_lines(data@), p, strict, fail_on_error) == Some(
                string_views(v@),
            ),
            None => records_spec(jsonl_lines(data@), p, strict, fail_on_error) is None,
        },
{
    let mut out: Vec<String> = Vec::new();
    let mut pos: usize = 0;
    let ghost mut seen: Seq<Seq<u8>> = Seq::empty();
    while pos < data.len()
        invariant
            pos <= data.len(),
            jsonl_lines(data@) == seen + lines_from(data@, pos as int),
            records_spec(seen, p, strict, fail_on_error) == Some(string_views(out@)),
        decreases data.len() - pos,
    {
        let e = line_end(data, pos);
        if e > pos {
            let line = &data[pos..e];
            let ghost l = data@.subrange(pos as int, e as int);
            assert(line@ == l);
            proof {
                assert(lines_from(data@, pos as int) == seq![l] + lines_from(data@, e + 1));
                assert(seen + lines_from(data@, pos as int) =~= seen.push(l) + lines_from(data@, e + 1));
                assert(seen.push(l).drop_last() =~= seen);
                seen = seen.push(l);
            }
            match parse_json_line(line) {
                None => {},
                Some(mut v) => {
                    let keep = if strict {
                        let f = json_get_str(&v, "filename");
                        let n = json_get_u64(&v, "line_number");
                        f.is_some() && n.is_some()
                    } else {
                        true
                    };
                    if keep {
                        transform_filename_field(&mut v);
                        match print_json(p, &v) {
                            Some(t) => {
                                let ghost prev = out@;
                                let ghost tv = t@;
                                out.push(t);
                                assert(string_views(out@) =~= string_views(prev).push(tv));
                            },
                            None => {
                                if fail_on_error {
                                    proof {
                                        lemma_records_none_extends(
                                            seen,
                                            lines_from(data@, e + 1),
                                            p,
                                            strict,
                                            fail_on_error,
                                        );
                                    }
                                    return None;
                                }
                            },
                        }
                    }
                },
            }
        } else {
            proof {
                assert(lines_from(data@, pos as int) == lines_from(data@, e + 1));
            }
        }
        if e < data.len() {
            pos = e + 1;
        } else {
            pos = data.len();
        }
    }
    proof {
        assert(seen + lines_from(data@, pos as int) =~= seen);
    }
    Some(out)
}

proof fn lemma_records_lenient_some(lines: Seq<Seq<u8>>, p: JsonPrinter, strict: bool)
    ensures
        records_spec(lines, p, strict, false) is Some,
    decreases lines.len(),
{
    if lines.len() > 0 {
        lemma_records_lenient_some(lines.drop_last(), p, strict);
    }
}

/// The texts joined with `sep` between consecutive ones.
pub fn join_texts(parts: &[String], sep: &str) -> (r: String)
    ensures
        r@ == join_with(string_views(parts@), sep@),
{
    let mut out: Vec<char> = Vec::new();
    let mut i: usize = 0;
    while i < parts.len()
        invariant
            i <= parts.len(),
            out@ == join_with(string_views(parts@.take(i as int)), sep@),
        decreases parts.len() - i,
    {
        let ghost before = string_views(parts@.take(i as int));
        assert(string_views(parts@.take(i + 1)).drop_last() =~= before);
        assert(string_views(parts@.take(i + 1)).last() == parts@[i as int]@);
        if i > 0 {
            append_str(&mut out, sep);
        } else {
            assert(string_views(parts@.take(1)) =~= seq![parts@[0]@]);
        }
        append_str(&mut out, parts[i].as_str());
        i = i + 1;
    }
    assert(parts@.take(parts.len() as int) =~= parts@);
    string_of(out.as_slice())
}

/// Converts a JSON-lines text into a pretty-printed JSON array of its
/// records (`serde_json` printing); lines that are not JSON, and records
/// that cannot be printed, are left out; `[` and `]` on two lines when no
/// record remains.
pub fn jsonl_to_pretty_array(data: &[u8]) -> (r: String)
    ensures
        r@ == pretty_array_spec(data@),
{
    proof {
        lemma_records_lenient_some(jsonl_lines(data@), JsonPrinter::SerdePretty, false);
    }
    let recs = match collect_records(data, JsonPrinter::SerdePretty, false, false) {
        Some(v) => v,
        None => Vec::new(),
    };
    if recs.len() == 0 {
        return string_of(chars_of("[\n]").as_slice());
    }
    let body = join_texts(recs.as_slice(), ",\n");
    let mut out: Vec<char> = chars_of("[\n");
    append_str(&mut out, body.as_str());
    append_str(&mut out, "\n]");
    string_of(out.as_slice())
}

/// Converts a JSON-lines text into a JSON array whose records are printed by
/// `p`, opened by `open`, separated by `sep` and closed by `close`.
pub fn jsonl_to_array(
    data: &[u8],
    p: JsonPrinter,
    strict: bool,
    fail_on_error: bool,
    open: &str,
    sep: &str,
    close: &str,
) -> (r: Option<String>)
    ensures
        match r {
            Some(t) => array_spec(data@, p, strict, fail_on_error, open@, sep@, close@) == Some(t@),
            None => array_spec(data@, p, strict, fail_on_error, open@, sep@, close@) is None,
        },
{
    match collect_records(data, p, strict, fail_on_error) {
        None => None,
        Some(recs) => {
            let body = join_texts(recs.as_slice(), sep);
            let mut out: Vec<char> = chars_of(open);
            append_str(&mut out, body.as_str());
            append_str(&mut out, close);
            Some(string_of(out.as_slice()))
        },
    }
}

/// Every JSON record, pretty-printed by `simd_json`, in an array; fails when
/// a record cannot be printed.
pub fn jsonl_to_pretty_array_simd(data: &[u8]) -> (r: Option<String>)
    ensures
        match r {
            Some(t) => array_spec(data@, JsonPrinter::SimdPretty, false, true, "[\n"@, ",\n"@, "\n]"@)
                == Some(t@),
            None => array_spec(data@, JsonPrinter::SimdPretty, false, true, "[\n"@, ",\n"@, "\n]"@) is None,
        },
{
    jsonl_to_array(data, JsonPrinter::SimdPretty, false, true, "[\n", ",\n", "\n]")
}

/// Only records with a file name and a line number, pretty-printed by
/// `simd_json`, in an array; fails when a record cannot be printed.
pub fn jsonl_to_pretty_array_located(data: &[u8]) -> (r: Option<String>)
    ensures
        match r {
            Some(t) => array_spec(data@, JsonPrinter::SimdPretty, true, true, "[\n"@, ",\n"@, "\n]"@)
                == Some(t@),
            None => array_spec(data@, JsonPrinter::SimdPretty, true, true, "[\n"@, ",\n"@, "\n]"@) is None,
        },
{
    jsonl_to_array(data, JsonPrinter::SimdPretty, true, true, "[\n", ",\n", "\n]")
}

/// Every JSON record, printed compactly by `serde_json`, one per indented
/// line of an array; fails when a record cannot be printed.
pub fn jsonl_to_compact_array(data: &[u8]) -> (r: Option<String>)
    ensures
        match r {
            Some(t) => array_spec(data@, JsonPrinter::SerdeCompact, false, true, "[\n  "@, ",\n  "@, "\n]"@)
                == Some(t@),
            None => array_spec(data@, JsonPrinter::SerdeCompact, false, true, "[\n  "@, ",\n  "@, "\n]"@)
                is None,
        },
{
    jsonl_to_array(data, JsonPrinter::SerdeCompact, false, true, "[\n  ", ",\n  ", "\n]")
}

/// Every JSON record that can be printed, pretty-printed by `serde_json`,
/// in an array that keeps its two brackets on their own lines even when no
/// record remains.
pub fn jsonl_to_pretty_array_joined(data: &[u8]) -> (r: String)
    ensures
        array_spec(data@, JsonPrinter::SerdePretty, false, false, "[\n"@, ",\n"@, "\n]"@) == Some(r@),
{
    proof {
        lemma_records_lenient_some(jsonl_lines(data@), JsonPrinter::SerdePretty, false);
    }
    match jsonl_to_array(data, JsonPrinter::SerdePretty, false, false, "[\n", ",\n", "\n]") {
        Some(t) => t,
        None => string_of(chars_of("").as_slice()),
    }
}

/// Renders an unsigned integer in decimal.
pub fn fast_u64_to_string(n: u64) -> (r: String)
    ensures
        r@ == decimal(n as nat),
{
    let mut out: Vec<char> = Vec::new();
    crate::text::push_decimal(&mut out, n);
    string_of(out.as_slice())
}

} // verus!
