//! CSV documents, written by the `csv` crate's writer into memory.
use vstd::prelude::*;
use crate::text::string_views;

verus! {

/// A `csv::Writer` that writes into a `Vec<u8>`. Verus refuses the writer's
/// own declaration (its parameter is bound by `std::io::Write`), so it is
/// held here, opaque, in a private field.
#[verifier::external_body]
pub struct CsvSink {
    writer: csv::Writer<Vec<u8>>,
}

/// The records that a writer made by `csv_writer_new` has accepted so far,
/// each as its fields.
pub uninterp spec fn csv_records_of(w: CsvSink) -> Seq<Seq<Seq<char>>>;

/// The bytes of the CSV document of `records` in the writer's default format
/// (comma between fields, newline after each record, quotes where needed).
pub uninterp spec fn csv_document(records: Seq<Seq<Seq<char>>>) -> Seq<u8>;

/// The records, each as its fields.
pub open spec fn records_view(records: Seq<Vec<String>>) -> Seq<Seq<Seq<char>>> {
    records.map_values(|r: Vec<String>| string_views(r@))
}

/// Whether every record has as many fields as the first.
pub open spec fn uniform_width(records: Seq<Seq<Seq<char>>>) -> bool {
    forall|i: int| 0 <= i < records.len() ==> #[trigger] records[i].len() == records[0].len()
}

/// `csv::Writer::from_writer` over an empty `Vec<u8>`, with the default
/// configuration: a writer that has accepted no record.
#[verifier::external_body]
fn csv_writer_new() -> (w: CsvSink)
    ensures
        csv_records_of(w) == Seq::<Seq<Seq<char>>>::empty(),
{
    CsvSink { writer: csv::Writer::from_writer(Vec::new()) }
}

/// `csv::Writer::write_record`. The writer refuses a record whose number of
/// fields differs from that of the first record it accepted (its only error
/// when the sink is a `Vec<u8>`, which accepts every write); it is then
/// dropped, so that no writer with a half-written record is used again.
/// Otherwise it comes back holding one more record.
#[verifier::external_body]
fn csv_write_record(w: CsvSink, record: &Vec<String>) -> (r: Option<CsvSink>)
    ensures
        r is Some <==> (csv_records_of(w).len() == 0 || csv_records_of(w)[0].len() == record@.len()),
        r is Some ==> csv_records_of(r.unwrap()) == csv_records_of(w).push(string_views(record@)),
{
    let mut w = w;
    match w.writer.write_record(record.iter()) {
        Ok(()) => Some(w),
        Err(_) => None,
    }
}

/// `csv::Writer::into_inner`: flushes the writer into its `Vec<u8>`, which
/// cannot fail, and hands the vector back, holding the document of the
/// records written.
#[verifier::external_body]
fn csv_into_bytes(w: CsvSink) -> (r: Option<Vec<u8>>)
    ensures
        r is Some,
        r.unwrap()@ == csv_document(csv_records_of(w)),
{
    match w.writer.into_inner() {
        Ok(b) => Some(b),
        Err(_) => None,
    }
}

/// Writes the records as one CSV document; `None` when some record has not
/// as many fields as the first.
pub fn encode_records(records: &Vec<Vec<String>>) -> (r: Option<Vec<u8>>)
    ensures
        match r {
            Some(b) => uniform_width(records_view(records@)) && b@ == csv_document(records_view(records@)),
            None => !uniform_width(records_view(records@)),
        },
{
    let ghost rv = records_view(records@);
    let mut w = csv_writer_new();
    let mut i: usize = 0;
    while i < records.len()
        invariant
            i <= records@.len(),
            rv == records_view(records@),
            csv_records_of(w) == rv.take(i as int),
            uniform_width(rv.take(i as int)),
        decreases records@.len() - i,
    {
        let next = csv_write_record(w, &records[i]);
        match next {
            Some(w2) => {
                w = w2;
                assert(rv.take(i + 1) =~= rv.take(i as int).push(rv[i as int]));
            },
            None => {
                assert(rv[i as int].len() != rv[0].len());
                return None;
            },
        }
        i = i + 1;
    }
    assert(rv.take(records@.len() as int) =~= rv);
    csv_into_bytes(w)
}

} // verus!
