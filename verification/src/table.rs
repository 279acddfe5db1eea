//! The tabular reader behind both decoders. The admin tool's reports are
//! comma-separated tables with a leading header row; reading one yields its
//! data rows as plain strings, or fails when the input cannot be tabulated.

use vstd::prelude::*;

verus! {

/// The table a byte string tabulates to: its data rows (the header row
/// skipped), each a sequence of cells, or nothing when the bytes do not
/// form a well-shaped table. The outcome is a function of the bytes alone.
pub uninterp spec fn csv_table(src: Seq<u8>) -> Option<Seq<Seq<Seq<char>>>>;

/// The error type of the `csv` crate, carried through opaquely.
#[verifier::external_type_specification]
#[verifier::external_body]
pub struct ExCsvError(csv::Error);

/// Relies on `csv::Reader::from_reader` and `Reader::records` (csv 1.4,
/// default configuration: first row is a header and is skipped, records
/// must agree with the header's width): yields the data rows in order, or
/// the reader's error for input it refuses. Both depend on the bytes alone.
#[verifier::external_body]
pub(crate) fn read_csv_table(src: &[u8]) -> (r: Result<Vec<Vec<String>>, csv::Error>)
    ensures
        match r {
            Ok(rows) => csv_table(src@) == Some(rows.deep_view()),
            Err(_) => csv_table(src@) is None,
        },
{
    let mut rdr = csv::Reader::from_reader(src);
    let mut rows: Vec<Vec<String>> = Vec::new();
    for record in rdr.records() {
        match record {
            Ok(rec) => rows.push(rec.iter().map(|f| f.to_string()).collect()),
            Err(e) => return Err(e),
        }
    }
    Ok(rows)
}

} // verus!
