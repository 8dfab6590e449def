use vstd::prelude::*;

use crate::delimiter::{delimiter_of, resolve_delimiter, DelimiterInvalidError, DEFAULT_DELIMITER};
use vstd::string::StringSliceAdditionalSpecFns;

verus! {

#[verifier::external_type_specification]
#[verifier::external_body]
pub struct ExCsvError(csv::Error);

/// One query of a workload: a key, and the value that a lookup of it must
/// return (the sentinel asks for no value).
#[derive(Debug, Clone, PartialEq, Eq)]
pub struct QueryRecord {
    pub key: String,
    pub expected: u64,
}

impl View for QueryRecord {
    type V = (Seq<char>, u64);

    open spec fn view(&self) -> (Seq<char>, u64) {
        (self.key@, self.expected)
    }
}

/// The rows that csv reads from `input`, without a header row and with
/// fields split at `delimiter`, each row as its fields' text: `None` where the
/// input is not such text.
pub uninterp spec fn csv_rows(input: Seq<u8>, delimiter: u8) -> Option<Seq<Seq<Seq<char>>>>;

/// The unsigned integer that csv decodes from the text of one field: `None`
/// where the text is no such integer.
pub uninterp spec fn csv_u64(field: Seq<char>) -> Option<u64>;

/// The rows of `v` as plain values.
pub open spec fn rows_view(v: Seq<Vec<String>>) -> Seq<Seq<Seq<char>>> {
    v.map_values(|row: Vec<String>| row@.map_values(|f: String| f@))
}

/// Whether a row is a record: exactly two fields, the second an unsigned
/// integer.
pub open spec fn row_ok(row: Seq<Seq<char>>) -> bool {
    row.len() == 2 && csv_u64(row[1]) is Some
}

/// The record that a well-formed row stands for.
pub open spec fn row_record(row: Seq<Seq<char>>) -> (Seq<char>, u64) {
    (row[0], csv_u64(row[1]).unwrap())
}

/// Relies on csv's `Reader::records` over a reader with no header row and the
/// given delimiter, collected up to its first error, each record as the text
/// of its fields: what it yields depends on the bytes and the delimiter alone.
#[verifier::external_body]
fn read_rows(input: &[u8], delimiter: u8) -> (r: Result<Vec<Vec<String>>, csv::Error>)
    ensures
        match r {
            Ok(v) => csv_rows(input@, delimiter) == Some(rows_view(v@)),
            Err(_) => csv_rows(input@, delimiter) is None,
        },
{
    let mut rdr = csv::ReaderBuilder::new().delimiter(delimiter).has_headers(false).from_reader(
        input,
    );
    rdr.records().map(|r| r.map(|rec| rec.iter().map(String::from).collect())).collect()
}

/// Relies on csv's `StringRecord::deserialize` of a one-field record into a
/// `u64`: the result depends on the field's text alone.
#[verifier::external_body]
fn decode_u64(field: &str) -> (r: Result<u64, csv::Error>)
    ensures
        match r {
            Ok(n) => csv_u64(field@) == Some(n),
            Err(_) => csv_u64(field@) is None,
        },
{
    csv::StringRecord::from(vec![field]).deserialize::<u64>(None)
}

/// Why a workload could not be loaded.
#[derive(Debug)]
pub enum LoadError {
    /// The delimiter specifier was empty.
    Delimiter(DelimiterInvalidError),
    /// The input is not delimited text, or a value is no unsigned integer.
    Parse(csv::Error),
    /// The row at index `row` has `fields` fields rather than two.
    FieldCount { row: usize, fields: usize },
}

/// Whether every row before index `i` is a record.
pub open spec fn rows_ok_before(rows: Seq<Seq<Seq<char>>>, i: int) -> bool {
    forall|j: int| 0 <= j < i ==> #[trigger] row_ok(rows[j])
}

/// What reading a workload from `input` with `delimiter` gives: the records
/// of the rows in order where every row is one, and otherwise the error of
/// the first row that is not.
pub open spec fn load_outcome(
    input: Seq<u8>,
    delimiter: u8,
    r: Result<Vec<QueryRecord>, LoadError>,
) -> bool {
    match csv_rows(input, delimiter) {
        None => r matches Err(LoadError::Parse(_)),
        Some(rows) => match r {
            Ok(w) => rows.len() == w@.len() && forall|i: int|
                0 <= i < rows.len() ==> #[trigger] row_ok(rows[i]) && row_record(rows[i])
                    == w@[i]@,
            Err(LoadError::Parse(_)) => exists|i: int|
                0 <= i < rows.len() && rows_ok_before(rows, i) && rows[i].len() == 2
                    && #[trigger] csv_u64(rows[i][1]) is None,
            Err(LoadError::FieldCount { row, fields }) => row < rows.len() && rows_ok_before(
                rows,
                row as int,
            ) && fields == rows[row as int].len() && fields != 2,
            Err(LoadError::Delimiter(_)) => false,
        },
    }
}

/// Reads a workload from delimited text, one record per row, in the order of
/// the rows. Reading stops at the first malformed row.
pub fn read_workload(input: &[u8], delimiter: u8) -> (r: Result<Vec<QueryRecord>, LoadError>)
    ensures
        load_outcome(input@, delimiter, r),
{
    let rows = match read_rows(input, delimiter) {
        Ok(rows) => rows,
        Err(e) => {
            return Err(LoadError::Parse(e));
        },
    };
    let ghost rv = rows_view(rows@);
    let mut out: Vec<QueryRecord> = Vec::new();
    let mut i: usize = 0;
    while i < rows.len()
        invariant
            i <= rows@.len(),
            rv == rows_view(rows@),
            csv_rows(input@, delimiter) == Some(rv),
            out@.len() == i,
            forall|j: int| 0 <= j < i ==> #[trigger] row_ok(rv[j]) && row_record(rv[j]) == out@[j]@,
        decreases rows@.len() - i,
    {
        let row = &rows[i];
        assert(rv[i as int] == row@.map_values(|f: String| f@));
        if row.len() != 2 {
            return Err(LoadError::FieldCount { row: i, fields: row.len() });
        }
        let value = match decode_u64(row[1].as_str()) {
            Ok(v) => v,
            Err(e) => {
                assert(csv_u64(rv[i as int][1]) is None);
                return Err(LoadError::Parse(e));
            },
        };
        let key = row[0].clone();
        out.push(QueryRecord { key, expected: value });
        assert(row_record(rv[i as int]) == out@[i as int]@);
        i += 1;
    }
    Ok(out)
}

/// Loads a workload as the command line describes it: the delimiter
/// specifier is resolved first (none gives the comma), then the rows are
/// read.
pub fn load_workload(input: &[u8], delimiter: Option<&str>) -> (r: Result<
    Vec<QueryRecord>,
    LoadError,
>)
    ensures
        match delimiter {
            Some(s) if delimiter_of(s.spec_bytes()) is None => r matches Err(LoadError::Delimiter(_)),
            Some(s) => load_outcome(input@, delimiter_of(s.spec_bytes()).unwrap(), r),
            None => load_outcome(input@, DEFAULT_DELIMITER, r),
        },
{
    let d = match resolve_delimiter(delimiter) {
        Ok(d) => d,
        Err(e) => {
            return Err(LoadError::Delimiter(e));
        },
    };
    read_workload(input, d)
}

} // verus!
