//! CSV export through the `csv` crate's writer (default dialect: `,`
//! delimiter, `"` quoting only where needed, `\n` record terminator).
use vstd::prelude::*;
use super::{row_view, ExportTable};
use crate::error::AppError;
use vstd::utf8::{encode_scalar, encode_utf8};

verus! {

/// A `csv::Writer` writing into memory. (Verus cannot take the writer's
/// `io::Write` bound, so the writer is held here, out of Verus's sight.)
#[verifier::external_body]
pub struct CsvBuffer {
    writer: ::csv::Writer<Vec<u8>>,
}

/// The characters that make the writer quote a field: the delimiter, the
/// quote character and the line breaks.
pub open spec fn csv_special(c: char) -> bool {
    c == ',' || c == '"' || c == '\r' || c == '\n'
}

/// Whether a field holds a character that makes the writer quote it.
pub open spec fn csv_needs_quotes(field: Seq<char>) -> bool
    decreases field.len(),
{
    field.len() > 0 && (csv_special(field[0]) || csv_needs_quotes(field.drop_first()))
}

/// The UTF-8 bytes of a field with each `"` doubled.
pub open spec fn csv_escaped(field: Seq<char>) -> Seq<u8>
    decreases field.len(),
{
    if field.len() == 0 {
        seq![]
    } else {
        (if field[0] == '"' {
            seq![0x22u8, 0x22u8]
        } else {
            encode_scalar(field[0] as u32)
        }) + csv_escaped(field.drop_first())
    }
}

/// One field as written: its UTF-8 bytes, or, when it holds a special
/// character, those bytes with `"` doubled between a pair of `"`.
pub open spec fn csv_field(field: Seq<char>) -> Seq<u8> {
    if csv_needs_quotes(field) {
        seq![0x22u8] + csv_escaped(field) + seq![0x22u8]
    } else {
        encode_utf8(field)
    }
}

/// The fields as written, separated by `,`.
pub open spec fn csv_joined(fields: Seq<Seq<char>>) -> Seq<u8>
    decreases fields.len(),
{
    if fields.len() == 0 {
        seq![]
    } else if fields.len() == 1 {
        csv_field(fields[0])
    } else {
        csv_joined(fields.drop_last()) + seq![0x2Cu8] + csv_field(fields.last())
    }
}

/// The bytes the `csv` writer (default dialect) produces for one record
/// written at the start of a line: the fields, separated by `,` and
/// followed by `\n`. A record that would otherwise be an empty line (no
/// fields, or a single empty one) is written as `""`.
pub open spec fn csv_record(fields: Seq<Seq<char>>) -> Seq<u8> {
    if fields.len() == 0 || (fields.len() == 1 && fields[0].len() == 0) {
        seq![0x22u8, 0x22u8, 0x0Au8]
    } else {
        csv_joined(fields) + seq![0x0Au8]
    }
}

/// Everything a writer has produced so far (flushed or still buffered).
pub uninterp spec fn csv_output(w: CsvBuffer) -> Seq<u8>;

/// The field count fixed by the first record written, if any.
pub uninterp spec fn csv_record_len(w: CsvBuffer) -> Option<nat>;

/// Whether the writer stands between records (no partial record pending).
pub uninterp spec fn csv_between_records(w: CsvBuffer) -> bool;

/// `csv::Writer::from_writer(Vec::new())`: an empty, unconfigured writer.
#[verifier::external_body]
fn csv_writer_new() -> (w: CsvBuffer)
    ensures
        csv_output(w) == Seq::<u8>::empty(),
        csv_record_len(w) is None,
        csv_between_records(w),
{
    CsvBuffer { writer: ::csv::Writer::from_writer(Vec::new()) }
}

/// `csv::Writer::write_record`. The writer is not `flexible`, so a record
/// whose field count differs from the first record's is refused with
/// `UnequalLengths`; writing into a `Vec` cannot fail otherwise. The
/// error is returned as its display text. After an error nothing is
/// stated about the writer.
#[verifier::external_body]
fn csv_write_record(w: &mut CsvBuffer, fields: &Vec<String>) -> (r: Result<(), String>)
    requires
        csv_between_records(*old(w)),
    ensures
        r is Ok <==> (csv_record_len(*old(w)) is None || csv_record_len(*old(w)) == Some(
            fields@.len(),
        )),
        r is Ok ==> {
            &&& csv_between_records(*final(w))
            &&& csv_output(*final(w)) == csv_output(*old(w)) + csv_record(row_view(fields@))
            &&& csv_record_len(*final(w)) == Some(
                match csv_record_len(*old(w)) {
                    Some(n) => n,
                    None => fields@.len(),
                },
            )
        },
{
    w.writer.write_record(fields).map_err(|e| e.to_string())
}

/// `csv::Writer::into_inner`: flushes into the `Vec` (which cannot fail)
/// and returns it.
#[verifier::external_body]
fn csv_into_inner(w: CsvBuffer) -> (r: Result<Vec<u8>, String>)
    ensures
        r is Ok,
        r is Ok ==> r->Ok_0@ == csv_output(w),
{
    w.writer.into_inner().map_err(|e| e.to_string())
}

/// The CSV text of `headers` followed by `rows[..n]`.
pub open spec fn csv_table_prefix(headers: Seq<String>, rows: Seq<Vec<String>>, n: int) -> Seq<u8>
    decreases n,
{
    if n <= 0 {
        csv_record(row_view(headers))
    } else {
        csv_table_prefix(headers, rows, n - 1) + csv_record(row_view(rows[n - 1]@))
    }
}

/// Whether every data row has exactly as many cells as there are headers.
pub open spec fn rows_match_headers(table: ExportTable) -> bool {
    forall|i: int| 0 <= i < table.rows@.len() ==> (#[trigger] table.rows@[i])@.len()
        == table.headers@.len()
}

/// Writes the header row, then every data row, as CSV. Fails (with the
/// `csv` crate's message) exactly when some data row has a different
/// number of cells than the header row.
pub fn write(table: &ExportTable) -> (r: Result<Vec<u8>, AppError>)
    ensures
        match r {
            Ok(bytes) => rows_match_headers(*table) && bytes@ == csv_table_prefix(
                table.headers@,
                table.rows@,
                table.rows@.len() as int,
            ),
            Err(AppError::Export(_)) => !rows_match_headers(*table),
            Err(_) => false,
        },
{
    let mut writer = csv_writer_new();
    match csv_write_record(&mut writer, &table.headers) {
        Ok(()) => {},
        Err(e) => return Err(AppError::Export(e)),
    }
    let mut i: usize = 0;
    while i < table.rows.len()
        invariant
            i <= table.rows@.len(),
            csv_between_records(writer),
            csv_record_len(writer) == Some(table.headers@.len()),
            csv_output(writer) == csv_table_prefix(table.headers@, table.rows@, i as int),
            forall|j: int| 0 <= j < i ==> (#[trigger] table.rows@[j])@.len()
                == table.headers@.len(),
        decreases table.rows@.len() - i,
    {
        match csv_write_record(&mut writer, &table.rows[i]) {
            Ok(()) => {},
            Err(e) => {
                assert(table.rows@[i as int]@.len() != table.headers@.len());
                return Err(AppError::Export(e));
            },
        }
        i = i + 1;
    }
    match csv_into_inner(writer) {
        Ok(bytes) => Ok(bytes),
        Err(e) => Err(AppError::Export(e)),
    }
}

} // verus!
