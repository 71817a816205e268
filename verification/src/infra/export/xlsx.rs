//! XLSX export through `rust_xlsxwriter`: one worksheet, a bold header row,
//! then one worksheet row per data row.
use vstd::prelude::*;
use rust_xlsxwriter::{Format, Workbook, Worksheet};
use super::ExportTable;
use crate::error::AppError;

verus! {

#[verifier::external_type_specification]
#[verifier::external_body]
pub struct ExWorkbook(Workbook);

#[verifier::external_type_specification]
#[verifier::external_body]
pub struct ExWorksheet(Worksheet);

#[verifier::external_type_specification]
#[verifier::external_body]
pub struct ExFormat(Format);

/// Excel's row limit: rows are numbered `0..ROW_MAX`.
pub const ROW_MAX: u32 = 1_048_576;

/// Excel's column limit: columns are numbered `0..COL_MAX`.
pub const COL_MAX: u16 = 16_384;

/// Excel's limit on a cell's string, in UTF-16 code units.
pub const MAX_STRING_LEN: u32 = 32_767;

/// The length of a string in UTF-16 code units: characters outside the
/// Basic Multilingual Plane take two.
pub open spec fn utf16_len(s: Seq<char>) -> nat
    decreases s.len(),
{
    if s.len() == 0 {
        0
    } else {
        utf16_len(s.drop_last()) + if (s.last() as u32) >= 0x10000 {
            2nat
        } else {
            1nat
        }
    }
}

/// `rust_xlsxwriter`'s message for a cell outside the worksheet limits.
pub open spec fn row_col_limit_message() -> Seq<char> {
    "Row or column exceeds Excel's allowed limits (1,048,576 x 16,384)."@
}

/// `rust_xlsxwriter`'s message for a string over the cell limit.
pub open spec fn string_length_message() -> Seq<char> {
    "String exceeds Excel's limit of 32,767 characters."@
}

/// Why writing string `s` into cell `(row, col)` fails, if it does. An
/// empty string without a format is skipped (Excel ignores it); with a
/// format it becomes a blank cell, which only needs a valid position.
/// Otherwise the position is checked first, then the string's length.
pub open spec fn string_cell_error(row: u32, col: u16, s: Seq<char>, formatted: bool) -> Option<
    Seq<char>,
> {
    if s.len() == 0 && !formatted {
        None
    } else if !(row < ROW_MAX && col < COL_MAX) {
        Some(row_col_limit_message())
    } else if s.len() != 0 && utf16_len(s) > MAX_STRING_LEN {
        Some(string_length_message())
    } else {
        None
    }
}

/// A worksheet's cells by `(row, column)`: the text written there (a
/// blank cell holds empty text) and whether the cell's format is bold.
pub type SheetCells = Map<(u32, u16), (Seq<char>, bool)>;

/// What a worksheet's cells hold.
pub uninterp spec fn sheet_cells(sheet: Worksheet) -> SheetCells;

/// Whether no row and no column of the worksheet carries a format (set by
/// `set_row_format` or `set_column_format`). Only then does a cell
/// written without a format of its own keep the default format.
pub uninterp spec fn no_line_formats(sheet: Worksheet) -> bool;

/// The cells of a workbook's worksheets, in the order they were added.
pub uninterp spec fn workbook_sheets(workbook: Workbook) -> Seq<SheetCells>;

/// Whether a format sets a bold font.
pub uninterp spec fn format_bold(format: Format) -> bool;

/// The worksheets' cells that an xlsx file holds, in tab order.
pub uninterp spec fn xlsx_file_sheets(file: Seq<u8>) -> Seq<SheetCells>;

/// A worksheet with nothing written in it.
pub open spec fn no_cells() -> SheetCells {
    Map::empty()
}

/// `Workbook::new`: a workbook without worksheets.
#[verifier::external_body]
fn xlsx_workbook_new() -> (w: Workbook)
    ensures
        workbook_sheets(w).len() == 0,
{
    Workbook::new()
}

/// `Workbook::add_worksheet`: a new, empty worksheet named `SheetN`
/// without row or column formats, appended to the workbook's worksheets
/// and lent out for writing.
#[verifier::external_body]
fn xlsx_add_worksheet(workbook: &mut Workbook) -> (r: &mut Worksheet)
    ensures
        sheet_cells(*r) == no_cells(),
        no_line_formats(*r),
        workbook_sheets(*final(workbook)) == workbook_sheets(*old(workbook)).push(
            sheet_cells(*final(r)),
        ),
{
    workbook.add_worksheet()
}

/// `Format::new`: the default cell format, which is not bold.
#[verifier::external_body]
fn xlsx_format_new() -> (f: Format)
    ensures
        !format_bold(f),
{
    Format::new()
}

/// `Format::set_bold`: the format with a bold font.
#[verifier::external_body]
fn xlsx_set_bold(format: Format) -> (f: Format)
    ensures
        format_bold(f),
{
    format.set_bold()
}

/// `Worksheet::write_string`, on a worksheet without row or column
/// formats: fails exactly as `string_cell_error` says for an unformatted
/// cell, with the error's display text, leaving the cells as they were;
/// otherwise stores the text in the cell with the default format (an
/// empty text is skipped). Row and column formats stay unset.
#[verifier::external_body]
fn xlsx_write_string(sheet: &mut Worksheet, row: u32, col: u16, s: &str) -> (r: Result<(), String>)
    requires
        no_line_formats(*old(sheet)),
    ensures
        no_line_formats(*final(sheet)),
        match string_cell_error(row, col, s@, false) {
            None => r is Ok,
            Some(m) => r is Err && r->Err_0@ == m,
        },
        r is Err ==> sheet_cells(*final(sheet)) == sheet_cells(*old(sheet)),
        r is Ok ==> sheet_cells(*final(sheet)) == if s@.len() == 0 {
            sheet_cells(*old(sheet))
        } else {
            sheet_cells(*old(sheet)).insert((row, col), (s@, false))
        },
{
    match sheet.write_string(row, col, s) {
        Ok(_) => Ok(()),
        Err(e) => Err(e.to_string()),
    }
}

/// `Worksheet::write_string_with_format`, on a worksheet without row or
/// column formats: fails exactly as `string_cell_error` says for a
/// formatted cell, with the error's display text, leaving the cells as
/// they were; otherwise stores the text in the cell with the format (an
/// empty text makes a blank cell). Row and column formats stay unset.
#[verifier::external_body]
fn xlsx_write_string_with_format(
    sheet: &mut Worksheet,
    row: u32,
    col: u16,
    s: &str,
    format: &Format,
) -> (r: Result<(), String>)
    requires
        no_line_formats(*old(sheet)),
    ensures
        no_line_formats(*final(sheet)),
        match string_cell_error(row, col, s@, true) {
            None => r is Ok,
            Some(m) => r is Err && r->Err_0@ == m,
        },
        r is Err ==> sheet_cells(*final(sheet)) == sheet_cells(*old(sheet)),
        r is Ok ==> sheet_cells(*final(sheet)) == sheet_cells(*old(sheet)).insert(
            (row, col),
            (s@, format_bold(*format)),
        ),
{
    match sheet.write_string_with_format(row, col, s, format) {
        Ok(_) => Ok(()),
        Err(e) => Err(e.to_string()),
    }
}

/// `Workbook::save_to_buffer`: the workbook as the bytes of an xlsx file,
/// or the error's display text. A workbook with worksheets is saved with
/// exactly those worksheets (one without any gets a blank one). The file
/// also records the time it was made, so the bytes themselves are not
/// stated, and whether saving succeeds is left open.
#[verifier::external_body]
fn xlsx_save_to_buffer(workbook: &mut Workbook) -> (r: Result<Vec<u8>, String>)
    ensures
        r is Ok && workbook_sheets(*old(workbook)).len() > 0 ==> xlsx_file_sheets(r->Ok_0@)
            == workbook_sheets(*old(workbook)),
{
    workbook.save_to_buffer().map_err(|e| e.to_string())
}

/// Why the header cell of column `i` cannot be written, if it cannot.
pub open spec fn header_error(t: ExportTable, i: int) -> Option<Seq<char>> {
    string_cell_error(0, i as u16, t.headers@[i]@, true)
}

/// Why the cell of data row `r`, column `c` (worksheet row `r + 1`)
/// cannot be written, if it cannot.
pub open spec fn body_error(t: ExportTable, r: int, c: int) -> Option<Seq<char>> {
    string_cell_error((r + 1) as u32, c as u16, t.rows@[r]@[c]@, false)
}

/// Whether `(r, c)` is a data cell of the table.
pub open spec fn is_body_cell(t: ExportTable, r: int, c: int) -> bool {
    0 <= r < t.rows@.len() && 0 <= c < t.rows@[r]@.len()
}

/// Every header cell before column `i` can be written.
pub open spec fn headers_ok_before(t: ExportTable, i: int) -> bool {
    forall|j: int| 0 <= j < i && j < t.headers@.len() ==> (#[trigger] header_error(t, j)) is None
}

/// Every data cell before `(r, c)`, in row-major order, can be written.
pub open spec fn bodies_ok_before(t: ExportTable, r: int, c: int) -> bool {
    forall|r2: int, c2: int|
        is_body_cell(t, r2, c2) && (r2 < r || (r2 == r && c2 < c)) ==> (#[trigger] body_error(
            t,
            r2,
            c2,
        )) is None
}

/// Every cell of the table can be written.
pub open spec fn all_cells_ok(t: ExportTable) -> bool {
    headers_ok_before(t, t.headers@.len() as int) && bodies_ok_before(t, t.rows@.len() as int, 0)
}

/// `m` is the message of the first cell, in writing order (headers left
/// to right, then the data rows top to bottom), that cannot be written.
pub open spec fn is_first_failure(t: ExportTable, m: Seq<char>) -> bool {
    ||| exists|i: int|
        0 <= i < t.headers@.len() && headers_ok_before(t, i) && #[trigger] header_error(t, i) == Some(
            m,
        )
    ||| headers_ok_before(t, t.headers@.len() as int) && exists|r: int, c: int|
        is_body_cell(t, r, c) && bodies_ok_before(t, r, c) && #[trigger] body_error(t, r, c)
            == Some(m)
}

/// `cells` after writing the first `i` headers into row 0, bold or not.
pub open spec fn with_header_cells(t: ExportTable, i: int, bold: bool, cells: SheetCells) -> SheetCells
    decreases i,
{
    if i <= 0 {
        cells
    } else {
        with_header_cells(t, i - 1, bold, cells).insert(
            (0u32, (i - 1) as u16),
            (t.headers@[i - 1]@, bold),
        )
    }
}

/// `cells` after writing the first `c` cells of data row `r` into
/// worksheet row `r + 1` (empty texts are skipped).
pub open spec fn with_row_cells(t: ExportTable, r: int, c: int, cells: SheetCells) -> SheetCells
    decreases c,
{
    if c <= 0 {
        cells
    } else {
        let before = with_row_cells(t, r, c - 1, cells);
        if t.rows@[r]@[c - 1]@.len() == 0 {
            before
        } else {
            before.insert(((r + 1) as u32, (c - 1) as u16), (t.rows@[r]@[c - 1]@, false))
        }
    }
}

/// `cells` after writing the first `r` data rows.
pub open spec fn with_rows(t: ExportTable, r: int, cells: SheetCells) -> SheetCells
    decreases r,
{
    if r <= 0 {
        cells
    } else {
        with_row_cells(t, r - 1, t.rows@[r - 1]@.len() as int, with_rows(t, r - 1, cells))
    }
}

/// `cells` after writing the whole table: the headers into row 0 (bold
/// or not), then data row `r` into row `r + 1` in the default format,
/// each text at its column.
pub open spec fn with_table(t: ExportTable, header_bold: bool, cells: SheetCells) -> SheetCells {
    with_rows(
        t,
        t.rows@.len() as int,
        with_header_cells(t, t.headers@.len() as int, header_bold, cells),
    )
}

/// Writes the table into `sheet`, which has no row or column formats:
/// the headers, in `header_format`, on the first row, then each data row
/// below in the default format. Fails with the message of the first cell
/// that cannot be written; on success the sheet holds exactly what it
/// held plus the table's cells.
pub fn fill_worksheet(sheet: &mut Worksheet, table: &ExportTable, header_format: &Format) -> (r:
    Result<(), AppError>)
    requires
        no_line_formats(*old(sheet)),
    ensures
        r is Ok <==> all_cells_ok(*table),
        r is Err ==> (r matches Err(AppError::Export(m)) && is_first_failure(*table, m@)),
        r is Ok ==> sheet_cells(*final(sheet)) == with_table(
            *table,
            format_bold(*header_format),
            sheet_cells(*old(sheet)),
        ),
{
    let ghost start = sheet_cells(*sheet);
    let mut i: usize = 0;
    while i < table.headers.len()
        invariant
            i <= table.headers@.len(),
            headers_ok_before(*table, i as int),
            no_line_formats(*sheet),
            sheet_cells(*sheet) == with_header_cells(
                *table,
                i as int,
                format_bold(*header_format),
                start,
            ),
        decreases table.headers@.len() - i,
    {
        let col = i as u16;
        match xlsx_write_string_with_format(sheet, 0, col, table.headers[i].as_str(), header_format) {
            Ok(()) => {},
            Err(e) => {
                assert(header_error(*table, i as int) == Some(e@));
                return Err(AppError::Export(e));
            },
        }
        assert(header_error(*table, i as int) is None);
        i = i + 1;
    }
    let ghost after_headers = sheet_cells(*sheet);
    let mut r: usize = 0;
    while r < table.rows.len()
        invariant
            r <= table.rows@.len(),
            headers_ok_before(*table, table.headers@.len() as int),
            bodies_ok_before(*table, r as int, 0),
            no_line_formats(*sheet),
            after_headers == with_header_cells(
                *table,
                table.headers@.len() as int,
                format_bold(*header_format),
                start,
            ),
            sheet_cells(*sheet) == with_rows(*table, r as int, after_headers),
        decreases table.rows@.len() - r,
    {
        let row = &table.rows[r];
        let sheet_row = (r + 1) as u32;
        let ghost row_start = sheet_cells(*sheet);
        let mut c: usize = 0;
        while c < row.len()
            invariant
                r < table.rows@.len(),
                *row == table.rows@[r as int],
                sheet_row == (r + 1) as u32,
                c <= row@.len(),
                headers_ok_before(*table, table.headers@.len() as int),
                bodies_ok_before(*table, r as int, c as int),
                no_line_formats(*sheet),
                sheet_cells(*sheet) == with_row_cells(*table, r as int, c as int, row_start),
            decreases row@.len() - c,
        {
            let col = c as u16;
            match xlsx_write_string(sheet, sheet_row, col, row[c].as_str()) {
                Ok(()) => {},
                Err(e) => {
                    assert(body_error(*table, r as int, c as int) == Some(e@));
                    assert(is_body_cell(*table, r as int, c as int));
                    return Err(AppError::Export(e));
                },
            }
            assert(body_error(*table, r as int, c as int) is None);
            c = c + 1;
        }
        assert(bodies_ok_before(*table, r + 1, 0)) by {
            assert forall|r2: int, c2: int|
                is_body_cell(*table, r2, c2) && (r2 < r + 1 || (r2 == r + 1 && c2 < 0)) implies (
            #[trigger] body_error(*table, r2, c2)) is None by {
                if r2 == r {
                    assert(c2 < c);
                }
            }
        }
        r = r + 1;
    }
    Ok(())
}

/// Builds a one-sheet workbook holding the table: the headers in bold on
/// the first row, each data row below. Fails with the message of the
/// first cell that cannot be written.
pub fn build_workbook(table: &ExportTable) -> (r: Result<Workbook, AppError>)
    ensures
        r is Ok <==> all_cells_ok(*table),
        r is Err ==> (r matches Err(AppError::Export(m)) && is_first_failure(*table, m@)),
        r is Ok ==> workbook_sheets(r->Ok_0) == seq![with_table(*table, true, no_cells())],
{
    let mut workbook = xlsx_workbook_new();
    let header_format = xlsx_set_bold(xlsx_format_new());
    let sheet = xlsx_add_worksheet(&mut workbook);
    let filled = fill_worksheet(sheet, table, &header_format);
    match filled {
        Ok(()) => {
            assert(workbook_sheets(workbook) =~= seq![with_table(*table, true, no_cells())]);
            Ok(workbook)
        },
        Err(e) => Err(e),
    }
}

/// What `write` answers for the outcome of saving the workbook: the bytes,
/// or the save's message as an export error.
pub fn saved_export(saved: Result<Vec<u8>, String>) -> (r: Result<Vec<u8>, AppError>)
    ensures
        match saved {
            Ok(bytes) => r matches Ok(out) && out@ == bytes@,
            Err(m) => r matches Err(AppError::Export(e)) && e@ == m@,
        },
{
    match saved {
        Ok(bytes) => Ok(bytes),
        Err(m) => Err(AppError::Export(m)),
    }
}

/// Writes the table into a one-sheet workbook (see `build_workbook`) and
/// saves it. Fails with the message of the first cell that cannot be
/// written; when every cell can be, the result is whatever saving the
/// workbook gave, and saved bytes hold exactly the table's worksheet.
pub fn write(table: &ExportTable) -> (r: Result<Vec<u8>, AppError>)
    ensures
        r is Ok ==> all_cells_ok(*table) && xlsx_file_sheets(r->Ok_0@) == seq![
            with_table(*table, true, no_cells()),
        ],
        !all_cells_ok(*table) ==> (r matches Err(AppError::Export(m)) && is_first_failure(
            *table,
            m@,
        )),
        r is Err ==> r matches Err(AppError::Export(_)),
{
    let mut workbook = match build_workbook(table) {
        Ok(w) => w,
        Err(e) => {
            return Err(e);
        },
    };
    saved_export(xlsx_save_to_buffer(&mut workbook))
}

} // verus!
