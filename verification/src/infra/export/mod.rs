//! Export writers: byte generators for tabular file formats. Writing the
//! bytes to disk happens in the application layer.
pub mod csv;
pub mod pdf;
pub mod xlsx;

use vstd::prelude::*;

verus! {

/// The file formats the user can export to.
#[derive(Debug, Clone, Copy, PartialEq, Eq, Structural)]
pub enum ExportFormat {
    Csv,
    Xlsx,
    Json,
    Pdf,
}

/// Generic tabular shape the CSV/XLSX/PDF writers consume: one header row
/// and any number of data rows, every cell already rendered as text.
#[derive(Debug, Clone)]
pub struct ExportTable {
    pub headers: Vec<String>,
    pub rows: Vec<Vec<String>>,
}

impl Default for ExportTable {
    fn default() -> (t: ExportTable)
        ensures
            t.headers@.len() == 0,
            t.rows@.len() == 0,
    {
        ExportTable { headers: Vec::new(), rows: Vec::new() }
    }
}

/// The text of each cell of a row.
pub open spec fn row_view(row: Seq<String>) -> Seq<Seq<char>> {
    row.map_values(|c: String| c@)
}

} // verus!
