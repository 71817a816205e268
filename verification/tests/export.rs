use tf2_terminal::error::AppError;
use tf2_terminal::infra::export::pdf::{paginate, truncate};
use tf2_terminal::infra::export::{csv, xlsx, ExportTable};

fn strings(values: &[&str]) -> Vec<String> {
    values.iter().map(|v| v.to_string()).collect()
}

const ZIP_MAGIC: [u8; 4] = [0x50, 0x4B, 0x03, 0x04];

#[test]
fn writes_header_and_rows_roundtrippable() {
    let table = ExportTable {
        headers: strings(&["Name", "Quality"]),
        rows: vec![
            strings(&["Team Captain", "Unique"]),
            strings(&["Rocket Launcher, Mk. II", "Strange"]),
        ],
    };

    let bytes = csv::write(&table).unwrap();
    let mut reader = ::csv::Reader::from_reader(bytes.as_slice());

    assert_eq!(
        reader.headers().unwrap().iter().collect::<Vec<_>>(),
        vec!["Name", "Quality"]
    );
    let records: Vec<_> = reader.records().map(|r| r.unwrap()).collect();
    assert_eq!(records.len(), 2);
    assert_eq!(records[1].get(0), Some("Rocket Launcher, Mk. II"));
}

#[test]
fn empty_table_still_writes_a_header_row() {
    let table = ExportTable {
        headers: strings(&["Name"]),
        rows: vec![],
    };

    let bytes = csv::write(&table).unwrap();
    let text = String::from_utf8(bytes).unwrap();
    assert_eq!(text.trim(), "Name");
}

#[test]
fn csv_quotes_fields_that_contain_the_delimiter() {
    let table = ExportTable {
        headers: strings(&["Name", "Value"]),
        rows: vec![strings(&["Rocket Launcher, Mk. II", "1.5"])],
    };
    let bytes = csv::write(&table).unwrap();
    assert_eq!(
        String::from_utf8(bytes).unwrap(),
        "Name,Value\n\"Rocket Launcher, Mk. II\",1.5\n"
    );
}

#[test]
fn csv_rejects_a_row_with_the_wrong_number_of_cells() {
    let table = ExportTable {
        headers: strings(&["Name", "Value"]),
        rows: vec![strings(&["Team Captain"])],
    };
    assert!(matches!(csv::write(&table), Err(AppError::Export(_))));
}

#[test]
fn csv_default_table_is_an_empty_header_record() {
    let table = ExportTable::default();
    assert!(table.headers.is_empty() && table.rows.is_empty());
    assert!(csv::write(&table).is_ok());
}

#[test]
fn produces_a_valid_zip_container() {
    let table = ExportTable {
        headers: strings(&["Name", "Value (ref)"]),
        rows: vec![strings(&["Team Captain", "42.5"])],
    };

    let bytes = xlsx::write(&table).unwrap();
    assert!(!bytes.is_empty());
    assert_eq!(&bytes[0..4], &ZIP_MAGIC);
}

#[test]
fn empty_rows_still_produce_a_valid_workbook() {
    let table = ExportTable {
        headers: strings(&["Name"]),
        rows: vec![],
    };

    let bytes = xlsx::write(&table).unwrap();
    assert_eq!(&bytes[0..4], &ZIP_MAGIC);
}

#[test]
fn xlsx_rejects_a_cell_over_the_string_limit() {
    let long = "x".repeat(32_768);
    let table = ExportTable {
        headers: strings(&["Name"]),
        rows: vec![vec![long]],
    };
    match xlsx::write(&table) {
        Err(AppError::Export(m)) => {
            assert_eq!(m, "String exceeds Excel's limit of 32,767 characters.")
        }
        other => panic!("unexpected result: {:?}", other.map(|b| b.len())),
    }
}

#[test]
fn xlsx_accepts_a_cell_at_the_string_limit() {
    let table = ExportTable {
        headers: strings(&["Name"]),
        rows: vec![vec!["y".repeat(32_767)]],
    };
    assert!(xlsx::write(&table).is_ok());
}

#[test]
fn xlsx_counts_the_string_limit_in_utf16_units() {
    // 16,384 characters outside the BMP take 32,768 UTF-16 units.
    let table = ExportTable {
        headers: vec!["\u{1F600}".repeat(16_384)],
        rows: vec![],
    };
    assert!(matches!(xlsx::write(&table), Err(AppError::Export(_))));
}

#[test]
fn truncate_leaves_short_strings_untouched() {
    assert_eq!(truncate("Team Captain", 20), "Team Captain");
}

#[test]
fn truncate_shortens_long_strings_with_an_ellipsis() {
    let out = truncate("A very long item name that overflows a column", 10);
    assert_eq!(out.chars().count(), 10);
    assert!(out.ends_with('…'));
}

#[test]
fn truncate_without_a_limit_keeps_everything() {
    assert_eq!(truncate("Strange Professional Killstreak", 0), "Strange Professional Killstreak");
}

#[test]
fn truncate_to_one_character_is_just_the_ellipsis() {
    assert_eq!(truncate("Bat", 1), "…");
    assert_eq!(truncate("Bat", 3), "Bat");
    assert_eq!(truncate("Bottle", 4), "Bot…");
}

#[test]
fn paginate_puts_an_empty_table_on_one_page() {
    assert_eq!(paginate(0, 29), vec![(0, 0)]);
}

#[test]
fn paginate_fills_pages_in_order() {
    assert_eq!(paginate(60, 29), vec![(0, 29), (29, 58), (58, 60)]);
    assert_eq!(paginate(29, 29), vec![(0, 29)]);
    assert_eq!(paginate(3, 1), vec![(0, 1), (1, 2), (2, 3)]);
}

#[test]
fn fill_worksheet_writes_every_cell_or_names_the_first_failure() {
    let format = rust_xlsxwriter::Format::new().set_bold();
    let mut sheet = rust_xlsxwriter::Worksheet::new();
    let table = ExportTable {
        headers: strings(&["Name", ""]),
        rows: vec![strings(&["Team Captain", ""]), strings(&["Bat"])],
    };
    assert!(xlsx::fill_worksheet(&mut sheet, &table, &format).is_ok());

    let mut sheet = rust_xlsxwriter::Worksheet::new();
    let bad = ExportTable {
        headers: strings(&["Name"]),
        rows: vec![strings(&["ok"]), vec!["z".repeat(40_000)], vec!["w".repeat(50_000)]],
    };
    match xlsx::fill_worksheet(&mut sheet, &bad, &format) {
        Err(AppError::Export(m)) => {
            assert_eq!(m, "String exceeds Excel's limit of 32,767 characters.")
        }
        other => panic!("unexpected result: {:?}", other),
    }
}

#[test]
fn xlsx_build_workbook_holds_one_sheet_that_saves_as_a_zip() {
    let table = ExportTable {
        headers: strings(&["Name"]),
        rows: vec![strings(&["Team Captain"])],
    };
    let mut workbook = xlsx::build_workbook(&table).unwrap();
    let bytes = workbook.save_to_buffer().unwrap();
    assert_eq!(&bytes[..4], &ZIP_MAGIC);
    let bad = ExportTable {
        headers: strings(&["Name"]),
        rows: vec![vec!["x".repeat(32_768)]],
    };
    assert!(matches!(xlsx::build_workbook(&bad), Err(AppError::Export(_))));
}

#[test]
fn xlsx_saved_export_maps_a_failed_save_to_an_export_error() {
    assert_eq!(
        xlsx::saved_export(Err("zip failed".to_string())),
        Err(AppError::Export("zip failed".to_string()))
    );
    assert_eq!(xlsx::saved_export(Ok(vec![1, 2])), Ok(vec![1, 2]));
}
