use invoicevault::xlsx::{
    cell_reference_to_index, extract_between, inspect_spreadsheet_attachment, parse_shared_strings,
    parse_xlsx_sheet_rows, sheet_from_csv_records, sheet_from_rows, spreadsheet_kind, xml_unescape, SheetSource,
    SpreadsheetKind,
};

fn row(cells: &[&str]) -> Vec<String> {
    cells.iter().map(|c| c.to_string()).collect()
}

#[test]
fn unescapes_xml_entities() {
    assert_eq!(xml_unescape("a &lt;b&gt; &quot;c&quot; &apos;d&apos; &amp; e"), "a <b> \"c\" 'd' & e");
    // `&amp;` is replaced last, so an escaped entity stays an entity
    assert_eq!(xml_unescape("&amp;lt;"), "&lt;");
}

#[test]
fn extracts_text_between_markers() {
    assert_eq!(extract_between("<v>12</v>", "<v>", "</v>"), Some("12".to_owned()));
    assert_eq!(extract_between("<c/>", "<v>", "</v>"), None);
}

#[test]
fn cell_references_to_column_indexes() {
    assert_eq!(cell_reference_to_index(" r=\"A1\" t=\"s\""), Some(0));
    assert_eq!(cell_reference_to_index(" r=\"C7\""), Some(2));
    assert_eq!(cell_reference_to_index(" r='AA10'"), Some(26));
    assert_eq!(cell_reference_to_index(" r=\"12\""), None);
    assert_eq!(cell_reference_to_index(" s=\"1\""), None);
}

#[test]
fn reads_shared_strings() {
    let xml = "<sst><si><r><t>Inv</t></r><r><t xml:space=\"preserve\">oice</t></r></si><si><t>x</t></si></sst>";
    let strings = parse_shared_strings(xml);
    assert_eq!(strings.len(), 2);
    // the text is taken between the first two `>` after `<t`, as the reader has always done
    assert_eq!(strings[0], "Inv</toice</t");
    assert_eq!(strings[1], "x</t");
}

#[test]
fn reads_sheet_rows_with_shared_and_inline_cells() {
    let xml = "<sheetData><row r=\"1\"><c r=\"A1\" t=\"s\"><v>0</v></c><c r=\"C1\"><v>42</v></c></row>\
               <row r=\"2\"><c r=\"B2\" t=\"inlineStr\"><is><t>Hi &amp; bye</t></is></c></row>\
               <row r=\"3\"><c r=\"A3\"><v> </v></c></row></sheetData>";
    let shared = vec!["Name".to_owned()];
    let rows = parse_xlsx_sheet_rows(xml, &shared, 10);
    assert_eq!(rows, vec![row(&["Name", "", "42"]), row(&["", "Hi & bye"])]);
    let first_only = parse_xlsx_sheet_rows(xml, &shared, 1);
    assert_eq!(first_only, vec![row(&["Name", "", "42"])]);
}

#[test]
fn header_row_skips_title_rows() {
    let rows = vec![row(&["Invoices 2024"]), row(&["No", "", "Date", "Amount"]), row(&["1", "", "2024-01-01", "10"])];
    let sheet = sheet_from_rows("Sheet1", rows, 5);
    assert_eq!(sheet.name, "Sheet1");
    assert_eq!(sheet.header_row, 2);
    let cols: Vec<(usize, String)> = sheet.columns.iter().map(|c| (c.index, c.label.clone())).collect();
    assert_eq!(cols, vec![(1, "No".to_owned()), (3, "Date".to_owned()), (4, "Amount".to_owned())]);
    assert_eq!(sheet.sample_rows, vec![row(&["1", "", "2024-01-01", "10"])]);
}

#[test]
fn csv_sheet_is_named_csv() {
    let sheet = sheet_from_csv_records(vec![row(&[" a ", "b", "c"]), row(&["1", "2", "3"])], 5);
    assert_eq!(sheet.name, "CSV");
    assert_eq!(sheet.header_row, 1);
    assert_eq!(sheet.columns.len(), 3);
    assert_eq!(sheet.sample_rows.len(), 1);
}

#[test]
fn spreadsheet_kinds() {
    assert!(matches!(spreadsheet_kind("CSV"), Ok(SpreadsheetKind::Csv)));
    assert!(matches!(spreadsheet_kind("xlsx"), Ok(SpreadsheetKind::Xlsx)));
    assert_eq!(spreadsheet_kind("xls").err(), Some("目前仅支持检查 csv/xlsx 表格".to_owned()));
}

#[test]
fn inspects_a_csv_attachment() {
    let source = SheetSource::Csv { records: vec![row(&["a", "b", "c"]), row(&["1", "2", "3"]), row(&["4", "5", "6"])] };
    match inspect_spreadsheet_attachment(9, "list.csv", "csv", source, 1) {
        Ok(i) => {
            assert_eq!(i.attachment_id, 9);
            assert_eq!(i.file_name, "list.csv");
            assert_eq!(i.file_type, "csv");
            assert_eq!(i.sheets.len(), 1);
            assert_eq!(i.sheets[0].sample_rows.len(), 1);
        },
        Err(e) => panic!("{e}"),
    }
    let other = SheetSource::Csv { records: vec![] };
    assert!(inspect_spreadsheet_attachment(9, "a.doc", "doc", other, 1).is_err());
}
