use file_search::adapters::{
    page_text_documents, sheet_documents, table_documents, table_records_documents,
    workbook_documents, Sheet,
};
use file_search::record::{assemble_row, IndexDocument};

fn s(x: &str) -> String {
    x.to_string()
}

fn strings(v: &[&str]) -> Vec<String> {
    v.iter().map(|x| x.to_string()).collect()
}

fn cells(v: &[Option<&str>]) -> Vec<Option<String>> {
    v.iter().map(|c| c.map(|x| x.to_string())).collect()
}

#[test]
fn row_cells_stay_aligned() {
    let labels = strings(&["Name", "Age", "City"]);
    let row = cells(&[Some("Ann"), None, Some("Oslo")]);
    let d = assemble_row(&s("people.xlsx"), &Some(s("People")), &labels, 3, &row).unwrap();
    assert_eq!(d.file_name, "people.xlsx");
    assert_eq!(d.sheet_name, Some(s("People")));
    assert_eq!(d.cell_position, strings(&["A4", "C4"]));
    assert_eq!(d.cell_ctx, strings(&["Name", "City"]));
    assert_eq!(d.cell_value, strings(&["Ann", "Oslo"]));
}

#[test]
fn blank_row_gives_no_document() {
    let labels = strings(&["Name", "Age"]);
    let row = cells(&[None, None]);
    assert!(assemble_row(&s("a.csv"), &None, &labels, 1, &row).is_none());
}

#[test]
fn header_only_sheet_gives_nothing() {
    let grid = vec![cells(&[Some("Name"), Some("Age")])];
    assert!(sheet_documents(&s("w.xlsx"), &s("Sheet1"), &grid).is_empty());
    let empty: Vec<Vec<Option<String>>> = Vec::new();
    assert!(sheet_documents(&s("w.xlsx"), &s("Sheet1"), &empty).is_empty());
}

#[test]
fn workbook_sheet_rows() {
    let grid = vec![
        cells(&[Some("Name"), None, Some("Age")]),
        cells(&[Some("Ann"), Some("x"), Some("30")]),
        cells(&[None, Some("   "), None]),
        cells(&[None, None, Some(" 41 ")]),
    ];
    let docs = sheet_documents(&s("w.xlsx"), &s("Staff"), &grid);
    assert_eq!(docs.len(), 2);
    assert_eq!(docs[0].cell_position, strings(&["A2", "B2", "C2"]));
    assert_eq!(docs[0].cell_ctx, strings(&["Name", "", "Age"]));
    assert_eq!(docs[0].cell_value, strings(&["Ann", "x", "30"]));
    assert_eq!(docs[0].sheet_name, Some(s("Staff")));
    assert_eq!(docs[1].cell_position, strings(&["C4"]));
    assert_eq!(docs[1].cell_ctx, strings(&["Age"]));
    assert_eq!(docs[1].cell_value, strings(&[" 41 "]));
}

#[test]
fn workbook_sheets_in_order() {
    let sheets = vec![
        Sheet { name: s("One"), rows: vec![cells(&[Some("H")]), cells(&[Some("a")])] },
        Sheet { name: s("Empty"), rows: vec![cells(&[Some("H")])] },
        Sheet { name: s("Two"), rows: vec![cells(&[Some("K")]), cells(&[Some("b")]), cells(&[Some("c")])] },
    ];
    let docs = workbook_documents(&s("w.xlsx"), &sheets);
    let names: Vec<Option<String>> = docs.iter().map(|d| d.sheet_name.clone()).collect();
    assert_eq!(names, vec![Some(s("One")), Some(s("Two")), Some(s("Two"))]);
    let values: Vec<Vec<String>> = docs.iter().map(|d| d.cell_value.clone()).collect();
    assert_eq!(values, vec![strings(&["a"]), strings(&["b"]), strings(&["c"])]);
    assert_eq!(docs[2].cell_position, strings(&["A3"]));
}

#[test]
fn table_round_trip() {
    let docs = table_documents(&s("people.csv"), b"Name,Age\nAnn,30\n");
    assert_eq!(docs.len(), 1);
    let d: &IndexDocument = &docs[0];
    assert_eq!(d.file_name, "people.csv");
    assert_eq!(d.sheet_name, Some(s("Sheet1")));
    assert_eq!(d.cell_ctx, strings(&["Name", "Age"]));
    assert_eq!(d.cell_value, strings(&["Ann", "30"]));
    assert_eq!(d.cell_position, strings(&["A2", "B2"]));
}

#[test]
fn table_fields_are_trimmed() {
    let docs = table_documents(&s("t.csv"), b"A,B,C\n  x , ,y\n , ,  \nz,,\n");
    assert_eq!(docs.len(), 2);
    assert_eq!(docs[0].cell_value, strings(&["x", "y"]));
    assert_eq!(docs[0].cell_position, strings(&["A2", "C2"]));
    assert_eq!(docs[0].cell_ctx, strings(&["A", "C"]));
    assert_eq!(docs[1].cell_value, strings(&["z"]));
    assert_eq!(docs[1].cell_position, strings(&["A4"]));
}

#[test]
fn table_needs_two_records() {
    assert!(table_documents(&s("t.csv"), b"Name,Age\n").is_empty());
    assert!(table_documents(&s("t.csv"), b"").is_empty());
}

#[test]
fn table_skips_malformed_records() {
    let docs = table_documents(&s("t.csv"), b"A,B\n1,2,3\n4,5\n");
    assert_eq!(docs.len(), 1);
    assert_eq!(docs[0].cell_value, strings(&["4", "5"]));
    assert_eq!(docs[0].cell_position, strings(&["A2", "B2"]));
}

#[test]
fn table_records_rows_wider_than_header_are_skipped() {
    let records = vec![strings(&["A"]), strings(&["1", "2"]), strings(&["3"])];
    let docs = table_records_documents(&s("t.csv"), &records);
    assert_eq!(docs.len(), 1);
    assert_eq!(docs[0].cell_position, strings(&["A3"]));
}

#[test]
fn page_text_paragraphs() {
    let docs = page_text_documents(&s("doc.pdf"), "first line\nsecond\n\n  third para  ").unwrap();
    assert_eq!(docs.len(), 2);
    assert_eq!(docs[0].cell_position, strings(&["line 1"]));
    assert_eq!(docs[0].cell_value, strings(&["first line\nsecond"]));
    assert!(docs[0].cell_ctx.is_empty());
    assert_eq!(docs[0].sheet_name, None);
    assert_eq!(docs[1].cell_position, strings(&["line 2"]));
    assert_eq!(docs[1].cell_value, strings(&["third para"]));
    assert_eq!(docs[1].file_name, "doc.pdf");
}

#[test]
fn page_text_blank_units_dropped() {
    let docs = page_text_documents(&s("doc.pdf"), " \n\nword\n").unwrap();
    assert_eq!(docs.len(), 1);
    assert_eq!(docs[0].cell_position, strings(&["line 2"]));
    assert_eq!(docs[0].cell_value, strings(&["word"]));
    assert!(page_text_documents(&s("doc.pdf"), "").unwrap().is_empty());
}
