//! The format adapters: each turns one parsed source into index documents.
//!
//! * Workbook: a grid per sheet, where `None` is an empty cell.
//! * Delimited table: CSV bytes, read without a header line; the first
//!   record is taken as the header by hand, and the sheet is "Sheet1".
//! * Page text: the text extracted from a document, cut into paragraphs.
use vstd::prelude::*;
use vstd::string::StringExecFns;
use crate::address::{decimal, decimal_string, MAX_COLUMNS};
use crate::record::{
    assemble_row, documents_view, grid_documents_spec, grid_documents_upto, grid_view,
    lemma_blank_row_adds_nothing, opt_text, row_view, texts, DocumentView, IndexDocument,
};

verus! {

/// What `str::trim` makes of a text.
pub uninterp spec fn trim_of(s: Seq<char>) -> Seq<char>;

/// Relies on `str::trim`: the text without leading and trailing white
/// space, which depends on the characters alone.
#[verifier::external_body]
fn trimmed(s: &str) -> (r: String)
    ensures
        r@ == trim_of(s@),
{
    s.trim().to_string()
}

/// The records that the `csv` crate reads from some bytes, when told that
/// there is no header line: `None` for a record it reports as malformed.
pub uninterp spec fn csv_records(bytes: Seq<u8>) -> Seq<Option<Seq<Seq<char>>>>;

/// The characters of each field of each record.
pub open spec fn records_view(v: Seq<Option<Vec<String>>>) -> Seq<Option<Seq<Seq<char>>>> {
    v.map_values(
        |r: Option<Vec<String>>|
            match r {
                Some(f) => Some(texts(f@)),
                None => None,
            },
    )
}

/// Relies on `csv::ReaderBuilder` with `has_headers(false)` and
/// `Reader::records`: every record read from the bytes, in order, each
/// error as `None`.
#[verifier::external_body]
fn read_csv(bytes: &[u8]) -> (r: Vec<Option<Vec<String>>>)
    ensures
        records_view(r@) == csv_records(bytes@),
{
    let mut reader = csv::ReaderBuilder::new().has_headers(false).from_reader(bytes);
    reader.records().map(|r| r.ok().map(|rec| rec.iter().map(|f| f.to_string()).collect())).collect()
}

/// The successive matches of a regular expression in a text, or `None` when
/// the pattern does not compile.
pub uninterp spec fn regex_find_all(pattern: Seq<char>, text: Seq<char>) -> Option<Seq<Seq<char>>>;

/// Relies on `regex::Regex::new` and `Regex::find_iter`: the text of each
/// successive non-overlapping match, or `None` when the pattern is refused.
#[verifier::external_body]
fn find_all(pattern: &str, text: &str) -> (r: Option<Vec<String>>)
    ensures
        match regex_find_all(pattern@, text@) {
            None => r is None,
            Some(m) => r matches Some(v) && texts(v@) == m,
        },
{
    let re = regex::Regex::new(pattern).ok()?;
    Some(re.find_iter(text).map(|m| m.as_str().to_string()).collect())
}

/// A copy of a list of strings.
fn clone_texts(v: &Vec<String>) -> (r: Vec<String>)
    ensures
        texts(r@) == texts(v@),
{
    let mut r: Vec<String> = Vec::new();
    let mut i: usize = 0;
    while i < v.len()
        invariant
            i <= v.len(),
            texts(r@) == texts(v@).take(i as int),
        decreases v.len() - i,
    {
        let ghost before = r@;
        r.push(v[i].clone());
        assert(texts(r@) =~= texts(before).push(v@[i as int]@));
        assert(texts(v@).take(i + 1) =~= texts(v@).take(i as int).push(v@[i as int]@));
        i += 1;
    }
    assert(texts(v@).take(v.len() as int) =~= texts(v@));
    r
}

/// The documents of a grid whose row 0 is the header and whose context
/// labels are `labels`. Rows wider than the header, or than the columns an
/// address can name, are malformed and skipped.
pub fn grid_documents(
    file_name: &String,
    sheet_name: &Option<String>,
    labels: &Vec<String>,
    rows: &Vec<Vec<Option<String>>>,
) -> (r: Vec<IndexDocument>)
    ensures
        documents_view(r@) == grid_documents_spec(
            file_name@,
            opt_text(*sheet_name),
            texts(labels@),
            grid_view(rows@),
        ),
{
    let ghost lv = texts(labels@);
    let ghost gv = grid_view(rows@);
    let mut docs: Vec<IndexDocument> = Vec::new();
    let mut i: usize = 0;
    while i < rows.len()
        invariant
            i <= rows.len(),
            lv == texts(labels@),
            gv == grid_view(rows@),
            documents_view(docs@) == grid_documents_upto(
                file_name@,
                opt_text(*sheet_name),
                lv,
                gv,
                i as int,
            ),
        decreases rows.len() - i,
    {
        let row = &rows[i];
        assert(gv[i as int] == row_view(row@));
        if i >= 1 && row.len() <= labels.len() && row.len() <= MAX_COLUMNS {
            match assemble_row(file_name, sheet_name, labels, i, row) {
                Some(d) => {
                    let ghost before = docs@;
                    docs.push(d);
                    assert(documents_view(docs@) =~= documents_view(before).push(d@));
                },
                None => {},
            }
        }
        i += 1;
    }
    docs
}

/// How a header cell reads as a context label: an empty cell reads as "".
pub open spec fn header_label(c: Option<Seq<char>>) -> Seq<char> {
    match c {
        Some(s) => s,
        None => seq![],
    }
}

/// A workbook cell that is blank after trimming counts as empty.
pub open spec fn workbook_cell(c: Option<Seq<char>>) -> Option<Seq<char>> {
    match c {
        Some(s) => if trim_of(s).len() == 0 {
            None
        } else {
            Some(s)
        },
        None => None,
    }
}

/// The documents of one workbook sheet, given as rows of cells.
pub open spec fn sheet_documents_spec(
    file_name: Seq<char>,
    sheet_name: Seq<char>,
    grid: Seq<Seq<Option<Seq<char>>>>,
) -> Seq<DocumentView> {
    if grid.len() < 2 {
        seq![]
    } else {
        grid_documents_spec(
            file_name,
            Some(sheet_name),
            grid[0].map_values(|c: Option<Seq<char>>| header_label(c)),
            grid.map_values(
                |r: Seq<Option<Seq<char>>>| r.map_values(|c: Option<Seq<char>>| workbook_cell(c)),
            ),
        )
    }
}

/// The context labels of a header row.
fn header_labels(header: &Vec<Option<String>>) -> (r: Vec<String>)
    ensures
        texts(r@) == row_view(header@).map_values(|c: Option<Seq<char>>| header_label(c)),
{
    let ghost target = row_view(header@).map_values(|c: Option<Seq<char>>| header_label(c));
    let mut r: Vec<String> = Vec::new();
    let mut j: usize = 0;
    while j < header.len()
        invariant
            j <= header.len(),
            target == row_view(header@).map_values(|c: Option<Seq<char>>| header_label(c)),
            texts(r@) == target.take(j as int),
        decreases header.len() - j,
    {
        let ghost before = r@;
        let label = match &header[j] {
            Some(s) => s.clone(),
            None => String::new(),
        };
        r.push(label);
        assert(texts(r@) =~= texts(before).push(label@));
        assert(target.take(j + 1) =~= target.take(j as int).push(target[j as int]));
        j += 1;
    }
    assert(target.take(header.len() as int) =~= target);
    r
}

/// A workbook row with blank cells made empty.
fn workbook_row(cells: &Vec<Option<String>>) -> (r: Vec<Option<String>>)
    ensures
        row_view(r@) == row_view(cells@).map_values(|c: Option<Seq<char>>| workbook_cell(c)),
{
    let ghost target = row_view(cells@).map_values(|c: Option<Seq<char>>| workbook_cell(c));
    let mut r: Vec<Option<String>> = Vec::new();
    let mut j: usize = 0;
    while j < cells.len()
        invariant
            j <= cells.len(),
            target == row_view(cells@).map_values(|c: Option<Seq<char>>| workbook_cell(c)),
            row_view(r@) == target.take(j as int),
        decreases cells.len() - j,
    {
        let ghost before = r@;
        let cell = match &cells[j] {
            Some(s) => {
                let t = trimmed(s.as_str());
                if t.as_str().is_empty() {
                    None
                } else {
                    Some(s.clone())
                }
            },
            None => None,
        };
        r.push(cell);
        assert(row_view(r@) =~= row_view(before).push(opt_text(cell)));
        assert(target.take(j + 1) =~= target.take(j as int).push(target[j as int]));
        j += 1;
    }
    assert(target.take(cells.len() as int) =~= target);
    r
}

/// The documents of one workbook sheet. A sheet with fewer than two rows
/// has no data and gives none.
pub fn sheet_documents(file_name: &String, sheet_name: &String, grid: &Vec<Vec<Option<String>>>) -> (r:
    Vec<IndexDocument>)
    ensures
        documents_view(r@) == sheet_documents_spec(file_name@, sheet_name@, grid_view(grid@)),
        grid.len() < 2 ==> r.len() == 0,
{
    if grid.len() < 2 {
        return Vec::new();
    }
    let labels = header_labels(&grid[0]);
    let ghost target = grid_view(grid@).map_values(
        |r: Seq<Option<Seq<char>>>| r.map_values(|c: Option<Seq<char>>| workbook_cell(c)),
    );
    let mut rows: Vec<Vec<Option<String>>> = Vec::new();
    let mut i: usize = 0;
    while i < grid.len()
        invariant
            i <= grid.len(),
            target == grid_view(grid@).map_values(
                |r: Seq<Option<Seq<char>>>| r.map_values(|c: Option<Seq<char>>| workbook_cell(c)),
            ),
            grid_view(rows@) == target.take(i as int),
        decreases grid.len() - i,
    {
        let ghost before = rows@;
        let row = workbook_row(&grid[i]);
        rows.push(row);
        assert(grid_view(rows@) =~= grid_view(before).push(row_view(row@)));
        assert(target.take(i + 1) =~= target.take(i as int).push(target[i as int]));
        i += 1;
    }
    assert(target.take(grid.len() as int) =~= target);
    assert(grid_view(grid@)[0] == row_view(grid@[0]@));
    let sheet = Some(sheet_name.clone());
    grid_documents(file_name, &sheet, &labels, &rows)
}

/// Label given to the single sheet of a delimited table.
pub const TABLE_SHEET_NAME: &'static str = "Sheet1";

/// A table field, trimmed; blank after trimming counts as empty.
pub open spec fn table_cell(s: Seq<char>) -> Option<Seq<char>> {
    if trim_of(s).len() == 0 {
        None
    } else {
        Some(trim_of(s))
    }
}

/// The cells of a table: each field trimmed, blank ones empty.
pub open spec fn table_grid(records: Seq<Seq<Seq<char>>>) -> Seq<Seq<Option<Seq<char>>>> {
    records.map_values(|r: Seq<Seq<char>>| r.map_values(|f: Seq<char>| table_cell(f)))
}

/// The documents of a delimited table given as records of fields. The first
/// record is the header, its fields taken as they are; a table with fewer
/// than two records gives none.
pub open spec fn table_documents_spec(file_name: Seq<char>, records: Seq<Seq<Seq<char>>>) -> Seq<
    DocumentView,
> {
    if records.len() < 2 {
        seq![]
    } else {
        grid_documents_spec(file_name, Some(TABLE_SHEET_NAME@), records[0], table_grid(records))
    }
}

/// The characters of each field of each record.
pub open spec fn table_view(records: Seq<Vec<String>>) -> Seq<Seq<Seq<char>>> {
    records.map_values(|r: Vec<String>| texts(r@))
}

/// A table record with its fields trimmed and blank ones made empty.
fn table_row(fields: &Vec<String>) -> (r: Vec<Option<String>>)
    ensures
        row_view(r@) == texts(fields@).map_values(|f: Seq<char>| table_cell(f)),
{
    let ghost target = texts(fields@).map_values(|f: Seq<char>| table_cell(f));
    let mut r: Vec<Option<String>> = Vec::new();
    let mut j: usize = 0;
    while j < fields.len()
        invariant
            j <= fields.len(),
            target == texts(fields@).map_values(|f: Seq<char>| table_cell(f)),
            row_view(r@) == target.take(j as int),
        decreases fields.len() - j,
    {
        let ghost before = r@;
        let t = trimmed(fields[j].as_str());
        let cell = if t.as_str().is_empty() {
            None
        } else {
            Some(t)
        };
        r.push(cell);
        assert(row_view(r@) =~= row_view(before).push(opt_text(cell)));
        assert(target.take(j + 1) =~= target.take(j as int).push(target[j as int]));
        j += 1;
    }
    assert(target.take(fields.len() as int) =~= target);
    r
}

/// The documents of a delimited table, from the records that were read well.
pub fn table_records_documents(file_name: &String, records: &Vec<Vec<String>>) -> (r: Vec<
    IndexDocument,
>)
    ensures
        documents_view(r@) == table_documents_spec(file_name@, table_view(records@)),
        records.len() < 2 ==> r.len() == 0,
{
    if records.len() < 2 {
        return Vec::new();
    }
    let labels = clone_texts(&records[0]);
    let ghost target = table_view(records@).map_values(
        |r: Seq<Seq<char>>| r.map_values(|f: Seq<char>| table_cell(f)),
    );
    let mut rows: Vec<Vec<Option<String>>> = Vec::new();
    let mut i: usize = 0;
    while i < records.len()
        invariant
            i <= records.len(),
            target == table_view(records@).map_values(
                |r: Seq<Seq<char>>| r.map_values(|f: Seq<char>| table_cell(f)),
            ),
            grid_view(rows@) == target.take(i as int),
        decreases records.len() - i,
    {
        let ghost before = rows@;
        let row = table_row(&records[i]);
        rows.push(row);
        assert(grid_view(rows@) =~= grid_view(before).push(row_view(row@)));
        assert(target.take(i + 1) =~= target.take(i as int).push(target[i as int]));
        i += 1;
    }
    assert(target.take(records.len() as int) =~= target);
    assert(table_view(records@)[0] == texts(records@[0]@));
    let sheet = Some(String::from_str(TABLE_SHEET_NAME));
    grid_documents(file_name, &sheet, &labels, &rows)
}

/// The records that were read well, in order.
pub open spec fn well_read<T>(records: Seq<Option<T>>) -> Seq<T>
    decreases records.len(),
{
    if records.len() == 0 {
        seq![]
    } else {
        let prev = well_read(records.drop_last());
        match records.last() {
            Some(r) => prev.push(r),
            None => prev,
        }
    }
}

/// The documents of a delimited table given as CSV bytes. Malformed records
/// are left out before the header is taken.
pub fn table_documents(file_name: &String, bytes: &[u8]) -> (r: Vec<IndexDocument>)
    ensures
        documents_view(r@) == table_documents_spec(file_name@, well_read(csv_records(bytes@))),
{
    let read = read_csv(bytes);
    let ghost rv = records_view(read@);
    let mut records: Vec<Vec<String>> = Vec::new();
    let mut i: usize = 0;
    while i < read.len()
        invariant
            i <= read.len(),
            rv == records_view(read@),
            table_view(records@) == well_read(rv.take(i as int)),
        decreases read.len() - i,
    {
        assert(rv.take(i + 1).drop_last() =~= rv.take(i as int));
        match &read[i] {
            Some(fields) => {
                let ghost before = records@;
                let copy = clone_texts(fields);
                records.push(copy);
                assert(table_view(records@) =~= table_view(before).push(texts(fields@)));
            },
            None => {},
        }
        i += 1;
    }
    assert(rv.take(read.len() as int) =~= rv);
    table_records_documents(file_name, &records)
}

/// The pattern that cuts extracted text into paragraphs: runs of text in
/// which a line break is never followed by another.
pub open spec fn paragraph_pattern() -> Seq<char> {
    "((?:[^\n][\n]?)+)"@
}

/// Position label of the `k`-th (zero-based) paragraph.
pub open spec fn line_position(k: int) -> Seq<char> {
    "line "@ + decimal((k + 1) as nat)
}

/// The document of the `k`-th paragraph `unit` of a text.
pub open spec fn page_document(file_name: Seq<char>, k: int, unit: Seq<char>) -> DocumentView {
    DocumentView {
        file_name,
        sheet_name: None,
        cell_position: seq![line_position(k)],
        cell_ctx: seq![],
        cell_value: seq![trim_of(unit)],
    }
}

/// The documents of the first `n` paragraphs: one for each that is not
/// blank after trimming.
pub open spec fn page_documents_upto(file_name: Seq<char>, units: Seq<Seq<char>>, n: int) -> Seq<
    DocumentView,
>
    decreases n,
{
    if n <= 0 {
        seq![]
    } else {
        let prev = page_documents_upto(file_name, units, n - 1);
        if trim_of(units[n - 1]).len() > 0 {
            prev.push(page_document(file_name, n - 1, units[n - 1]))
        } else {
            prev
        }
    }
}

/// The documents of a text already cut into paragraphs.
pub fn paragraph_documents(file_name: &String, units: &Vec<String>) -> (r: Vec<IndexDocument>)
    ensures
        documents_view(r@) == page_documents_upto(file_name@, texts(units@), units.len() as int),
{
    let ghost uv = texts(units@);
    let mut docs: Vec<IndexDocument> = Vec::new();
    let mut k: usize = 0;
    while k < units.len()
        invariant
            k <= units.len(),
            uv == texts(units@),
            documents_view(docs@) == page_documents_upto(file_name@, uv, k as int),
        decreases units.len() - k,
    {
        let line = trimmed(units[k].as_str());
        assert(uv[k as int] == units@[k as int]@);
        if !line.as_str().is_empty() {
            let mut position = String::from_str("line ");
            let number = decimal_string(k + 1);
            position.append(number.as_str());
            let mut cell_position: Vec<String> = Vec::new();
            cell_position.push(position);
            let mut cell_value: Vec<String> = Vec::new();
            cell_value.push(line);
            let d = IndexDocument {
                file_name: file_name.clone(),
                sheet_name: None,
                cell_position,
                cell_ctx: Vec::new(),
                cell_value,
            };
            assert(d@.cell_position =~= seq![line_position(k as int)]);
            assert(d@.cell_value =~= seq![trim_of(uv[k as int])]);
            assert(d@.cell_ctx =~= seq![]);
            let ghost before = docs@;
            docs.push(d);
            assert(documents_view(docs@) =~= documents_view(before).push(d@));
        }
        k += 1;
    }
    docs
}

/// The documents of a text extracted from a page-oriented document: one per
/// non-blank paragraph, numbered by its place among all paragraphs. `None`
/// only when the paragraph pattern is refused by the regex engine.
pub fn page_text_documents(file_name: &String, text: &str) -> (r: Option<Vec<IndexDocument>>)
    ensures
        match regex_find_all(paragraph_pattern(), text@) {
            None => r is None,
            Some(units) => r matches Some(d) && documents_view(d@) == page_documents_upto(
                file_name@,
                units,
                units.len() as int,
            ),
        },
{
    match find_all("((?:[^\n][\n]?)+)", text) {
        None => None,
        Some(units) => Some(paragraph_documents(file_name, &units)),
    }
}

/// One sheet of a workbook: its name and its rows of cells, `None` being
/// an empty cell.
pub struct Sheet {
    pub name: String,
    pub rows: Vec<Vec<Option<String>>>,
}

/// The documents of the first `n` sheets of a workbook, sheet after sheet.
pub open spec fn workbook_documents_upto(file_name: Seq<char>, sheets: Seq<Sheet>, n: int) -> Seq<
    DocumentView,
>
    decreases n,
{
    if n <= 0 {
        seq![]
    } else {
        workbook_documents_upto(file_name, sheets, n - 1) + sheet_documents_spec(
            file_name,
            sheets[n - 1].name@,
            grid_view(sheets[n - 1].rows@),
        )
    }
}

/// The documents of every sheet of a workbook, in sheet order.
pub fn workbook_documents(file_name: &String, sheets: &Vec<Sheet>) -> (r: Vec<IndexDocument>)
    ensures
        documents_view(r@) == workbook_documents_upto(file_name@, sheets@, sheets.len() as int),
{
    let mut docs: Vec<IndexDocument> = Vec::new();
    let mut i: usize = 0;
    while i < sheets.len()
        invariant
            i <= sheets.len(),
            documents_view(docs@) == workbook_documents_upto(file_name@, sheets@, i as int),
        decreases sheets.len() - i,
    {
        let ghost before = docs@;
        let mut more = sheet_documents(file_name, &sheets[i].name, &sheets[i].rows);
        let ghost added = more@;
        docs.append(&mut more);
        assert(documents_view(docs@) =~= documents_view(before) + documents_view(added));
        i += 1;
    }
    docs
}

/// A table record whose fields are all blank after trimming adds no
/// document.
pub proof fn lemma_blank_table_record(
    file_name: Seq<char>,
    records: Seq<Seq<Seq<char>>>,
    n: int,
)
    requires
        0 <= n < records.len(),
        forall|j: int| 0 <= j < records[n].len() ==> trim_of(#[trigger] records[n][j]).len() == 0,
    ensures
        grid_documents_upto(file_name, Some(TABLE_SHEET_NAME@), records[0], table_grid(records), n + 1)
            == grid_documents_upto(
            file_name,
            Some(TABLE_SHEET_NAME@),
            records[0],
            table_grid(records),
            n,
        ),
{
    lemma_blank_row_adds_nothing(file_name, Some(TABLE_SHEET_NAME@), records[0], table_grid(records), n);
}

/// A workbook row whose cells are all empty, or blank after trimming, adds
/// no document.
pub proof fn lemma_blank_workbook_row(
    file_name: Seq<char>,
    sheet_name: Seq<char>,
    labels: Seq<Seq<char>>,
    grid: Seq<Seq<Option<Seq<char>>>>,
    n: int,
)
    requires
        0 <= n < grid.len(),
        forall|j: int|
            0 <= j < grid[n].len() ==> match #[trigger] grid[n][j] {
                Some(s) => trim_of(s).len() == 0,
                None => true,
            },
    ensures
        ({
            let cells = grid.map_values(
                |r: Seq<Option<Seq<char>>>| r.map_values(|c: Option<Seq<char>>| workbook_cell(c)),
            );
            grid_documents_upto(file_name, Some(sheet_name), labels, cells, n + 1)
                == grid_documents_upto(file_name, Some(sheet_name), labels, cells, n)
        }),
{
    let cells = grid.map_values(
        |r: Seq<Option<Seq<char>>>| r.map_values(|c: Option<Seq<char>>| workbook_cell(c)),
    );
    assert forall|j: int| 0 <= j < cells[n].len() implies cells[n][j] is None by {
        assert(cells[n][j] == workbook_cell(grid[n][j]));
    }
    lemma_blank_row_adds_nothing(file_name, Some(sheet_name), labels, cells, n);
}

} // verus!
