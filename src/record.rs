//! Row records and the index documents assembled from them.
//!
//! A parsed source is a grid of cells. A cell is either empty (`None`) or
//! holds text. Row 0 is the header: it only supplies the context label of
//! each column. Every later row with at least one filled cell becomes one
//! document whose three cell fields hold, value for value, the position,
//! the header label and the content of each filled cell, left to right.
use vstd::prelude::*;
use crate::address::{cell_address, convert_row_column_to_letter, MAX_COLUMNS};

verus! {

/// One index document. The `i`-th entries of `cell_position`, `cell_ctx`
/// and `cell_value` describe the same source cell.
pub struct IndexDocument {
    pub file_name: String,
    pub sheet_name: Option<String>,
    pub cell_position: Vec<String>,
    pub cell_ctx: Vec<String>,
    pub cell_value: Vec<String>,
}

/// Mathematical value of an [`IndexDocument`].
pub struct DocumentView {
    pub file_name: Seq<char>,
    pub sheet_name: Option<Seq<char>>,
    pub cell_position: Seq<Seq<char>>,
    pub cell_ctx: Seq<Seq<char>>,
    pub cell_value: Seq<Seq<char>>,
}

/// The characters of each string of `v`.
pub open spec fn texts(v: Seq<String>) -> Seq<Seq<char>> {
    v.map_values(|s: String| s@)
}

/// The characters of an optional string.
pub open spec fn opt_text(o: Option<String>) -> Option<Seq<char>> {
    match o {
        Some(s) => Some(s@),
        None => None,
    }
}

/// The characters of each optional cell of a row.
pub open spec fn row_view(cells: Seq<Option<String>>) -> Seq<Option<Seq<char>>> {
    cells.map_values(|c: Option<String>| opt_text(c))
}

/// The rows of a grid, each as [`row_view`].
pub open spec fn grid_view(rows: Seq<Vec<Option<String>>>) -> Seq<Seq<Option<Seq<char>>>> {
    rows.map_values(|r: Vec<Option<String>>| row_view(r@))
}

impl View for IndexDocument {
    type V = DocumentView;

    open spec fn view(&self) -> DocumentView {
        DocumentView {
            file_name: self.file_name@,
            sheet_name: opt_text(self.sheet_name),
            cell_position: texts(self.cell_position@),
            cell_ctx: texts(self.cell_ctx@),
            cell_value: texts(self.cell_value@),
        }
    }
}

/// The views of a sequence of documents.
pub open spec fn documents_view(docs: Seq<IndexDocument>) -> Seq<DocumentView> {
    docs.map_values(|d: IndexDocument| d@)
}

/// Column indices of the filled cells of `cells`, left to right.
pub open spec fn filled_columns(cells: Seq<Option<Seq<char>>>) -> Seq<int>
    decreases cells.len(),
{
    if cells.len() == 0 {
        seq![]
    } else {
        let prev = filled_columns(cells.drop_last());
        if cells.last() is Some {
            prev.push(cells.len() - 1)
        } else {
            prev
        }
    }
}

/// The filled cells of a row, in order.
pub open spec fn filled_cells(cells: Seq<Option<Seq<char>>>) -> Seq<Option<Seq<char>>> {
    cells.filter(|c: Option<Seq<char>>| c is Some)
}

/// A row may become a document when its header has a label for each of its
/// cells and each of its columns has an address.
pub open spec fn row_fits(labels: Seq<Seq<char>>, cells: Seq<Option<Seq<char>>>) -> bool {
    cells.len() <= labels.len() && cells.len() <= MAX_COLUMNS
}

/// The document for the grid row `row` with the given cells.
pub open spec fn row_document(
    file_name: Seq<char>,
    sheet_name: Option<Seq<char>>,
    labels: Seq<Seq<char>>,
    row: int,
    cells: Seq<Option<Seq<char>>>,
) -> DocumentView {
    let cols = filled_columns(cells);
    DocumentView {
        file_name,
        sheet_name,
        cell_position: cols.map_values(|j: int| cell_address(row, j)),
        cell_ctx: cols.map_values(|j: int| labels[j]),
        cell_value: cols.map_values(|j: int| cells[j].unwrap()),
    }
}

/// The documents for the first `n` rows of a grid: one for each data row
/// (index 1 and on) that fits its header and has a filled cell.
pub open spec fn grid_documents_upto(
    file_name: Seq<char>,
    sheet_name: Option<Seq<char>>,
    labels: Seq<Seq<char>>,
    rows: Seq<Seq<Option<Seq<char>>>>,
    n: int,
) -> Seq<DocumentView>
    decreases n,
{
    if n <= 0 {
        seq![]
    } else {
        let prev = grid_documents_upto(file_name, sheet_name, labels, rows, n - 1);
        let i = n - 1;
        if i >= 1 && row_fits(labels, rows[i]) && filled_columns(rows[i]).len() > 0 {
            prev.push(row_document(file_name, sheet_name, labels, i, rows[i]))
        } else {
            prev
        }
    }
}

/// The documents of a whole grid.
pub open spec fn grid_documents_spec(
    file_name: Seq<char>,
    sheet_name: Option<Seq<char>>,
    labels: Seq<Seq<char>>,
    rows: Seq<Seq<Option<Seq<char>>>>,
) -> Seq<DocumentView> {
    grid_documents_upto(file_name, sheet_name, labels, rows, rows.len() as int)
}

/// The filled columns of a row are exactly its filled cells, strictly left
/// to right: the `i`-th position, label and value of a row's document all
/// come from the source cell in column `filled_columns(cells)[i]`, and every
/// filled cell is among them.
pub proof fn lemma_filled_columns(cells: Seq<Option<Seq<char>>>)
    ensures
        filled_columns(cells).len() == filled_cells(cells).len(),
        forall|i: int|
            0 <= i < filled_columns(cells).len() ==> 0 <= #[trigger] filled_columns(cells)[i]
                < cells.len() && cells[filled_columns(cells)[i]] is Some,
        forall|i: int, k: int|
            0 <= i < k < filled_columns(cells).len() ==> filled_columns(cells)[i]
                < filled_columns(cells)[k],
        forall|j: int|
            0 <= j < cells.len() && (#[trigger] cells[j]) is Some ==> filled_columns(
                cells,
            ).contains(j),
    decreases cells.len(),
{
    reveal(Seq::filter);
    if cells.len() > 0 {
        let prev = cells.drop_last();
        lemma_filled_columns(prev);
        assert forall|j: int| 0 <= j < cells.len() && (#[trigger] cells[j]) is Some implies filled_columns(
            cells,
        ).contains(j) by {
            if j < cells.len() - 1 {
                assert(prev[j] == cells[j]);
                let i = choose|i: int| 0 <= i < filled_columns(prev).len() && filled_columns(prev)[i] == j;
                assert(filled_columns(cells)[i] == j);
            } else {
                assert(filled_columns(cells).last() == j);
            }
        }
    }
}

/// Every row without a filled cell yields no document: its filled columns
/// are empty exactly when each of its cells is.
pub proof fn lemma_blank_row(cells: Seq<Option<Seq<char>>>)
    ensures
        filled_columns(cells).len() == 0 <==> forall|j: int| 0 <= j < cells.len() ==> cells[j] is None,
{
    lemma_filled_columns(cells);
    if filled_columns(cells).len() > 0 {
        let j = filled_columns(cells)[0];
        assert(cells[j] is Some);
    }
}

/// The document for grid row `row`, or `None` when none of `cells` is filled.
pub fn assemble_row(
    file_name: &String,
    sheet_name: &Option<String>,
    labels: &Vec<String>,
    row: usize,
    cells: &Vec<Option<String>>,
) -> (r: Option<IndexDocument>)
    requires
        row < usize::MAX,
        row_fits(texts(labels@), row_view(cells@)),
    ensures
        r is None <==> filled_columns(row_view(cells@)).len() == 0,
        r matches Some(d) ==> d@ == row_document(
            file_name@,
            opt_text(*sheet_name),
            texts(labels@),
            row as int,
            row_view(cells@),
        ),
{
    let ghost cv = row_view(cells@);
    let ghost lv = texts(labels@);
    let mut cell_position: Vec<String> = Vec::new();
    let mut cell_ctx: Vec<String> = Vec::new();
    let mut cell_value: Vec<String> = Vec::new();
    let mut column: usize = 0;
    while column < cells.len()
        invariant
            column <= cells.len(),
            cv == row_view(cells@),
            lv == texts(labels@),
            row < usize::MAX,
            row_fits(lv, cv),
            texts(cell_position@) == filled_columns(cv.take(column as int)).map_values(
                |j: int| cell_address(row as int, j),
            ),
            texts(cell_ctx@) == filled_columns(cv.take(column as int)).map_values(|j: int| lv[j]),
            texts(cell_value@) == filled_columns(cv.take(column as int)).map_values(
                |j: int| cv[j].unwrap(),
            ),
        decreases cells.len() - column,
    {
        let ghost before = filled_columns(cv.take(column as int));
        assert(cv.take(column + 1).drop_last() =~= cv.take(column as int));
        assert(cv[column as int] == opt_text(cells@[column as int]));
        match &cells[column] {
            Some(v) => {
                let ghost old_p = cell_position@;
                let ghost old_c = cell_ctx@;
                let ghost old_v = cell_value@;
                cell_position.push(convert_row_column_to_letter(row, column));
                cell_ctx.push(labels[column].clone());
                cell_value.push(v.clone());
                assert(filled_columns(cv.take(column + 1)) == before.push(column as int));
                assert(texts(cell_position@) =~= texts(old_p).push(cell_address(row as int, column as int)));
                assert(texts(cell_ctx@) =~= texts(old_c).push(lv[column as int]));
                assert(texts(cell_value@) =~= texts(old_v).push(cv[column as int].unwrap()));
                assert(texts(cell_position@) =~= filled_columns(cv.take(column + 1)).map_values(
                    |j: int| cell_address(row as int, j),
                ));
                assert(texts(cell_ctx@) =~= filled_columns(cv.take(column + 1)).map_values(|j: int| lv[j]));
                assert(texts(cell_value@) =~= filled_columns(cv.take(column + 1)).map_values(
                    |j: int| cv[j].unwrap(),
                ));
            },
            None => {
                assert(filled_columns(cv.take(column + 1)) == before);
            },
        }
        column += 1;
    }
    assert(cv.take(cells.len() as int) =~= cv);
    if cell_position.len() == 0 {
        return None;
    }
    let sheet = match sheet_name {
        Some(s) => Some(s.clone()),
        None => None,
    };
    Some(IndexDocument { file_name: file_name.clone(), sheet_name: sheet, cell_position, cell_ctx, cell_value })
}

/// For a row with `k` filled cells, each of the document's three cell
/// fields holds exactly `k` values, and the `i`-th position, label and value
/// all come from one source cell: the `i`-th filled one from the left.
pub proof fn lemma_row_document_cells(
    file_name: Seq<char>,
    sheet_name: Option<Seq<char>>,
    labels: Seq<Seq<char>>,
    row: int,
    cells: Seq<Option<Seq<char>>>,
)
    requires
        row_fits(labels, cells),
    ensures
        ({
            let d = row_document(file_name, sheet_name, labels, row, cells);
            let k = filled_cells(cells).len();
            &&& d.cell_position.len() == k
            &&& d.cell_ctx.len() == k
            &&& d.cell_value.len() == k
            &&& forall|i: int|
                0 <= i < k ==> {
                    let j = #[trigger] filled_columns(cells)[i];
                    &&& 0 <= j < cells.len()
                    &&& cells[j] == Some(d.cell_value[i])
                    &&& d.cell_position[i] == cell_address(row, j)
                    &&& d.cell_ctx[i] == labels[j]
                }
        }),
{
    lemma_filled_columns(cells);
}

/// A data row without a filled cell adds no document: the documents of the
/// first `n + 1` rows are those of the first `n`.
pub proof fn lemma_blank_row_adds_nothing(
    file_name: Seq<char>,
    sheet_name: Option<Seq<char>>,
    labels: Seq<Seq<char>>,
    rows: Seq<Seq<Option<Seq<char>>>>,
    n: int,
)
    requires
        0 <= n < rows.len(),
        forall|j: int| 0 <= j < rows[n].len() ==> rows[n][j] is None,
    ensures
        grid_documents_upto(file_name, sheet_name, labels, rows, n + 1) == grid_documents_upto(
            file_name,
            sheet_name,
            labels,
            rows,
            n,
        ),
{
    lemma_blank_row(rows[n]);
}

} // verus!
