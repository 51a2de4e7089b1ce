//! The boundary with the inverted-index engine: schema field names and the
//! conversion of an index document into the engine's document, one
//! `(field, text)` pair at a time.
use vstd::prelude::*;
use crate::record::{DocumentView, IndexDocument};

verus! {

/// Name of the field holding cell addresses.
pub const CELL_POSITION_FIELD: &'static str = "cell_position";

/// Name of the field holding the header label of each cell.
pub const CELL_CTX_FIELD: &'static str = "cell_ctx";

/// Name of the field holding cell contents; queries run against it.
pub const CELL_VALUE_FIELD: &'static str = "cell_value";

/// Name of the field holding the source file's base name.
pub const FILE_NAME_FIELD: &'static str = "file_name";

/// Name of the field holding the sheet name.
pub const SHEET_NAME_FIELD: &'static str = "sheet_name";

#[verifier::external_type_specification]
#[verifier::external_body]
pub struct ExDocument(tantivy::Document);

/// The `(field id, text)` pairs of an engine document, in the order they
/// were added.
pub uninterp spec fn document_entries(d: tantivy::Document) -> Seq<(u32, Seq<char>)>;

/// Relies on `tantivy::Document::new`: a document without any pair.
#[verifier::external_body]
fn new_document() -> (r: tantivy::Document)
    ensures
        document_entries(r) == Seq::<(u32, Seq<char>)>::empty(),
{
    tantivy::Document::new()
}

/// Relies on `tantivy::Document::add_text`: the pair `(field, text)` is
/// pushed after the pairs already there.
#[verifier::external_body]
fn add_text(doc: &mut tantivy::Document, field_id: u32, text: &str)
    ensures
        document_entries(*final(doc)) == document_entries(*old(doc)).push((field_id, text@)),
{
    doc.add_text(tantivy::schema::Field::from_field_id(field_id), text)
}

/// Ids of the schema's fields.
#[derive(Clone, Copy, Debug)]
pub struct SchemaFields {
    pub file_name: u32,
    pub sheet_name: u32,
    pub cell_position: u32,
    pub cell_ctx: u32,
    pub cell_value: u32,
}

/// The pair for entry `i` of one multi-valued field, if it has one.
pub open spec fn entry_at(field: u32, values: Seq<Seq<char>>, i: int) -> Seq<(u32, Seq<char>)> {
    if i < values.len() {
        seq![(field, values[i])]
    } else {
        seq![]
    }
}

/// The pairs of the first `n` cells: for each, its position, then its
/// label, then its value, so the three stay side by side.
pub open spec fn cell_entries(f: SchemaFields, d: DocumentView, n: int) -> Seq<(u32, Seq<char>)>
    decreases n,
{
    if n <= 0 {
        seq![]
    } else {
        cell_entries(f, d, n - 1) + entry_at(f.cell_position, d.cell_position, n - 1) + entry_at(
            f.cell_ctx,
            d.cell_ctx,
            n - 1,
        ) + entry_at(f.cell_value, d.cell_value, n - 1)
    }
}

/// Number of cells of a document: the longest of its three cell fields.
pub open spec fn cell_count(d: DocumentView) -> int {
    let a = if d.cell_position.len() >= d.cell_ctx.len() {
        d.cell_position.len()
    } else {
        d.cell_ctx.len()
    };
    if a >= d.cell_value.len() {
        a as int
    } else {
        d.cell_value.len() as int
    }
}

/// All pairs of the engine document for `d`: file name, sheet name if
/// any, then the cells in order.
pub open spec fn engine_entries(f: SchemaFields, d: DocumentView) -> Seq<(u32, Seq<char>)> {
    seq![(f.file_name, d.file_name)] + match d.sheet_name {
        Some(s) => seq![(f.sheet_name, s)],
        None => seq![],
    } + cell_entries(f, d, cell_count(d))
}

impl IndexDocument {
    /// The engine document with this document's fields.
    pub fn to_document(&self, fields: &SchemaFields) -> (r: tantivy::Document)
        ensures
            document_entries(r) == engine_entries(*fields, self@),
    {
        let ghost v = self@;
        let mut doc = new_document();
        add_text(&mut doc, fields.file_name, self.file_name.as_str());
        match &self.sheet_name {
            Some(s) => add_text(&mut doc, fields.sheet_name, s.as_str()),
            None => {},
        }
        let ghost head = document_entries(doc);
        assert(head =~= seq![(fields.file_name, v.file_name)] + match v.sheet_name {
            Some(s) => seq![(fields.sheet_name, s)],
            None => seq![],
        });
        let mut n = self.cell_position.len();
        if self.cell_ctx.len() > n {
            n = self.cell_ctx.len();
        }
        if self.cell_value.len() > n {
            n = self.cell_value.len();
        }
        assert(n == cell_count(v));
        let mut i: usize = 0;
        while i < n
            invariant
                i <= n,
                v == self@,
                n == cell_count(v),
                document_entries(doc) == head + cell_entries(*fields, v, i as int),
            decreases n - i,
        {
            let ghost start = document_entries(doc);
            if i < self.cell_position.len() {
                add_text(&mut doc, fields.cell_position, self.cell_position[i].as_str());
            }
            assert(document_entries(doc) =~= start + entry_at(fields.cell_position, v.cell_position, i as int));
            let ghost mid = document_entries(doc);
            if i < self.cell_ctx.len() {
                add_text(&mut doc, fields.cell_ctx, self.cell_ctx[i].as_str());
            }
            assert(document_entries(doc) =~= mid + entry_at(fields.cell_ctx, v.cell_ctx, i as int));
            let ghost late = document_entries(doc);
            if i < self.cell_value.len() {
                add_text(&mut doc, fields.cell_value, self.cell_value[i].as_str());
            }
            assert(document_entries(doc) =~= late + entry_at(fields.cell_value, v.cell_value, i as int));
            assert(document_entries(doc) =~= head + cell_entries(*fields, v, i + 1));
            i += 1;
        }
        doc
    }
}

/// The three pairs of engine entries that cell `i` of `d` contributes.
pub open spec fn cell_triple(f: SchemaFields, d: DocumentView, n: int, i: int) -> Seq<(u32, Seq<char>)> {
    cell_entries(f, d, n).subrange(3 * i, 3 * i + 3)
}

/// When the three cell fields have one length, the engine receives each
/// cell as three adjacent pairs: its position, its label, then its value,
/// cell after cell, so the `i`-th values of the three fields stay together.
pub proof fn lemma_cells_side_by_side(f: SchemaFields, d: DocumentView, n: int)
    requires
        0 <= n <= d.cell_position.len(),
        d.cell_ctx.len() == d.cell_position.len(),
        d.cell_value.len() == d.cell_position.len(),
    ensures
        cell_entries(f, d, n).len() == 3 * n,
        forall|i: int|
            0 <= i < n ==> #[trigger] cell_triple(f, d, n, i) == seq![
                (f.cell_position, d.cell_position[i]),
                (f.cell_ctx, d.cell_ctx[i]),
                (f.cell_value, d.cell_value[i]),
            ],
    decreases n,
{
    if n > 0 {
        lemma_cells_side_by_side(f, d, n - 1);
        let prev = cell_entries(f, d, n - 1);
        let last = seq![
            (f.cell_position, d.cell_position[n - 1]),
            (f.cell_ctx, d.cell_ctx[n - 1]),
            (f.cell_value, d.cell_value[n - 1]),
        ];
        assert(cell_entries(f, d, n) =~= prev + last);
        assert forall|i: int| 0 <= i < n implies #[trigger] cell_triple(f, d, n, i) == seq![
            (f.cell_position, d.cell_position[i]),
            (f.cell_ctx, d.cell_ctx[i]),
            (f.cell_value, d.cell_value[i]),
        ] by {
            if i < n - 1 {
                assert(cell_triple(f, d, n - 1, i) == seq![
                    (f.cell_position, d.cell_position[i]),
                    (f.cell_ctx, d.cell_ctx[i]),
                    (f.cell_value, d.cell_value[i]),
                ]);
                assert(cell_triple(f, d, n, i) =~= cell_triple(f, d, n - 1, i));
            } else {
                assert(cell_triple(f, d, n, i) =~= last);
            }
        }
    }
}

} // verus!
