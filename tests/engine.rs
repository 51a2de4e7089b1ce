use file_search::adapters::table_documents;
use file_search::engine::{
    SchemaFields, CELL_CTX_FIELD, CELL_POSITION_FIELD, CELL_VALUE_FIELD, FILE_NAME_FIELD,
    SHEET_NAME_FIELD,
};
use tantivy::collector::TopDocs;
use tantivy::query::{AllQuery, TermQuery};
use tantivy::schema::{Field, IndexRecordOption, Schema, STORED, STRING, TEXT};
use tantivy::{Index, ReloadPolicy, Term};

fn schema() -> (Schema, SchemaFields) {
    let mut b = Schema::builder();
    let cell_position = b.add_text_field(CELL_POSITION_FIELD, STRING | STORED);
    let cell_value = b.add_text_field(CELL_VALUE_FIELD, TEXT | STORED);
    let cell_ctx = b.add_text_field(CELL_CTX_FIELD, STRING | STORED);
    let file_name = b.add_text_field(FILE_NAME_FIELD, STRING | STORED);
    let sheet_name = b.add_text_field(SHEET_NAME_FIELD, STRING | STORED);
    let fields = SchemaFields {
        file_name: file_name.field_id(),
        sheet_name: sheet_name.field_id(),
        cell_position: cell_position.field_id(),
        cell_ctx: cell_ctx.field_id(),
        cell_value: cell_value.field_id(),
    };
    (b.build(), fields)
}

fn texts(doc: &tantivy::Document, id: u32) -> Vec<String> {
    doc.get_all(Field::from_field_id(id)).map(|v| v.as_text().unwrap().to_string()).collect()
}

#[test]
fn engine_document_keeps_cells_aligned() {
    let (_, fields) = schema();
    let docs = table_documents(&"people.csv".to_string(), b"Name,Age\nAnn,30\n");
    let doc = docs[0].to_document(&fields);
    assert_eq!(texts(&doc, fields.file_name), vec!["people.csv"]);
    assert_eq!(texts(&doc, fields.sheet_name), vec!["Sheet1"]);
    assert_eq!(texts(&doc, fields.cell_position), vec!["A2", "B2"]);
    assert_eq!(texts(&doc, fields.cell_ctx), vec!["Name", "Age"]);
    assert_eq!(texts(&doc, fields.cell_value), vec!["Ann", "30"]);
    let order: Vec<u32> = doc.field_values().iter().map(|fv| fv.field().field_id()).collect();
    assert_eq!(
        order,
        vec![
            fields.file_name,
            fields.sheet_name,
            fields.cell_position,
            fields.cell_ctx,
            fields.cell_value,
            fields.cell_position,
            fields.cell_ctx,
            fields.cell_value,
        ]
    );
}

#[test]
fn search_sees_only_committed_documents() {
    let (schema, fields) = schema();
    let index = Index::create_in_ram(schema);
    let mut writer = index.writer_with_num_threads(1, 20_000_000).unwrap();
    let reader = index.reader_builder().reload_policy(ReloadPolicy::Manual).try_into().unwrap();
    assert_eq!(reader.searcher().search(&AllQuery, &TopDocs::with_limit(10)).unwrap().len(), 0);

    let docs = table_documents(&"t.csv".to_string(), b"Name,Age\nAnn,30\nBob,41\n");
    for d in &docs {
        writer.add_document(d.to_document(&fields)).unwrap();
    }
    reader.reload().unwrap();
    assert_eq!(reader.searcher().search(&AllQuery, &TopDocs::with_limit(10)).unwrap().len(), 0);

    writer.commit().unwrap();
    reader.reload().unwrap();
    let searcher = reader.searcher();
    assert_eq!(searcher.search(&AllQuery, &TopDocs::with_limit(10)).unwrap().len(), 2);
    let term = TermQuery::new(
        Term::from_field_text(Field::from_field_id(fields.cell_value), "bob"),
        IndexRecordOption::Basic,
    );
    assert_eq!(searcher.search(&term, &TopDocs::with_limit(10)).unwrap().len(), 1);
}
