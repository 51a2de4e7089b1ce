use file_search::dispatch::{
    entry_outcomes, format_for_extension, ingest_decision, reindex_step, DirectoryEntry,
    IngestOutcome, ReindexAction, ReindexEvent, ReindexOutcome, ReindexPhase, SourceFormat,
};
use file_search::query::{compile_query, QueryPlan, QueryType, SearchRequest};

#[test]
fn extensions_pick_adapters() {
    assert_eq!(format_for_extension("xlsx"), Some(SourceFormat::Workbook));
    assert_eq!(format_for_extension("xls"), Some(SourceFormat::Workbook));
    assert_eq!(format_for_extension("csv"), Some(SourceFormat::Table));
    assert_eq!(format_for_extension("pdf"), Some(SourceFormat::PageText));
    assert_eq!(format_for_extension("txt"), None);
    assert_eq!(format_for_extension("CSV"), None);
}

#[test]
fn ingest_outcomes() {
    assert_eq!(ingest_decision(Some("csv"), true), IngestOutcome::Accepted(SourceFormat::Table));
    assert_eq!(ingest_decision(Some("csv"), false), IngestOutcome::NotFound);
    assert_eq!(ingest_decision(Some("docx"), true), IngestOutcome::Unsupported);
    assert_eq!(ingest_decision(None, true), IngestOutcome::Unsupported);
}

#[test]
fn reindex_entries_decided_independently() {
    let entries = vec![
        DirectoryEntry { extension: Some("txt".to_string()), exists: true },
        DirectoryEntry { extension: Some("csv".to_string()), exists: true },
    ];
    assert_eq!(
        entry_outcomes(&entries),
        vec![IngestOutcome::Unsupported, IngestOutcome::Accepted(SourceFormat::Table)]
    );
}

#[test]
fn reindex_workflow_success() {
    let (p, a) = reindex_step(ReindexPhase::CheckPath, ReindexEvent::PathChecked(true));
    assert_eq!(a, ReindexAction::ClearIndex);
    let (p, a) = reindex_step(p, ReindexEvent::Cleared(true));
    assert_eq!(a, ReindexAction::CommitClear);
    let (p, a) = reindex_step(p, ReindexEvent::ClearCommitted(true));
    assert_eq!(a, ReindexAction::DispatchEntries);
    let (p, a) = reindex_step(p, ReindexEvent::EntriesDispatched(true));
    assert_eq!(a, ReindexAction::Respond(ReindexOutcome::Accepted));
    assert_eq!(p, ReindexPhase::Finished);
}

#[test]
fn reindex_bad_path_never_clears() {
    let (p, a) = reindex_step(ReindexPhase::CheckPath, ReindexEvent::PathChecked(false));
    assert_eq!(a, ReindexAction::Respond(ReindexOutcome::BadRequest));
    assert_eq!(p, ReindexPhase::Finished);
}

#[test]
fn reindex_failures_are_internal_errors() {
    let (_, a) = reindex_step(ReindexPhase::ClearIndex, ReindexEvent::Cleared(false));
    assert_eq!(a, ReindexAction::Respond(ReindexOutcome::InternalError));
    let (_, a) = reindex_step(ReindexPhase::CommitClear, ReindexEvent::ClearCommitted(false));
    assert_eq!(a, ReindexAction::Respond(ReindexOutcome::InternalError));
    let (_, a) = reindex_step(ReindexPhase::CheckPath, ReindexEvent::Cleared(true));
    assert_eq!(a, ReindexAction::Respond(ReindexOutcome::InternalError));
}

#[test]
fn query_plans() {
    match compile_query("sango", QueryType::RegexQuery) {
        QueryPlan::Regex { pattern } => assert_eq!(pattern, "(?i)sango.*"),
        other => panic!("unexpected plan {:?}", other),
    }
    match compile_query("membership", QueryType::FuzzySearch) {
        QueryPlan::Fuzzy { text, distance, transpositions } => {
            assert_eq!(text, "membership");
            assert_eq!(distance, 2);
            assert!(transpositions);
        }
        other => panic!("unexpected plan {:?}", other),
    }
    match compile_query("Ann", QueryType::TermQuery) {
        QueryPlan::Term { text } => assert_eq!(text, "Ann"),
        other => panic!("unexpected plan {:?}", other),
    }
    let request = SearchRequest {
        page: 0,
        per_page: 10,
        q: "\"Regionally membership\"~1".to_string(),
        query_type: QueryType::QueryParser,
    };
    match request.plan() {
        QueryPlan::Parsed { text } => assert_eq!(text, "\"Regionally membership\"~1"),
        other => panic!("unexpected plan {:?}", other),
    }
}
