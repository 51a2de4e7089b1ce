//! The ingestion orchestrator's decisions: which adapter a file goes to,
//! and the steps of the reindex workflow.
use vstd::prelude::*;
use vstd::string::StringExecFns;

verus! {

/// The format adapters.
#[derive(Clone, Copy, Debug, PartialEq, Eq, Structural)]
pub enum SourceFormat {
    Workbook,
    Table,
    PageText,
}

/// What ingesting one path leads to.
#[derive(Clone, Copy, Debug, PartialEq, Eq, Structural)]
pub enum IngestOutcome {
    /// Ingestion with the given adapter has been dispatched.
    Accepted(SourceFormat),
    /// The extension names no supported format.
    Unsupported,
    /// The format is supported but the file does not exist.
    NotFound,
}

/// A request to ingest one file.
pub struct IndexRequest {
    pub file_path: String,
}

/// A request to rebuild the index from a directory.
pub struct ReindexRequest {
    pub directory_path: String,
}

/// The adapter for a file extension (compared case-sensitively).
pub open spec fn format_of(ext: Seq<char>) -> Option<SourceFormat> {
    if ext == "xls"@ || ext == "xlsx"@ {
        Some(SourceFormat::Workbook)
    } else if ext == "csv"@ {
        Some(SourceFormat::Table)
    } else if ext == "pdf"@ {
        Some(SourceFormat::PageText)
    } else {
        None
    }
}

/// The outcome for a path with the given extension, if any, and existence.
pub open spec fn ingest_outcome(extension: Option<Seq<char>>, exists: bool) -> IngestOutcome {
    match extension {
        None => IngestOutcome::Unsupported,
        Some(ext) => match format_of(ext) {
            None => IngestOutcome::Unsupported,
            Some(f) => if exists {
                IngestOutcome::Accepted(f)
            } else {
                IngestOutcome::NotFound
            },
        },
    }
}

fn same_text(a: &str, b: &str) -> (r: bool)
    ensures
        r == (a@ == b@),
{
    String::from_str(a) == String::from_str(b)
}

/// The adapter for a file extension.
pub fn format_for_extension(ext: &str) -> (r: Option<SourceFormat>)
    ensures
        r == format_of(ext@),
{
    if same_text(ext, "xls") || same_text(ext, "xlsx") {
        Some(SourceFormat::Workbook)
    } else if same_text(ext, "csv") {
        Some(SourceFormat::Table)
    } else if same_text(ext, "pdf") {
        Some(SourceFormat::PageText)
    } else {
        None
    }
}

/// Decides what ingesting a path leads to, from its extension (`None` when it
/// has none) and whether the file exists.
pub fn ingest_decision(extension: Option<&str>, exists: bool) -> (r: IngestOutcome)
    ensures
        r == ingest_outcome(
            match extension {
                Some(e) => Some(e@),
                None => None,
            },
            exists,
        ),
{
    match extension {
        None => IngestOutcome::Unsupported,
        Some(ext) => match format_for_extension(ext) {
            None => IngestOutcome::Unsupported,
            Some(f) => if exists {
                IngestOutcome::Accepted(f)
            } else {
                IngestOutcome::NotFound
            },
        },
    }
}

/// A directory entry seen by the reindex workflow: its extension, if any,
/// and whether it still exists.
pub struct DirectoryEntry {
    pub extension: Option<String>,
    pub exists: bool,
}

/// The extension of an entry, as characters.
pub open spec fn entry_extension(e: DirectoryEntry) -> Option<Seq<char>> {
    match e.extension {
        Some(s) => Some(s@),
        None => None,
    }
}

/// Decides each entry of a directory on its own: entry `i` gets exactly the
/// outcome it would get if ingested alone, whatever the other entries are.
pub fn entry_outcomes(entries: &Vec<DirectoryEntry>) -> (r: Vec<IngestOutcome>)
    ensures
        r.len() == entries.len(),
        forall|i: int|
            0 <= i < entries.len() ==> #[trigger] r[i] == ingest_outcome(
                entry_extension(entries[i]),
                entries[i].exists,
            ),
{
    let mut r: Vec<IngestOutcome> = Vec::new();
    let mut i: usize = 0;
    while i < entries.len()
        invariant
            i <= entries.len(),
            r.len() == i,
            forall|k: int|
                0 <= k < i ==> #[trigger] r[k] == ingest_outcome(
                    entry_extension(entries[k]),
                    entries[k].exists,
                ),
        decreases entries.len() - i,
    {
        let e = &entries[i];
        let outcome = match &e.extension {
            Some(ext) => ingest_decision(Some(ext.as_str()), e.exists),
            None => ingest_decision(None, e.exists),
        };
        r.push(outcome);
        i += 1;
    }
    r
}

/// Where the reindex workflow stands.
#[derive(Clone, Copy, Debug, PartialEq, Eq, Structural)]
pub enum ReindexPhase {
    /// Waiting for the check that the path is a directory.
    CheckPath,
    /// Waiting for every document to be deleted.
    ClearIndex,
    /// Waiting for the deletion to be committed.
    CommitClear,
    /// Waiting for every entry of the directory to be dispatched.
    DispatchEntries,
    /// A response has been given.
    Finished,
}

/// What the runner of the workflow reports back.
#[derive(Clone, Copy, Debug, PartialEq, Eq, Structural)]
pub enum ReindexEvent {
    /// Whether the path exists and is a directory.
    PathChecked(bool),
    /// Whether deleting every document succeeded.
    Cleared(bool),
    /// Whether committing the deletion succeeded.
    ClearCommitted(bool),
    /// Whether the directory could be listed and every entry dispatched.
    EntriesDispatched(bool),
}

/// The response to a reindex request.
#[derive(Clone, Copy, Debug, PartialEq, Eq, Structural)]
pub enum ReindexOutcome {
    Accepted,
    BadRequest,
    InternalError,
}

/// What the runner must do next.
#[derive(Clone, Copy, Debug, PartialEq, Eq, Structural)]
pub enum ReindexAction {
    /// Take the writer and delete every document.
    ClearIndex,
    /// Commit the deletion.
    CommitClear,
    /// List the directory and dispatch each entry, independently.
    DispatchEntries,
    /// Answer the request and stop.
    Respond(ReindexOutcome),
}

/// The next phase and action of the reindex workflow.
pub open spec fn reindex_transition(phase: ReindexPhase, event: ReindexEvent) -> (
    ReindexPhase,
    ReindexAction,
) {
    match (phase, event) {
        (ReindexPhase::CheckPath, ReindexEvent::PathChecked(true)) => (
            ReindexPhase::ClearIndex,
            ReindexAction::ClearIndex,
        ),
        (ReindexPhase::CheckPath, ReindexEvent::PathChecked(false)) => (
            ReindexPhase::Finished,
            ReindexAction::Respond(ReindexOutcome::BadRequest),
        ),
        (ReindexPhase::ClearIndex, ReindexEvent::Cleared(true)) => (
            ReindexPhase::CommitClear,
            ReindexAction::CommitClear,
        ),
        (ReindexPhase::CommitClear, ReindexEvent::ClearCommitted(true)) => (
            ReindexPhase::DispatchEntries,
            ReindexAction::DispatchEntries,
        ),
        (ReindexPhase::DispatchEntries, ReindexEvent::EntriesDispatched(true)) => (
            ReindexPhase::Finished,
            ReindexAction::Respond(ReindexOutcome::Accepted),
        ),
        _ => (ReindexPhase::Finished, ReindexAction::Respond(ReindexOutcome::InternalError)),
    }
}

/// One step of the reindex workflow. The index is cleared only right after
/// the path was found to be a directory, and entries are dispatched only
/// after the deletion was committed.
pub fn reindex_step(phase: ReindexPhase, event: ReindexEvent) -> (r: (ReindexPhase, ReindexAction))
    ensures
        r == reindex_transition(phase, event),
        r.1 == ReindexAction::ClearIndex ==> phase == ReindexPhase::CheckPath && event
            == ReindexEvent::PathChecked(true),
        r.1 == ReindexAction::DispatchEntries ==> phase == ReindexPhase::CommitClear && event
            == ReindexEvent::ClearCommitted(true),
{
    match (phase, event) {
        (ReindexPhase::CheckPath, ReindexEvent::PathChecked(true)) => (
            ReindexPhase::ClearIndex,
            ReindexAction::ClearIndex,
        ),
        (ReindexPhase::CheckPath, ReindexEvent::PathChecked(false)) => (
            ReindexPhase::Finished,
            ReindexAction::Respond(ReindexOutcome::BadRequest),
        ),
        (ReindexPhase::ClearIndex, ReindexEvent::Cleared(true)) => (
            ReindexPhase::CommitClear,
            ReindexAction::CommitClear,
        ),
        (ReindexPhase::CommitClear, ReindexEvent::ClearCommitted(true)) => (
            ReindexPhase::DispatchEntries,
            ReindexAction::DispatchEntries,
        ),
        (ReindexPhase::DispatchEntries, ReindexEvent::EntriesDispatched(true)) => (
            ReindexPhase::Finished,
            ReindexAction::Respond(ReindexOutcome::Accepted),
        ),
        _ => (ReindexPhase::Finished, ReindexAction::Respond(ReindexOutcome::InternalError)),
    }
}

} // verus!
