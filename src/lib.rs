//! Ingestion and indexing core of a file search service: spreadsheet-style
//! cell addresses, per-format adapters that turn parsed sources into index
//! documents, a query compiler and the dispatch rules of the orchestrator.
pub mod address;
pub mod record;
pub mod query;
pub mod dispatch;
pub mod adapters;
pub mod engine;
