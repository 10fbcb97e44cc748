//! Validation, query planning, ranking and store bookkeeping for a local,
//! SQLite-backed memory server for AI agents: short-term conversation events,
//! long-term memory records, a knowledge graph between records, namespaces,
//! session checkpoints and branches, and several independent store files.
//!
//! The database itself and the MCP transport live outside this crate; every
//! decision taken before a query runs, and every result computed from what
//! the queries return, is stated and proved here.

pub mod error;
pub mod text;
pub mod json;
pub mod codec;
pub mod validation;
pub mod search;
pub mod memories;
pub mod events;
pub mod namespaces;
pub mod graph;
pub mod sessions;
pub mod store;
pub mod db;
pub mod tools;
