use vstd::prelude::*;

use crate::text::{decimal_digits, decimal_text};

verus! {

/// Every failure the memory server reports.
#[derive(Debug)]
pub enum MemoryError {
    InvalidName(String),
    NotFound(String),
    ActiveStoreDeletion(String),
    Disconnected,
    ConnectionFailed(String),
    SchemaError(String),
    SchemaVersionTooNew(u32, u32),
    InvalidPath(String),
    QueryFailed(String),
    InvalidInput(String),
    DeleteFailed(String),
    DatabaseCorrupted(String),
    StoreLocked(String),
}

/// The human-readable text of an error, as shown to MCP clients.
pub open spec fn error_text(e: MemoryError) -> Seq<char> {
    match e {
        MemoryError::InvalidName(s) => "Invalid store name: "@ + s@,
        MemoryError::NotFound(s) => "Store not found: "@ + s@,
        MemoryError::ActiveStoreDeletion(s) => "Cannot delete active store: "@ + s@,
        MemoryError::Disconnected => "Store disconnected"@,
        MemoryError::ConnectionFailed(s) => "Connection failed: "@ + s@,
        MemoryError::SchemaError(s) => "Schema error: "@ + s@,
        MemoryError::SchemaVersionTooNew(found, supported) => "Schema version "@ + decimal_digits(
            found as nat,
        ) + " is newer than this binary supports ("@ + decimal_digits(supported as nat) + ")"@,
        MemoryError::InvalidPath(s) => "Invalid path: "@ + s@,
        MemoryError::QueryFailed(s) => "Query failed: "@ + s@,
        MemoryError::InvalidInput(s) => "Invalid input: "@ + s@,
        MemoryError::DeleteFailed(s) => "Delete failed: "@ + s@,
        MemoryError::DatabaseCorrupted(s) => "Database corrupted: "@ + s@,
        MemoryError::StoreLocked(s) => "Store is locked by another process: "@ + s@,
    }
}

fn prefixed(prefix: &str, detail: &String) -> (r: String)
    ensures
        r@ == prefix@ + detail@,
{
    let mut r = String::from_str(prefix);
    r.append(detail.as_str());
    r
}

impl MemoryError {
    /// The error's text, e.g. `Invalid input: label must not be empty`.
    pub fn message(&self) -> (r: String)
        ensures
            r@ == error_text(*self),
    {
        match self {
            MemoryError::InvalidName(s) => prefixed("Invalid store name: ", s),
            MemoryError::NotFound(s) => prefixed("Store not found: ", s),
            MemoryError::ActiveStoreDeletion(s) => prefixed("Cannot delete active store: ", s),
            MemoryError::Disconnected => String::from_str("Store disconnected"),
            MemoryError::ConnectionFailed(s) => prefixed("Connection failed: ", s),
            MemoryError::SchemaError(s) => prefixed("Schema error: ", s),
            MemoryError::SchemaVersionTooNew(found, supported) => {
                let mut r = String::from_str("Schema version ");
                let f = decimal_text(*found as u64);
                r.append(f.as_str());
                r.append(" is newer than this binary supports (");
                let s = decimal_text(*supported as u64);
                r.append(s.as_str());
                r.append(")");
                r
            },
            MemoryError::InvalidPath(s) => prefixed("Invalid path: ", s),
            MemoryError::QueryFailed(s) => prefixed("Query failed: ", s),
            MemoryError::InvalidInput(s) => prefixed("Invalid input: ", s),
            MemoryError::DeleteFailed(s) => prefixed("Delete failed: ", s),
            MemoryError::DatabaseCorrupted(s) => prefixed("Database corrupted: ", s),
            MemoryError::StoreLocked(s) => prefixed("Store is locked by another process: ", s),
        }
    }

    /// Whether the error is `InvalidInput`, whatever its text.
    pub fn is_invalid_input(&self) -> (r: bool)
        ensures
            r == (*self is InvalidInput),
    {
        match self {
            MemoryError::InvalidInput(_) => true,
            _ => false,
        }
    }
}

} // verus!
