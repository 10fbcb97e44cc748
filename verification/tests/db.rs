use local_memory_mcp::db::{
    connection_pragmas, database_size, events_query, integrity_verdict, lock_failure,
    migration_step, needs_integrity_check, MigrationStep, SCHEMA_VERSION,
};
use local_memory_mcp::error::MemoryError;
use local_memory_mcp::events::{BranchFilter, GetEventsParams};

const SELECT: &str = "SELECT id, actor_id, session_id, event_type, role, content, blob_data, metadata, branch_id, created_at, expires_at FROM events WHERE actor_id = ?1 AND session_id = ?2";

fn window<'a>(branch_id: BranchFilter<'a>) -> GetEventsParams<'a> {
    GetEventsParams {
        actor_id: "a1",
        session_id: "s1",
        branch_id,
        limit: 100,
        offset: 0,
        before: None,
        after: None,
    }
}

#[test]
fn migration_steps() {
    assert_eq!(migration_step(0).unwrap(), MigrationStep::ApplyV1);
    assert_eq!(migration_step(SCHEMA_VERSION).unwrap(), MigrationStep::UpToDate);
    let err = migration_step(999).unwrap_err();
    assert!(matches!(err, MemoryError::SchemaVersionTooNew(999, 1)));
    assert_eq!(
        err.message(),
        "Schema version 999 is newer than this binary supports (1)"
    );
}

#[test]
fn pragmas_follow_the_sync_setting() {
    let normal = connection_pragmas(Some("normal"));
    assert!(normal.contains("PRAGMA synchronous = NORMAL;"));
    assert!(normal.starts_with("PRAGMA journal_mode = WAL;"));
    assert!(normal.ends_with("PRAGMA locking_mode = EXCLUSIVE;"));
    assert!(connection_pragmas(None).contains("PRAGMA synchronous = FULL;"));
    assert!(connection_pragmas(Some("NORMAL")).contains("PRAGMA synchronous = FULL;"));
    assert!(connection_pragmas(Some("off")).contains("PRAGMA synchronous = FULL;"));
}

#[test]
fn integrity_and_lock_outcomes() {
    assert!(!needs_integrity_check(0));
    assert!(needs_integrity_check(1));
    assert!(integrity_verdict("ok", "/tmp/x.db").is_ok());
    assert!(matches!(
        integrity_verdict("*** in database main ***", "/tmp/x.db"),
        Err(MemoryError::DatabaseCorrupted(p)) if p == "/tmp/x.db"
    ));
    assert!(matches!(
        lock_failure(true, "/tmp/x.db"),
        MemoryError::StoreLocked(p) if p == "/tmp/x.db"
    ));
    assert!(matches!(
        lock_failure(false, "/tmp/x.db"),
        MemoryError::ConnectionFailed(m) if m == "failed to acquire database lock"
    ));
    assert_eq!(database_size(3, 4096), 12288);
}

#[test]
fn timeline_query_for_all_branches() {
    let q = events_query(&window(BranchFilter::All));
    assert_eq!(
        q.sql,
        format!("{SELECT} ORDER BY created_at ASC, rowid ASC LIMIT ?3 OFFSET ?4")
    );
    assert_eq!(q.text_binds, vec!["a1".to_string(), "s1".to_string()]);
    assert_eq!((q.limit, q.offset), (100, 0));
}

#[test]
fn timeline_query_for_main_timeline() {
    let q = events_query(&window(BranchFilter::MainOnly));
    assert_eq!(
        q.sql,
        format!("{SELECT} AND branch_id IS NULL ORDER BY created_at ASC, rowid ASC LIMIT ?3 OFFSET ?4")
    );
    assert_eq!(q.text_binds.len(), 2);
}

#[test]
fn timeline_query_with_every_filter() {
    let p = GetEventsParams {
        limit: 2,
        offset: 1,
        before: Some("2026-01-01T00:00:03Z"),
        after: Some("2026-01-01T00:00:01Z"),
        ..window(BranchFilter::Specific("branch1"))
    };
    let q = events_query(&p);
    assert_eq!(
        q.sql,
        format!("{SELECT} AND branch_id = ?3 AND created_at < ?4 AND created_at > ?5 ORDER BY created_at ASC, rowid ASC LIMIT ?6 OFFSET ?7")
    );
    assert_eq!(
        q.text_binds,
        vec!["a1", "s1", "branch1", "2026-01-01T00:00:03Z", "2026-01-01T00:00:01Z"]
    );
    assert_eq!((q.limit, q.offset), (2, 1));
}

#[test]
fn timeline_query_with_one_bound() {
    let p = GetEventsParams {
        after: Some("2026-01-01T00:00:01Z"),
        ..window(BranchFilter::All)
    };
    let q = events_query(&p);
    assert_eq!(
        q.sql,
        format!("{SELECT} AND created_at > ?3 ORDER BY created_at ASC, rowid ASC LIMIT ?4 OFFSET ?5")
    );
}

#[test]
fn test_migrate_future_version() {
    let result = migration_step(999);
    assert!(matches!(result, Err(MemoryError::SchemaVersionTooNew(999, 1))));
}
