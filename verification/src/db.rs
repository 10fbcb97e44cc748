use vstd::prelude::*;

use crate::error::MemoryError;
use crate::events::{opt_view, BranchFilter, GetEventsParams};
use crate::text::{decimal_digits, decimal_text, str_eq};

verus! {

/// The schema version this build creates and reads (SQLite `user_version`).
pub const SCHEMA_VERSION: u32 = 1;

/// Dimensions of the stored embedding vectors (`float[384]` in `memory_vec`).
pub const EMBEDDING_DIM: u32 = 384;

// --- opening a store ---

/// What opening a store does to its schema.
#[derive(Debug, Clone, Copy, PartialEq, Eq, Structural)]
pub enum MigrationStep {
    /// The schema is current: nothing to do.
    UpToDate,
    /// A fresh database: create the version 1 schema, then record version 1.
    ApplyV1,
}

/// The step for a database at schema `version`; `None` for a version newer
/// than this build.
pub open spec fn migration_for(version: u32) -> Option<MigrationStep> {
    if version > SCHEMA_VERSION {
        None
    } else if version < 1 {
        Some(MigrationStep::ApplyV1)
    } else {
        Some(MigrationStep::UpToDate)
    }
}

/// The schema version a database is left at after a step.
pub open spec fn version_after(version: u32, step: MigrationStep) -> u32 {
    match step {
        MigrationStep::ApplyV1 => 1,
        MigrationStep::UpToDate => version,
    }
}

/// Migration is idempotent: a database this build accepts is brought to
/// the current schema version in one step, and a database at that version
/// needs no further step, so opening a store again changes nothing.
pub proof fn law_migration_idempotent(version: u32)
    requires
        version <= SCHEMA_VERSION,
    ensures
        migration_for(version) matches Some(step) && version_after(version, step) == SCHEMA_VERSION,
        migration_for(SCHEMA_VERSION) == Some(MigrationStep::UpToDate),
{
}

/// The migration step for a database whose `user_version` is `version`.
/// A version newer than this build is refused, naming both versions.
pub fn migration_step(version: u32) -> (r: Result<MigrationStep, MemoryError>)
    ensures
        match migration_for(version) {
            Some(step) => r == Ok::<MigrationStep, MemoryError>(step),
            None => r matches Err(MemoryError::SchemaVersionTooNew(found, supported)) && found
                == version && supported == SCHEMA_VERSION,
        },
{
    if version > SCHEMA_VERSION {
        Err(MemoryError::SchemaVersionTooNew(version, SCHEMA_VERSION))
    } else if version < 1 {
        Ok(MigrationStep::ApplyV1)
    } else {
        Ok(MigrationStep::UpToDate)
    }
}

/// The SQLite `synchronous` mode for a `LOCAL_MEMORY_SYNC` setting: `NORMAL`
/// exactly when the setting is `normal`, `FULL` otherwise (unset included).
pub open spec fn sync_mode_text(setting: Option<Seq<char>>) -> Seq<char> {
    if setting == Some("normal"@) {
        "NORMAL"@
    } else {
        "FULL"@
    }
}

/// The pragmas every connection is configured with: write-ahead log, the
/// given synchronous mode, foreign keys, a busy timeout, a bounded cache,
/// WAL checkpointing and size limits, and exclusive locking.
pub open spec fn pragma_text(sync_mode: Seq<char>) -> Seq<char> {
    "PRAGMA journal_mode = WAL; PRAGMA synchronous = "@ + sync_mode
        + "; PRAGMA foreign_keys = ON; PRAGMA busy_timeout = 5000; PRAGMA cache_size = -2000; PRAGMA wal_autocheckpoint = 1000; PRAGMA journal_size_limit = 67108864; PRAGMA locking_mode = EXCLUSIVE;"@
}

/// The pragma batch a new connection runs, for the `LOCAL_MEMORY_SYNC`
/// setting (`None` when unset).
pub fn connection_pragmas(sync_setting: Option<&str>) -> (r: String)
    ensures
        r@ == pragma_text(sync_mode_text(opt_view(sync_setting))),
{
    let normal = match sync_setting {
        Some(s) => str_eq(s, "normal"),
        None => false,
    };
    let mode = if normal {
        "NORMAL"
    } else {
        "FULL"
    };
    let mut r = String::from_str("PRAGMA journal_mode = WAL; PRAGMA synchronous = ");
    r.append(mode);
    r.append(
        "; PRAGMA foreign_keys = ON; PRAGMA busy_timeout = 5000; PRAGMA cache_size = -2000; PRAGMA wal_autocheckpoint = 1000; PRAGMA journal_size_limit = 67108864; PRAGMA locking_mode = EXCLUSIVE;",
    );
    r
}

/// Whether opening runs `PRAGMA quick_check`: only databases that already
/// hold a schema (`user_version > 0`) are checked.
pub fn needs_integrity_check(user_version: u32) -> (r: bool)
    ensures
        r == (user_version > 0),
{
    user_version > 0
}

/// The verdict on a `PRAGMA quick_check` answer: `ok` passes, anything else
/// marks the database at `path` as corrupted.
pub fn integrity_verdict(check: &str, path: &str) -> (r: Result<(), MemoryError>)
    ensures
        check@ == "ok"@ ==> r is Ok,
        check@ != "ok"@ ==> (r matches Err(MemoryError::DatabaseCorrupted(p)) && p@ == path@),
{
    if str_eq(check, "ok") {
        Ok(())
    } else {
        Err(MemoryError::DatabaseCorrupted(String::from_str(path)))
    }
}

/// The error for a failed `BEGIN IMMEDIATE` when opening: a busy database is
/// locked by another process; any other failure is a connection failure.
pub fn lock_failure(busy: bool, path: &str) -> (r: MemoryError)
    ensures
        busy ==> (r matches MemoryError::StoreLocked(p) && p@ == path@),
        !busy ==> (r matches MemoryError::ConnectionFailed(m) && m@
            == "failed to acquire database lock"@),
{
    if busy {
        MemoryError::StoreLocked(String::from_str(path))
    } else {
        MemoryError::ConnectionFailed(String::from_str("failed to acquire database lock"))
    }
}

/// Size in bytes of a database of `page_count` pages of `page_size` bytes.
pub fn database_size(page_count: u64, page_size: u64) -> (r: u64)
    requires
        page_count * page_size <= u64::MAX,
    ensures
        r == page_count * page_size,
{
    page_count * page_size
}

// --- the timeline query ---

/// The columns and table every event read selects from, scoped to an actor
/// (`?1`) and a session (`?2`).
pub open spec fn events_select() -> Seq<char> {
    "SELECT id, actor_id, session_id, event_type, role, content, blob_data, metadata, branch_id, created_at, expires_at FROM events WHERE actor_id = ?1 AND session_id = ?2"@
}

/// The positional placeholder `?n`.
pub open spec fn placeholder(n: nat) -> Seq<char> {
    "?"@ + decimal_digits(n)
}

/// Text values bound before the branch filter: actor, then session.
pub open spec fn scope_binds(p: GetEventsParams) -> Seq<Seq<char>> {
    seq![p.actor_id@, p.session_id@]
}

/// Text values bound up to the branch filter.
pub open spec fn branch_binds(p: GetEventsParams) -> Seq<Seq<char>> {
    match p.branch_id {
        BranchFilter::Specific(id) => scope_binds(p).push(id@),
        _ => scope_binds(p),
    }
}

/// Text values bound up to the `before` bound.
pub open spec fn before_binds(p: GetEventsParams) -> Seq<Seq<char>> {
    match p.before {
        Some(t) => branch_binds(p).push(t@),
        None => branch_binds(p),
    }
}

/// All text values of a timeline query, in placeholder order: actor,
/// session, then the branch id, `before` and `after` where given.  The limit
/// and offset follow as the next two placeholders.
pub open spec fn events_text_binds(p: GetEventsParams) -> Seq<Seq<char>> {
    match p.after {
        Some(t) => before_binds(p).push(t@),
        None => before_binds(p),
    }
}

/// The branch clause: none for all branches, `IS NULL` for the main
/// timeline, equality with the next placeholder for one branch.
pub open spec fn branch_clause(p: GetEventsParams) -> Seq<char> {
    match p.branch_id {
        BranchFilter::All => ""@,
        BranchFilter::MainOnly => " AND branch_id IS NULL"@,
        BranchFilter::Specific(_) => " AND branch_id = "@ + placeholder(branch_binds(p).len()),
    }
}

/// The exclusive upper time bound, where given.
pub open spec fn before_clause(p: GetEventsParams) -> Seq<char> {
    match p.before {
        Some(_) => " AND created_at < "@ + placeholder(before_binds(p).len()),
        None => ""@,
    }
}

/// The exclusive lower time bound, where given.
pub open spec fn after_clause(p: GetEventsParams) -> Seq<char> {
    match p.after {
        Some(_) => " AND created_at > "@ + placeholder(events_text_binds(p).len()),
        None => ""@,
    }
}

/// The SQL of a timeline read: scoped to actor and session, filtered by
/// branch and time window, oldest first (insertion order among equal
/// timestamps), one page of `limit` rows after `offset`.
pub open spec fn events_sql(p: GetEventsParams) -> Seq<char> {
    let n = events_text_binds(p).len();
    events_select() + branch_clause(p) + before_clause(p) + after_clause(p)
        + " ORDER BY created_at ASC, rowid ASC LIMIT "@ + placeholder(n + 1) + " OFFSET "@
        + placeholder(n + 2)
}

/// Timeline reads are scoped to one actor's session: whatever the filters,
/// the query selects only rows whose actor and session equal the first two
/// bound values, which are the request's actor and session, and every
/// placeholder it uses has a bound value.
pub proof fn law_timeline_reads_are_actor_scoped(p: GetEventsParams)
    ensures
        events_sql(p).take(events_select().len() as int) == events_select(),
        events_text_binds(p)[0] == p.actor_id@,
        events_text_binds(p)[1] == p.session_id@,
        2 <= events_text_binds(p).len() <= 5,
{
    let n = events_text_binds(p).len();
    let tail = branch_clause(p) + before_clause(p) + after_clause(p)
        + " ORDER BY created_at ASC, rowid ASC LIMIT "@ + placeholder(n + 1) + " OFFSET "@
        + placeholder(n + 2);
    assert(events_sql(p) =~= events_select() + tail);
    assert((events_select() + tail).take(events_select().len() as int) =~= events_select());
}

/// Whether `c` occurs in `s` starting at position `i`.
pub open spec fn occurs_at(s: Seq<char>, i: int, c: Seq<char>) -> bool {
    0 <= i && i + c.len() <= s.len() && s.subrange(i, i + c.len()) == c
}

/// A `before` bound keeps only the events strictly older than it: the query
/// holds, at the returned position, the clause `created_at < ?k` followed by
/// a space, and the returned `k`-th bound value is the given timestamp,
/// whether or not an `after` bound is given too.
pub proof fn law_before_is_strict_upper_bound(p: GetEventsParams) -> (w: (int, nat))
    requires
        p.before is Some,
    ensures
        1 <= w.1 <= events_text_binds(p).len(),
        events_text_binds(p)[w.1 - 1] == p.before.unwrap()@,
        occurs_at(events_sql(p), w.0, " AND created_at < "@ + "?"@ + decimal_digits(w.1)),
        events_sql(p)[w.0 + (" AND created_at < "@ + "?"@ + decimal_digits(w.1)).len()] == ' ',
{
    let k = before_binds(p).len();
    let a = events_select() + branch_clause(p);
    let c = before_clause(p);
    let n = events_text_binds(p).len();
    let order = " ORDER BY created_at ASC, rowid ASC LIMIT "@;
    let tail = order + placeholder(n + 1) + " OFFSET "@ + placeholder(n + 2);
    let rest = after_clause(p) + tail;
    assert(events_sql(p) =~= a + (c + rest));
    assert((a + (c + rest)).subrange(a.len() as int, (a.len() + c.len()) as int) =~= c);
    assert(c =~= " AND created_at < "@ + "?"@ + decimal_digits(k));
    reveal_strlit(" AND created_at > ");
    reveal_strlit(" ORDER BY created_at ASC, rowid ASC LIMIT ");
    reveal_strlit("");
    assert(tail =~= order + (placeholder(n + 1) + " OFFSET "@ + placeholder(n + 2)));
    assert(tail[0] == ' ');
    if p.after is Some {
        assert(after_clause(p) =~= " AND created_at > "@ + placeholder(n));
        assert(rest[0] == ' ');
    } else {
        assert(rest =~= tail);
    }
    assert((a + (c + rest))[(a.len() + c.len()) as int] == rest[0]);
    (a.len() as int, k)
}

/// An `after` bound keeps only the events strictly newer than it: the query
/// holds, at the returned position, the clause `created_at > ?k` followed by
/// a space, and the returned `k`-th bound value is the given timestamp,
/// whether or not a `before` bound is given too.
pub proof fn law_after_is_strict_lower_bound(p: GetEventsParams) -> (w: (int, nat))
    requires
        p.after is Some,
    ensures
        1 <= w.1 <= events_text_binds(p).len(),
        events_text_binds(p)[w.1 - 1] == p.after.unwrap()@,
        occurs_at(events_sql(p), w.0, " AND created_at > "@ + "?"@ + decimal_digits(w.1)),
        events_sql(p)[w.0 + (" AND created_at > "@ + "?"@ + decimal_digits(w.1)).len()] == ' ',
{
    let k = events_text_binds(p).len();
    let a = events_select() + branch_clause(p) + before_clause(p);
    let c = after_clause(p);
    let order = " ORDER BY created_at ASC, rowid ASC LIMIT "@;
    let rest = order + placeholder(k + 1) + " OFFSET "@ + placeholder(k + 2);
    assert(events_sql(p) =~= a + (c + rest));
    assert((a + (c + rest)).subrange(a.len() as int, (a.len() + c.len()) as int) =~= c);
    assert(c =~= " AND created_at > "@ + "?"@ + decimal_digits(k));
    reveal_strlit(" ORDER BY created_at ASC, rowid ASC LIMIT ");
    assert(rest =~= order + (placeholder(k + 1) + " OFFSET "@ + placeholder(k + 2)));
    assert(rest[0] == ' ');
    assert((a + (c + rest))[(a.len() + c.len()) as int] == rest[0]);
    (a.len() as int, k)
}

/// A prepared timeline read: its SQL, the text values of its first
/// placeholders, and the page bounds bound right after them.
pub struct EventsQuery {
    pub sql: String,
    /// The values of `?1`..`?n`, in order.
    pub text_binds: Vec<String>,
    /// The value of `?n+1`.
    pub limit: u32,
    /// The value of `?n+2`.
    pub offset: u32,
}

/// The views of a list of strings.
pub open spec fn string_views(v: Seq<String>) -> Seq<Seq<char>> {
    v.map_values(|s: String| s@)
}

fn push_placeholder(sql: &mut String, n: usize)
    ensures
        final(sql)@ == old(sql)@ + placeholder(n as nat),
{
    sql.append("?");
    let d = decimal_text(n as u64);
    sql.append(d.as_str());
    assert(final(sql)@ =~= old(sql)@ + placeholder(n as nat));
}

fn push_bind(binds: &mut Vec<String>, value: &str)
    ensures
        string_views(final(binds)@) == string_views(old(binds)@).push(value@),
{
    binds.push(String::from_str(value));
    assert(string_views(final(binds)@) =~= string_views(old(binds)@).push(value@));
}

/// Builds the timeline read for an already validated window.
pub fn events_query(p: &GetEventsParams) -> (r: EventsQuery)
    ensures
        r.sql@ == events_sql(*p),
        string_views(r.text_binds@) == events_text_binds(*p),
        r.limit == p.limit,
        r.offset == p.offset,
{
    let mut sql = String::from_str(
        "SELECT id, actor_id, session_id, event_type, role, content, blob_data, metadata, branch_id, created_at, expires_at FROM events WHERE actor_id = ?1 AND session_id = ?2",
    );
    let mut binds: Vec<String> = Vec::new();
    push_bind(&mut binds, p.actor_id);
    push_bind(&mut binds, p.session_id);
    assert(string_views(binds@) =~= scope_binds(*p));
    let ghost s0 = sql@;
    proof {
        reveal_strlit("");
    }
    match p.branch_id {
        BranchFilter::All => {},
        BranchFilter::MainOnly => {
            sql.append(" AND branch_id IS NULL");
        },
        BranchFilter::Specific(id) => {
            push_bind(&mut binds, id);
            assert(string_views(binds@) == branch_binds(*p));
            sql.append(" AND branch_id = ");
            push_placeholder(&mut sql, binds.len());
        },
    }
    assert(string_views(binds@) == branch_binds(*p));
    assert(sql@ =~= s0 + branch_clause(*p));
    let ghost s1 = sql@;
    if let Some(before) = p.before {
        push_bind(&mut binds, before);
        assert(string_views(binds@) == before_binds(*p));
        sql.append(" AND created_at < ");
        push_placeholder(&mut sql, binds.len());
    }
    assert(string_views(binds@) == before_binds(*p));
    assert(sql@ =~= s1 + before_clause(*p));
    let ghost s2 = sql@;
    if let Some(after) = p.after {
        push_bind(&mut binds, after);
        assert(string_views(binds@) == events_text_binds(*p));
        sql.append(" AND created_at > ");
        push_placeholder(&mut sql, binds.len());
    }
    assert(string_views(binds@) == events_text_binds(*p));
    assert(sql@ =~= s2 + after_clause(*p));
    let n = binds.len();
    assert(n <= 5);
    sql.append(" ORDER BY created_at ASC, rowid ASC LIMIT ");
    push_placeholder(&mut sql, n + 1);
    sql.append(" OFFSET ");
    push_placeholder(&mut sql, n + 2);
    proof {
        assert(sql@ =~= events_sql(*p));
    }
    EventsQuery { sql, text_binds: binds, limit: p.limit, offset: p.offset }
}

} // verus!
