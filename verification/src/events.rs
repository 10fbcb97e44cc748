use vstd::prelude::*;

use crate::error::MemoryError;
use crate::text::{str_eq, utf8_len};
use crate::validation::{
    empty_msg, field_msg, first_problem, invalid, json_object_problem, max_len_problem,
    non_empty_problem, reports, validate_json_object, validate_max_len, validate_non_empty,
    clamp_u32, clamped, outcome,
};

verus! {

pub const MAX_ACTOR_ID_LEN: usize = 256;

pub const MAX_SESSION_ID_LEN: usize = 256;

/// Largest conversation content, in bytes.
pub const MAX_CONTENT_SIZE: usize = 1_048_576;

/// Largest blob payload, in bytes.
pub const MAX_BLOB_SIZE: usize = 10_485_760;

pub const MAX_PAGE_LIMIT: u32 = 1000;

pub const DEFAULT_PAGE_LIMIT: u32 = 100;

/// An immutable conversation or blob event of a session timeline.
#[derive(Debug, Clone)]
pub struct Event {
    pub id: String,
    pub actor_id: String,
    pub session_id: String,
    pub event_type: String,
    pub role: Option<String>,
    pub content: Option<String>,
    pub blob_data: Option<Vec<u8>>,
    /// JSON object text.
    pub metadata: Option<String>,
    pub branch_id: Option<String>,
    /// ISO 8601 UTC timestamp: YYYY-MM-DDTHH:MM:SSZ
    pub created_at: String,
    pub expires_at: Option<String>,
}

/// A session of an actor with its event count and date range.
#[derive(Debug, Clone)]
pub struct SessionInfo {
    pub session_id: String,
    pub actor_id: String,
    pub event_count: u64,
    pub first_event_at: String,
    pub last_event_at: String,
}

/// Three-state branch filter for listing events.
#[derive(Debug, Clone, Copy)]
pub enum BranchFilter<'a> {
    /// Events of all branches, the main timeline included.
    All,
    /// Main timeline only: events without a branch.
    MainOnly,
    /// One branch, by id.
    Specific(&'a str),
}

/// An event to append.
#[derive(Debug, Clone)]
pub struct InsertEventParams<'a> {
    pub actor_id: &'a str,
    pub session_id: &'a str,
    pub event_type: &'a str,
    pub role: Option<&'a str>,
    pub content: Option<&'a str>,
    pub blob_data: Option<&'a [u8]>,
    /// JSON object text.
    pub metadata: Option<&'a str>,
    pub branch_id: Option<&'a str>,
    pub expires_at: Option<&'a str>,
}

/// A window of a session timeline.
#[derive(Debug, Clone, Copy)]
pub struct GetEventsParams<'a> {
    pub actor_id: &'a str,
    pub session_id: &'a str,
    pub branch_id: BranchFilter<'a>,
    pub limit: u32,
    pub offset: u32,
    pub before: Option<&'a str>,
    pub after: Option<&'a str>,
}

// --- timestamps ---

/// `YYYY-MM-DDTHH:MM:SSZ` shape, checked on the UTF-8 bytes: twenty bytes with
/// `-` at 4 and 7, `T` at 10, `:` at 13 and 16 and `Z` at 19.
pub open spec fn timestamp_shaped(b: Seq<u8>) -> bool {
    &&& b.len() == 20
    &&& b[4] == 45u8
    &&& b[7] == 45u8
    &&& b[10] == 84u8
    &&& b[13] == 58u8
    &&& b[16] == 58u8
    &&& b[19] == 90u8
}

pub open spec fn timestamp_problem(value: Seq<char>, field: Seq<char>) -> Option<Seq<char>> {
    if timestamp_shaped(vstd::utf8::encode_utf8(value)) {
        None
    } else {
        Some(field + " must be in YYYY-MM-DDTHH:MM:SSZ format"@)
    }
}

/// Validates the `YYYY-MM-DDTHH:MM:SSZ` format (a structure check only).
pub fn validate_timestamp_format(value: &str, field: &str) -> (r: Result<(), MemoryError>)
    ensures
        reports(r, timestamp_problem(value@, field@)),
{
    let b = value.as_bytes();
    if b.len() != 20 || b[4] != 45u8 || b[7] != 45u8 || b[10] != 84u8 || b[13] != 58u8 || b[16]
        != 58u8 || b[19] != 90u8 {
        return invalid(field_msg(field, " must be in YYYY-MM-DDTHH:MM:SSZ format"));
    }
    Ok(())
}

// --- inserting events ---

pub open spec fn opt_view(o: Option<&str>) -> Option<Seq<char>> {
    match o {
        Some(s) => Some(s@),
        None => None,
    }
}

/// Problems of the event type and its payload.
pub open spec fn payload_problem(p: InsertEventParams) -> Option<Seq<char>> {
    if p.event_type@ == "conversation"@ {
        if p.content is None {
            Some("content is required for conversation events"@)
        } else if p.blob_data is Some {
            Some("blob_data is not allowed for conversation events"@)
        } else {
            None
        }
    } else if p.event_type@ == "blob"@ {
        if p.blob_data is None {
            Some("blob_data is required for blob events"@)
        } else if p.content is Some {
            Some("content is not allowed for blob events"@)
        } else {
            None
        }
    } else {
        Some("event_type must be 'conversation' or 'blob'"@)
    }
}

pub open spec fn is_known_role(r: Seq<char>) -> bool {
    r == "user"@ || r == "assistant"@ || r == "tool"@ || r == "system"@
}

/// The first problem of an event to append, in the order the checks run.
pub open spec fn insert_event_problem(p: InsertEventParams) -> Option<Seq<char>> {
    first_problem(
        non_empty_problem(p.actor_id@, "actor_id"@),
        first_problem(
            max_len_problem(p.actor_id@, MAX_ACTOR_ID_LEN as nat, "actor_id"@),
            first_problem(
                non_empty_problem(p.session_id@, "session_id"@),
                first_problem(
                    max_len_problem(p.session_id@, MAX_SESSION_ID_LEN as nat, "session_id"@),
                    first_problem(
                        payload_problem(p),
                        first_problem(
                            if p.role matches Some(r) && !is_known_role(r@) {
                                Some("role must be 'user', 'assistant', 'tool', or 'system'"@)
                            } else {
                                None
                            },
                            first_problem(
                                if p.content matches Some(c) && utf8_len(c@) > MAX_CONTENT_SIZE {
                                    Some(
                                        "content exceeds maximum size of 1048576 bytes"@,
                                    )
                                } else {
                                    None
                                },
                                first_problem(
                                    if p.blob_data matches Some(b) && b@.len() > MAX_BLOB_SIZE {
                                        Some("blob_data exceeds maximum size of 10485760 bytes"@)
                                    } else {
                                        None
                                    },
                                    first_problem(
                                        match p.metadata {
                                            Some(m) => json_object_problem(m@, "metadata"@),
                                            None => None,
                                        },
                                        match p.expires_at {
                                            Some(t) => timestamp_problem(t@, "expires_at"@),
                                            None => None,
                                        },
                                    ),
                                ),
                            ),
                        ),
                    ),
                ),
            ),
        ),
    )
}

/// A conversation turn is appended whatever its role among `user`,
/// `assistant`, `tool` and `system`, or with no role, and refused with any
/// other role: with the actor and session ids present and at most 256 bytes,
/// content of at most 1 MiB, and no blob, metadata or expiry.
pub proof fn law_conversation_turn_roles(p: InsertEventParams)
    requires
        0 < p.actor_id@.len(),
        utf8_len(p.actor_id@) <= 256,
        0 < p.session_id@.len(),
        utf8_len(p.session_id@) <= 256,
        p.event_type@ == "conversation"@,
        p.content matches Some(c) && utf8_len(c@) <= 1_048_576,
        p.blob_data is None,
        p.metadata is None,
        p.expires_at is None,
    ensures
        insert_event_problem(p) is None <==> (p.role matches Some(r) ==> (r@ == "user"@ || r@
            == "assistant"@ || r@ == "tool"@ || r@ == "system"@)),
{
}

/// An event with the actor and session ids present and at most 256 bytes,
/// no role, metadata or expiry, is appended exactly when it is a
/// conversation event with content of at most 1 MiB and no blob, or a blob
/// event with a blob of at most 10 MiB and no content.
pub proof fn law_event_payload_kinds(p: InsertEventParams)
    requires
        0 < p.actor_id@.len(),
        utf8_len(p.actor_id@) <= 256,
        0 < p.session_id@.len(),
        utf8_len(p.session_id@) <= 256,
        p.role is None,
        p.metadata is None,
        p.expires_at is None,
    ensures
        insert_event_problem(p) is None <==> ((p.event_type@ == "conversation"@ && (
        p.content matches Some(c) && utf8_len(c@) <= 1_048_576) && p.blob_data is None) || (
        p.event_type@ == "blob"@ && (p.blob_data matches Some(b) && b@.len() <= 10_485_760)
            && p.content is None)),
{
    reveal_strlit("conversation");
    reveal_strlit("blob");
    assert("conversation"@ != "blob"@) by {
        assert("conversation"@.len() != "blob"@.len());
    }
}

fn validate_payload(p: &InsertEventParams) -> (r: Result<(), MemoryError>)
    ensures
        reports(r, payload_problem(*p)),
{
    if str_eq(p.event_type, "conversation") {
        if p.content.is_none() {
            return invalid(String::from_str("content is required for conversation events"));
        }
        if p.blob_data.is_some() {
            return invalid(String::from_str("blob_data is not allowed for conversation events"));
        }
    } else if str_eq(p.event_type, "blob") {
        if p.blob_data.is_none() {
            return invalid(String::from_str("blob_data is required for blob events"));
        }
        if p.content.is_some() {
            return invalid(String::from_str("content is not allowed for blob events"));
        }
    } else {
        return invalid(String::from_str("event_type must be 'conversation' or 'blob'"));
    }
    Ok(())
}

/// Validates an event to append; `Ok` exactly when no check fails, else the
/// first failing check's `InvalidInput`.
pub fn validate_insert_params(p: &InsertEventParams) -> (r: Result<(), MemoryError>)
    ensures
        reports(r, insert_event_problem(*p)),
{
    validate_non_empty(p.actor_id, "actor_id")?;
    validate_max_len(p.actor_id, MAX_ACTOR_ID_LEN, "actor_id")?;
    validate_non_empty(p.session_id, "session_id")?;
    validate_max_len(p.session_id, MAX_SESSION_ID_LEN, "session_id")?;
    validate_payload(p)?;
    if let Some(role) = p.role {
        if !(str_eq(role, "user") || str_eq(role, "assistant") || str_eq(role, "tool") || str_eq(
            role,
            "system",
        )) {
            return invalid(
                String::from_str("role must be 'user', 'assistant', 'tool', or 'system'"),
            );
        }
    }
    if let Some(content) = p.content {
        if content.as_bytes().len() > MAX_CONTENT_SIZE {
            return invalid(String::from_str("content exceeds maximum size of 1048576 bytes"));
        }
    }
    if let Some(blob) = p.blob_data {
        if blob.len() > MAX_BLOB_SIZE {
            return invalid(String::from_str("blob_data exceeds maximum size of 10485760 bytes"));
        }
    }
    if let Some(m) = p.metadata {
        validate_json_object(m, "metadata")?;
    }
    if let Some(t) = p.expires_at {
        validate_timestamp_format(t, "expires_at")?;
    }
    Ok(())
}

// --- reading events ---

pub open spec fn get_events_problem(p: GetEventsParams) -> Option<Seq<char>> {
    first_problem(
        non_empty_problem(p.actor_id@, "actor_id"@),
        first_problem(
            non_empty_problem(p.session_id@, "session_id"@),
            first_problem(
                match p.before {
                    Some(t) => timestamp_problem(t@, "before"@),
                    None => None,
                },
                match p.after {
                    Some(t) => timestamp_problem(t@, "after"@),
                    None => None,
                },
            ),
        ),
    )
}

/// A timeline window with its actor and session present and no time bounds
/// is read; one with an empty actor or session is refused.
pub proof fn law_unbounded_window_accepted(p: GetEventsParams)
    requires
        p.before is None,
        p.after is None,
    ensures
        get_events_problem(p) is None <==> (0 < p.actor_id@.len() && 0 < p.session_id@.len()),
{
}

/// Validates a timeline window: actor and session present, time bounds well formed.
pub fn validate_get_events_params(p: &GetEventsParams) -> (r: Result<(), MemoryError>)
    ensures
        reports(r, get_events_problem(*p)),
{
    validate_non_empty(p.actor_id, "actor_id")?;
    validate_non_empty(p.session_id, "session_id")?;
    if let Some(before) = p.before {
        validate_timestamp_format(before, "before")?;
    }
    if let Some(after) = p.after {
        validate_timestamp_format(after, "after")?;
    }
    Ok(())
}

/// A page size clamped into `1..=MAX_PAGE_LIMIT`.
pub fn clamp_page_limit(limit: u32) -> (r: u32)
    ensures
        r == clamped(limit, 1, MAX_PAGE_LIMIT),
{
    clamp_u32(limit, 1, MAX_PAGE_LIMIT)
}

/// The window `get_events` reads: the request validated, its limit clamped
/// into `1..=MAX_PAGE_LIMIT`, everything else unchanged.
pub fn get_events_request<'a>(p: &GetEventsParams<'a>) -> (r: Result<
    GetEventsParams<'a>,
    MemoryError,
>)
    ensures
        outcome(r, get_events_problem(*p)),
        r matches Ok(q) ==> (q == GetEventsParams { limit: clamped(p.limit, 1, MAX_PAGE_LIMIT), ..*p }),
{
    validate_get_events_params(p)?;
    Ok(GetEventsParams { limit: clamp_page_limit(p.limit), ..*p })
}

/// The check `get_event` makes before reading: the actor must be present.
pub fn get_event_request(actor_id: &str) -> (r: Result<(), MemoryError>)
    ensures
        reports(r, non_empty_problem(actor_id@, "actor_id"@)),
{
    validate_non_empty(actor_id, "actor_id")
}

/// The page size `list_sessions` reads with: the actor must be present; the
/// limit is clamped into `1..=MAX_PAGE_LIMIT`.
pub fn list_sessions_request(actor_id: &str, limit: u32) -> (r: Result<u32, MemoryError>)
    ensures
        outcome(r, non_empty_problem(actor_id@, "actor_id"@)),
        r matches Ok(l) ==> l == clamped(limit, 1, MAX_PAGE_LIMIT),
{
    validate_non_empty(actor_id, "actor_id")?;
    Ok(clamp_page_limit(limit))
}

} // verus!
