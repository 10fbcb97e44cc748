use vstd::prelude::*;

use crate::error::MemoryError;
use crate::events::{MAX_ACTOR_ID_LEN, MAX_SESSION_ID_LEN};
use crate::json::{parse_json_shape, JsonShape};
use crate::memories::is_json_object;
use crate::text::{chars_of, decimal_digits, utf8_len};
use crate::validation::{
    clamp_u32, clamped, field_msg, field_num_msg, first_problem, invalid, max_len_problem, non_empty_problem,
    outcome, reports, validate_max_len, validate_non_empty, MAX_METADATA_SIZE,
};

verus! {

/// Longest checkpoint name, in characters.
pub const MAX_CHECKPOINT_NAME_LEN: usize = 64;

/// Longest branch name, in characters.
pub const MAX_BRANCH_NAME_LEN: usize = 64;

pub const DEFAULT_CHECKPOINT_LIMIT: u32 = 100;

pub const MAX_CHECKPOINT_LIMIT: u32 = 1000;

/// Longest event or branch id accepted: a UUID's 36 characters.
pub const MAX_UUID_LEN: usize = 36;

/// A named snapshot of a session at one event.
#[derive(Debug, Clone)]
pub struct Checkpoint {
    pub id: String,
    pub session_id: String,
    pub actor_id: String,
    pub name: String,
    pub event_id: String,
    pub metadata: Option<String>,
    pub created_at: String,
}

/// A fork of a session's timeline at one event.
#[derive(Debug, Clone)]
pub struct Branch {
    pub id: String,
    pub session_id: String,
    pub name: Option<String>,
    pub parent_branch_id: Option<String>,
    pub root_event_id: String,
    pub created_at: String,
}

#[derive(Debug, Clone, Copy)]
pub struct InsertCheckpointParams<'a> {
    pub actor_id: &'a str,
    pub session_id: &'a str,
    pub name: &'a str,
    pub event_id: &'a str,
    /// JSON object text.
    pub metadata: Option<&'a str>,
}

#[derive(Debug, Clone, Copy)]
pub struct InsertBranchParams<'a> {
    /// The root event must belong to this actor.
    pub actor_id: &'a str,
    pub session_id: &'a str,
    pub root_event_id: &'a str,
    pub name: Option<&'a str>,
    pub parent_branch_id: Option<&'a str>,
}

#[derive(Debug, Clone, Copy)]
pub struct ListCheckpointsParams<'a> {
    pub actor_id: &'a str,
    pub session_id: &'a str,
    pub limit: u32,
    pub offset: u32,
}

#[derive(Debug, Clone, Copy)]
pub struct ListBranchesParams<'a> {
    pub actor_id: &'a str,
    pub session_id: &'a str,
    pub limit: u32,
    pub offset: u32,
}

/// Unicode general category Cc (what std's `char::is_control` tests):
/// U+0000 to U+001F and U+007F to U+009F.
pub open spec fn is_cc(c: char) -> bool {
    (c as u32) <= 0x1f || (0x7f <= (c as u32) && (c as u32) <= 0x9f)
}

/// Whether `c` is a control character (category Cc).
pub fn is_control_char(c: char) -> (r: bool)
    ensures
        r == is_cc(c),
{
    let u = c as u32;
    u <= 0x1f || (0x7f <= u && u <= 0x9f)
}

pub open spec fn control_problem(s: Seq<char>, field: Seq<char>) -> Option<Seq<char>> {
    if exists|i: int| 0 <= i < s.len() && is_cc(#[trigger] s[i]) {
        Some(field + " must not contain control characters"@)
    } else {
        None
    }
}

/// Rejects a value holding a control character.
pub fn validate_no_control_chars(s: &str, field: &str) -> (r: Result<(), MemoryError>)
    ensures
        reports(r, control_problem(s@, field@)),
{
    let cs = chars_of(s);
    let mut i: usize = 0;
    while i < cs.len()
        invariant
            cs@ == s@,
            i <= cs@.len(),
            forall|j: int| 0 <= j < i ==> !is_cc(#[trigger] cs@[j]),
        decreases cs@.len() - i,
    {
        if is_control_char(cs[i]) {
            assert(is_cc(s@[i as int]));
            return invalid(field_msg(field, " must not contain control characters"));
        }
        i = i + 1;
    }
    Ok(())
}

/// The control-character check refuses a value exactly when one of its
/// characters is a code point in U+0000..=U+001F or U+007F..=U+009F; a value
/// of any other characters (the space, letters, punctuation, symbols)
/// passes it.
pub proof fn law_control_check_is_category_cc(s: Seq<char>, field: Seq<char>)
    ensures
        control_problem(s, field) is Some <==> exists|i: int|
            0 <= i < s.len() && ((#[trigger] s[i] as u32) <= 0x1f || (0x7f <= (s[i] as u32)
                && (s[i] as u32) <= 0x9f)),
        control_problem(s, field) is None <==> forall|i: int|
            0 <= i < s.len() ==> (0x20 <= (#[trigger] s[i] as u32) < 0x7f || 0x9f < (
            s[i] as u32)),
{
}

pub open spec fn metadata_object_problem(m: Seq<char>) -> Option<Seq<char>> {
    if is_json_object(m) {
        None
    } else {
        Some("metadata must be a JSON object"@)
    }
}

/// Rejects metadata that is not a JSON object.
pub fn validate_metadata_json(m: &str) -> (r: Result<(), MemoryError>)
    ensures
        reports(r, metadata_object_problem(m@)),
{
    match parse_json_shape(m) {
        Some(JsonShape::Object(_)) => Ok(()),
        _ => invalid(String::from_str("metadata must be a JSON object")),
    }
}

pub open spec fn present_limited(value: Seq<char>, max: nat, field: Seq<char>) -> Option<Seq<char>> {
    first_problem(non_empty_problem(value, field), max_len_problem(value, max, field))
}

/// A name must be present and at most `max` characters long.
pub open spec fn name_problem(value: Seq<char>, max: nat, field: Seq<char>) -> Option<Seq<char>> {
    first_problem(
        non_empty_problem(value, field),
        if value.len() > max {
            Some(field + " exceeds maximum length of "@ + decimal_digits(max) + " characters"@)
        } else {
            None
        },
    )
}

fn validate_name_field(value: &str, max: usize, field: &str) -> (r: Result<(), MemoryError>)
    ensures
        reports(r, name_problem(value@, max as nat, field@)),
{
    validate_non_empty(value, field)?;
    let cs = chars_of(value);
    if cs.len() > max {
        return invalid(field_num_msg(field, " exceeds maximum length of ", max, " characters"));
    }
    Ok(())
}

/// Problems of a checkpoint to create, in the order they are checked; the
/// name is at most `MAX_CHECKPOINT_NAME_LEN` characters.
pub open spec fn checkpoint_problem(p: InsertCheckpointParams) -> Option<Seq<char>> {
    first_problem(
        present_limited(p.actor_id@, MAX_ACTOR_ID_LEN as nat, "actor_id"@),
        first_problem(
            present_limited(p.session_id@, MAX_SESSION_ID_LEN as nat, "session_id"@),
            first_problem(
                name_problem(p.name@, MAX_CHECKPOINT_NAME_LEN as nat, "name"@),
                first_problem(
                    control_problem(p.name@, "name"@),
                    first_problem(
                        present_limited(p.event_id@, MAX_UUID_LEN as nat, "event_id"@),
                        match p.metadata {
                            Some(m) => first_problem(
                                max_len_problem(m@, MAX_METADATA_SIZE as nat, "metadata"@),
                                metadata_object_problem(m@),
                            ),
                            None => None,
                        },
                    ),
                ),
            ),
        ),
    )
}

/// A checkpoint is created when its actor and session ids are present and at
/// most 256 bytes, its event id present and at most 36 bytes, its name of 1 to
/// 64 characters none of which is a control character (spaces and any other
/// printable characters allowed), and it carries no metadata.
pub proof fn law_checkpoint_with_printable_name_accepted(p: InsertCheckpointParams)
    requires
        0 < p.actor_id@.len(),
        utf8_len(p.actor_id@) <= 256,
        0 < p.session_id@.len(),
        utf8_len(p.session_id@) <= 256,
        0 < p.name@.len() <= 64,
        forall|i: int|
            0 <= i < p.name@.len() ==> (0x20 <= (#[trigger] p.name@[i] as u32) < 0x7f || 0x9f < (
            p.name@[i] as u32)),
        0 < p.event_id@.len(),
        utf8_len(p.event_id@) <= 36,
        p.metadata is None,
    ensures
        checkpoint_problem(p) is None,
{
    law_control_check_is_category_cc(p.name@, "name"@);
}

fn validate_present_limited(value: &str, max: usize, field: &str) -> (r: Result<(), MemoryError>)
    ensures
        reports(r, present_limited(value@, max as nat, field@)),
{
    validate_non_empty(value, field)?;
    validate_max_len(value, max, field)
}

/// Validates a checkpoint to create; `Ok` exactly when no check fails, else
/// the first failing check's `InvalidInput`.
pub fn validate_checkpoint_params(p: &InsertCheckpointParams) -> (r: Result<(), MemoryError>)
    ensures
        reports(r, checkpoint_problem(*p)),
{
    validate_present_limited(p.actor_id, MAX_ACTOR_ID_LEN, "actor_id")?;
    validate_present_limited(p.session_id, MAX_SESSION_ID_LEN, "session_id")?;
    validate_name_field(p.name, MAX_CHECKPOINT_NAME_LEN, "name")?;
    validate_no_control_chars(p.name, "name")?;
    validate_present_limited(p.event_id, MAX_UUID_LEN, "event_id")?;
    if let Some(m) = p.metadata {
        validate_max_len(m, MAX_METADATA_SIZE, "metadata")?;
        validate_metadata_json(m)?;
    }
    Ok(())
}

/// Problems of a branch to create, in the order they are checked; a given
/// name is at most `MAX_BRANCH_NAME_LEN` characters.
pub open spec fn branch_problem(p: InsertBranchParams) -> Option<Seq<char>> {
    first_problem(
        present_limited(p.actor_id@, MAX_ACTOR_ID_LEN as nat, "actor_id"@),
        first_problem(
            present_limited(p.session_id@, MAX_SESSION_ID_LEN as nat, "session_id"@),
            first_problem(
                present_limited(p.root_event_id@, MAX_UUID_LEN as nat, "root_event_id"@),
                first_problem(
                    match p.name {
                        Some(n) => first_problem(
                            name_problem(n@, MAX_BRANCH_NAME_LEN as nat, "name"@),
                            control_problem(n@, "name"@),
                        ),
                        None => None,
                    },
                    match p.parent_branch_id {
                        Some(b) => present_limited(b@, MAX_UUID_LEN as nat, "parent_branch_id"@),
                        None => None,
                    },
                ),
            ),
        ),
    )
}

/// A branch is created when its actor and session ids are present and at
/// most 256 bytes, its root event id present and at most 36 bytes, its name
/// (if given) of 1 to 64 characters none of which is a control character,
/// and its parent branch id (if given) present and at most 36 bytes.
pub proof fn law_branch_accepted(p: InsertBranchParams)
    requires
        0 < p.actor_id@.len(),
        utf8_len(p.actor_id@) <= 256,
        0 < p.session_id@.len(),
        utf8_len(p.session_id@) <= 256,
        0 < p.root_event_id@.len(),
        utf8_len(p.root_event_id@) <= 36,
        p.name matches Some(n) ==> 0 < n@.len() <= 64 && forall|i: int|
            0 <= i < n@.len() ==> (0x20 <= (#[trigger] n@[i] as u32) < 0x7f || 0x9f < (
            n@[i] as u32)),
        p.parent_branch_id matches Some(b) ==> 0 < b@.len() && utf8_len(b@) <= 36,
    ensures
        branch_problem(p) is None,
{
    if let Some(n) = p.name {
        law_control_check_is_category_cc(n@, "name"@);
    }
}

/// Validates a branch to create; `Ok` exactly when no check fails, else the
/// first failing check's `InvalidInput`.
pub fn validate_branch_params(p: &InsertBranchParams) -> (r: Result<(), MemoryError>)
    ensures
        reports(r, branch_problem(*p)),
{
    validate_present_limited(p.actor_id, MAX_ACTOR_ID_LEN, "actor_id")?;
    validate_present_limited(p.session_id, MAX_SESSION_ID_LEN, "session_id")?;
    validate_present_limited(p.root_event_id, MAX_UUID_LEN, "root_event_id")?;
    if let Some(name) = p.name {
        validate_name_field(name, MAX_BRANCH_NAME_LEN, "name")?;
        validate_no_control_chars(name, "name")?;
    }
    if let Some(parent) = p.parent_branch_id {
        validate_present_limited(parent, MAX_UUID_LEN, "parent_branch_id")?;
    }
    Ok(())
}

pub open spec fn session_ref_problem(actor_id: Seq<char>, session_id: Seq<char>) -> Option<
    Seq<char>,
> {
    first_problem(
        non_empty_problem(actor_id, "actor_id"@),
        non_empty_problem(session_id, "session_id"@),
    )
}

/// The checkpoint listing `list_checkpoints` runs: actor and session present,
/// the limit clamped into `1..=MAX_CHECKPOINT_LIMIT`.
pub fn list_checkpoints_request<'a>(p: &ListCheckpointsParams<'a>) -> (r: Result<
    ListCheckpointsParams<'a>,
    MemoryError,
>)
    ensures
        outcome(r, session_ref_problem(p.actor_id@, p.session_id@)),
        r matches Ok(q) ==> (q == ListCheckpointsParams {
            limit: clamped(p.limit, 1, MAX_CHECKPOINT_LIMIT),
            ..*p
        }),
{
    validate_non_empty(p.actor_id, "actor_id")?;
    validate_non_empty(p.session_id, "session_id")?;
    Ok(ListCheckpointsParams { limit: clamp_u32(p.limit, 1, MAX_CHECKPOINT_LIMIT), ..*p })
}

/// The branch listing `list_branches` runs: actor and session present, the
/// limit clamped into `1..=MAX_CHECKPOINT_LIMIT`.
pub fn list_branches_request<'a>(p: &ListBranchesParams<'a>) -> (r: Result<
    ListBranchesParams<'a>,
    MemoryError,
>)
    ensures
        outcome(r, session_ref_problem(p.actor_id@, p.session_id@)),
        r matches Ok(q) ==> (q == ListBranchesParams {
            limit: clamped(p.limit, 1, MAX_CHECKPOINT_LIMIT),
            ..*p
        }),
{
    validate_non_empty(p.actor_id, "actor_id")?;
    validate_non_empty(p.session_id, "session_id")?;
    Ok(ListBranchesParams { limit: clamp_u32(p.limit, 1, MAX_CHECKPOINT_LIMIT), ..*p })
}

} // verus!
