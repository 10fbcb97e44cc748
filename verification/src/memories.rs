use vstd::prelude::*;

use crate::error::MemoryError;
use crate::events::{MAX_ACTOR_ID_LEN, MAX_PAGE_LIMIT};
use crate::json::{json_shape, parse_json_shape, JsonShape};
use crate::namespaces::{namespace_name_problem, validate_namespace_name};
use crate::text::utf8_len;
use crate::validation::{
    clamp_u32, clamped, field_num_msg, first_problem, invalid, max_len_problem,
    non_empty_problem, outcome, reports, validate_max_len, validate_non_empty,
    MAX_METADATA_SIZE,
};

verus! {

/// Largest memory content, in bytes.
pub const MAX_MEMORY_CONTENT_SIZE: usize = 1_048_576;

pub const MAX_NAMESPACE_LEN: usize = 512;

pub const MAX_STRATEGY_LEN: usize = 128;

/// Number of dimensions of a caller-computed embedding.
pub const EMBEDDING_DIM: usize = 384;

/// A long-term memory record.
#[derive(Clone, Debug)]
pub struct Memory {
    pub id: String,
    pub actor_id: String,
    pub namespace: String,
    pub strategy: String,
    pub content: String,
    pub metadata: Option<String>,
    pub source_session_id: Option<String>,
    pub is_valid: bool,
    pub superseded_by: Option<String>,
    pub created_at: String,
    pub updated_at: String,
}

pub fn copy_opt_string(o: &Option<String>) -> (r: Option<String>)
    ensures
        r == *o,
{
    match o {
        Some(s) => Some(s.clone()),
        None => None,
    }
}

impl Memory {
    /// A field-by-field copy of the record.
    pub fn duplicate(&self) -> (r: Memory)
        ensures
            r == *self,
    {
        Memory {
            id: self.id.clone(),
            actor_id: self.actor_id.clone(),
            namespace: self.namespace.clone(),
            strategy: self.strategy.clone(),
            content: self.content.clone(),
            metadata: copy_opt_string(&self.metadata),
            source_session_id: copy_opt_string(&self.source_session_id),
            is_valid: self.is_valid,
            superseded_by: copy_opt_string(&self.superseded_by),
            created_at: self.created_at.clone(),
            updated_at: self.updated_at.clone(),
        }
    }
}

/// What the checks read of a caller-computed embedding vector: its number of
/// dimensions and whether every component is finite (neither NaN nor infinite).
#[derive(Debug, Clone, Copy)]
pub struct EmbeddingInfo {
    pub dims: usize,
    pub all_finite: bool,
}

/// A memory record to store.
#[derive(Debug, Clone, Copy)]
pub struct InsertMemoryParams<'a> {
    pub actor_id: &'a str,
    pub content: &'a str,
    pub strategy: &'a str,
    pub namespace: Option<&'a str>,
    /// JSON object text.
    pub metadata: Option<&'a str>,
    pub source_session_id: Option<&'a str>,
    pub embedding: Option<EmbeddingInfo>,
}

/// How a record is consolidated.
#[derive(Debug, Clone, Copy)]
pub enum ConsolidateAction<'a> {
    /// Replace the content (and optionally the embedding): the old record is
    /// marked invalid and superseded by the new one.
    Update { content: &'a str, embedding: Option<EmbeddingInfo> },
    /// Mark the record invalid, with no replacement.
    Invalidate,
}

/// Filters for listing memory records.
#[derive(Debug, Clone, Copy)]
pub struct ListMemoriesParams<'a> {
    pub actor_id: &'a str,
    pub namespace: Option<&'a str>,
    pub namespace_prefix: Option<&'a str>,
    pub strategy: Option<&'a str>,
    pub valid_only: bool,
    pub limit: u32,
    pub offset: u32,
}

pub open spec fn embedding_problem(e: EmbeddingInfo) -> Option<Seq<char>> {
    if e.dims != EMBEDDING_DIM {
        Some("embedding must have exactly 384 dimensions"@)
    } else if !e.all_finite {
        Some("embedding contains NaN or infinity"@)
    } else {
        None
    }
}

pub open spec fn opt_embedding_problem(e: Option<EmbeddingInfo>) -> Option<Seq<char>> {
    match e {
        Some(x) => embedding_problem(x),
        None => None,
    }
}

/// Rejects an embedding of the wrong dimension or with a non-finite component.
pub fn validate_embedding(e: &EmbeddingInfo) -> (r: Result<(), MemoryError>)
    ensures
        reports(r, embedding_problem(*e)),
{
    if e.dims != EMBEDDING_DIM {
        return invalid(String::from_str("embedding must have exactly 384 dimensions"));
    }
    if !e.all_finite {
        return invalid(String::from_str("embedding contains NaN or infinity"));
    }
    Ok(())
}

pub open spec fn is_json_object(text: Seq<char>) -> bool {
    json_shape(text) matches Some(JsonShape::Object(_))
}

pub open spec fn metadata_text_problem(m: Seq<char>) -> Option<Seq<char>> {
    first_problem(
        max_len_problem(m, MAX_METADATA_SIZE as nat, "metadata"@),
        if is_json_object(m) {
            None
        } else {
            Some("metadata must be a valid JSON object"@)
        },
    )
}

pub open spec fn insert_memory_problem(p: InsertMemoryParams) -> Option<Seq<char>> {
    first_problem(
        non_empty_problem(p.actor_id@, "actor_id"@),
        first_problem(
            max_len_problem(p.actor_id@, MAX_ACTOR_ID_LEN as nat, "actor_id"@),
            first_problem(
                non_empty_problem(p.content@, "content"@),
                first_problem(
                    max_len_problem(p.content@, MAX_MEMORY_CONTENT_SIZE as nat, "content"@),
                    first_problem(
                        non_empty_problem(p.strategy@, "strategy"@),
                        first_problem(
                            max_len_problem(p.strategy@, MAX_STRATEGY_LEN as nat, "strategy"@),
                            first_problem(
                                match p.namespace {
                                    Some(ns) => namespace_name_problem(ns@),
                                    None => None,
                                },
                                first_problem(
                                    match p.metadata {
                                        Some(m) => metadata_text_problem(m@),
                                        None => None,
                                    },
                                    first_problem(
                                        match p.source_session_id {
                                            Some(sid) => non_empty_problem(
                                                sid@,
                                                "source_session_id"@,
                                            ),
                                            None => None,
                                        },
                                        opt_embedding_problem(p.embedding),
                                    ),
                                ),
                            ),
                        ),
                    ),
                ),
            ),
        ),
    )
}

/// Validates a record to store; `Ok` exactly when no check fails, else the
/// first failing check's `InvalidInput`.
pub fn validate_insert_memory_params(p: &InsertMemoryParams) -> (r: Result<(), MemoryError>)
    ensures
        reports(r, insert_memory_problem(*p)),
{
    validate_non_empty(p.actor_id, "actor_id")?;
    validate_max_len(p.actor_id, MAX_ACTOR_ID_LEN, "actor_id")?;
    validate_non_empty(p.content, "content")?;
    validate_max_len(p.content, MAX_MEMORY_CONTENT_SIZE, "content")?;
    validate_non_empty(p.strategy, "strategy")?;
    validate_max_len(p.strategy, MAX_STRATEGY_LEN, "strategy")?;
    if let Some(ns) = p.namespace {
        validate_namespace_name(ns)?;
    }
    if let Some(m) = p.metadata {
        validate_max_len(m, MAX_METADATA_SIZE, "metadata")?;
        match parse_json_shape(m) {
            Some(JsonShape::Object(_)) => {},
            _ => {
                return invalid(String::from_str("metadata must be a valid JSON object"));
            },
        }
    }
    if let Some(sid) = p.source_session_id {
        validate_non_empty(sid, "source_session_id")?;
    }
    if let Some(e) = p.embedding {
        validate_embedding(&e)?;
    }
    Ok(())
}

/// An embedding is refused exactly when it does not have 384 dimensions or
/// has a component that is not finite.
pub proof fn law_embedding_accepted_iff_384_finite(e: EmbeddingInfo)
    ensures
        embedding_problem(e) is None <==> (e.dims == 384 && e.all_finite),
{
}

/// A record whose actor (at most 256 bytes), content (at most 1 MiB) and
/// strategy (at most 128 bytes) are present, with no namespace, metadata or
/// source session, is stored exactly when it has no embedding or an
/// embedding of 384 dimensions, all finite.
pub proof fn law_record_with_valid_embedding_accepted(p: InsertMemoryParams)
    requires
        0 < p.actor_id@.len(),
        utf8_len(p.actor_id@) <= 256,
        0 < p.content@.len(),
        utf8_len(p.content@) <= 1_048_576,
        0 < p.strategy@.len(),
        utf8_len(p.strategy@) <= 128,
        p.namespace is None,
        p.metadata is None,
        p.source_session_id is None,
    ensures
        insert_memory_problem(p) is None <==> (p.embedding matches Some(e) ==> e.dims == 384
            && e.all_finite),
{
}

pub open spec fn list_memories_problem(p: ListMemoriesParams) -> Option<Seq<char>> {
    first_problem(
        non_empty_problem(p.actor_id@, "actor_id"@),
        first_problem(
            if p.namespace is Some && p.namespace_prefix is Some {
                Some("namespace and namespace_prefix are mutually exclusive"@)
            } else {
                None
            },
            first_problem(
                match p.namespace {
                    Some(ns) => non_empty_problem(ns@, "namespace"@),
                    None => None,
                },
                match p.namespace_prefix {
                    Some(x) => non_empty_problem(x@, "namespace_prefix"@),
                    None => None,
                },
            ),
        ),
    )
}

/// A listing is accepted exactly when its actor is present, it does not name
/// both a namespace and a namespace prefix, and the one it names (if any) is
/// not empty.
pub proof fn law_listing_filters(p: ListMemoriesParams)
    ensures
        list_memories_problem(p) is None <==> (0 < p.actor_id@.len() && !(p.namespace is Some
            && p.namespace_prefix is Some) && (p.namespace matches Some(n) ==> 0 < n@.len()) && (
        p.namespace_prefix matches Some(x) ==> 0 < x@.len())),
{
}

/// Validates listing filters: namespace and namespace prefix exclude each other.
pub fn validate_list_memories_params(p: &ListMemoriesParams) -> (r: Result<(), MemoryError>)
    ensures
        reports(r, list_memories_problem(*p)),
{
    validate_non_empty(p.actor_id, "actor_id")?;
    if p.namespace.is_some() && p.namespace_prefix.is_some() {
        return invalid(
            String::from_str("namespace and namespace_prefix are mutually exclusive"),
        );
    }
    if let Some(ns) = p.namespace {
        validate_non_empty(ns, "namespace")?;
    }
    if let Some(prefix) = p.namespace_prefix {
        validate_non_empty(prefix, "namespace_prefix")?;
    }
    Ok(())
}

/// The listing `list_memories` runs: validated, limit clamped into `1..=MAX_PAGE_LIMIT`.
pub fn list_memories_request<'a>(p: &ListMemoriesParams<'a>) -> (r: Result<
    ListMemoriesParams<'a>,
    MemoryError,
>)
    ensures
        outcome(r, list_memories_problem(*p)),
        r matches Ok(q) ==> (q == ListMemoriesParams {
            limit: clamped(p.limit, 1, MAX_PAGE_LIMIT),
            ..*p
        }),
{
    validate_list_memories_params(p)?;
    Ok(ListMemoriesParams { limit: clamp_u32(p.limit, 1, MAX_PAGE_LIMIT), ..*p })
}

pub open spec fn consolidate_problem(action: ConsolidateAction) -> Option<Seq<char>> {
    match action {
        ConsolidateAction::Update { content, embedding } => first_problem(
            non_empty_problem(content@, "content"@),
            first_problem(
                max_len_problem(content@, MAX_MEMORY_CONTENT_SIZE as nat, "content"@),
                opt_embedding_problem(embedding),
            ),
        ),
        ConsolidateAction::Invalidate => None,
    }
}

/// Validates a consolidation: an update needs non-empty content within the
/// size limit and, if given, a valid embedding.
pub fn validate_consolidate_params(action: &ConsolidateAction) -> (r: Result<(), MemoryError>)
    ensures
        reports(r, consolidate_problem(*action)),
{
    if let ConsolidateAction::Update { content, embedding } = action {
        validate_non_empty(content, "content")?;
        validate_max_len(content, MAX_MEMORY_CONTENT_SIZE, "content")?;
        if let Some(e) = embedding {
            validate_embedding(e)?;
        }
    }
    Ok(())
}

/// Invalidating a record always passes the checks; an update passes them
/// exactly when its content is present and at most 1 MiB and its embedding,
/// if any, has 384 dimensions, all finite.
pub proof fn law_consolidation_checks(action: ConsolidateAction)
    ensures
        consolidate_problem(action) is None <==> match action {
            ConsolidateAction::Invalidate => true,
            ConsolidateAction::Update { content, embedding } => 0 < content@.len() && utf8_len(
                content@,
            ) <= 1_048_576 && (embedding matches Some(e) ==> e.dims == 384 && e.all_finite),
        },
{
}

pub open spec fn record_ref_problem(actor_id: Seq<char>, memory_id: Seq<char>) -> Option<
    Seq<char>,
> {
    first_problem(
        non_empty_problem(actor_id, "actor_id"@),
        non_empty_problem(memory_id, "memory_id"@),
    )
}

/// The checks made before reading, consolidating or deleting one record:
/// actor and record id must be present.
pub fn validate_record_ref(actor_id: &str, memory_id: &str) -> (r: Result<(), MemoryError>)
    ensures
        reports(r, record_ref_problem(actor_id@, memory_id@)),
{
    validate_non_empty(actor_id, "actor_id")?;
    validate_non_empty(memory_id, "memory_id")
}

pub open spec fn consolidate_request_problem(
    actor_id: Seq<char>,
    memory_id: Seq<char>,
    action: ConsolidateAction,
) -> Option<Seq<char>> {
    first_problem(record_ref_problem(actor_id, memory_id), consolidate_problem(action))
}

/// The checks `consolidate_memory` makes before touching the store.
pub fn validate_consolidate_request(actor_id: &str, memory_id: &str, action: &ConsolidateAction) -> (r:
    Result<(), MemoryError>)
    ensures
        reports(r, consolidate_request_problem(actor_id@, memory_id@, *action)),
{
    validate_record_ref(actor_id, memory_id)?;
    validate_consolidate_params(action)
}

} // verus!
