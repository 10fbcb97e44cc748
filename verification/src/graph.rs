use vstd::prelude::*;

use crate::error::MemoryError;
use crate::memories::Memory;
use crate::text::{str_eq, utf8_len};
use crate::validation::{
    clamp_u32, clamped, first_problem, invalid, json_object_problem, max_len_problem,
    non_empty_problem, outcome, reports, validate_json_object, validate_max_len,
    validate_non_empty,
};

verus! {

pub const MAX_LABEL_LEN: usize = 256;

pub const MAX_EDGE_ID_LEN: usize = 256;

pub const MAX_MEMORY_ID_LEN: usize = 256;

pub const MAX_TRAVERSE_DEPTH: u32 = 5;

pub const DEFAULT_TRAVERSE_DEPTH: u32 = 2;

pub const MAX_NEIGHBOR_LIMIT: u32 = 1000;

pub const DEFAULT_NEIGHBOR_LIMIT: u32 = 100;

/// A directed, labeled edge between two memory records.
#[derive(Debug, Clone)]
pub struct Edge {
    pub id: String,
    pub from_memory_id: String,
    pub to_memory_id: String,
    pub label: String,
    /// JSON object text.
    pub properties: Option<String>,
    pub created_at: String,
}

/// A record one hop away, with the edge that reaches it.
#[derive(Debug, Clone)]
pub struct Neighbor {
    pub edge: Edge,
    pub memory: Memory,
}

/// A record reached by a traversal, its depth and the ids on the path to it.
#[derive(Debug, Clone)]
pub struct TraversalNode {
    pub memory: Memory,
    pub depth: u32,
    pub path: Vec<String>,
}

/// Which edges a graph walk follows from a record.
#[derive(Debug, Clone, Copy, PartialEq, Eq)]
pub enum Direction {
    Out,
    In,
    Both,
}

impl Default for Direction {
    fn default() -> (r: Direction)
        ensures
            r == Direction::Out,
    {
        Direction::Out
    }
}

#[derive(Debug, Clone)]
pub struct LabelCount {
    pub label: String,
    pub count: u64,
}

#[derive(Debug, Clone)]
pub struct GraphStats {
    pub total_edges: u64,
    pub labels: Vec<LabelCount>,
    pub most_connected: Vec<ConnectedMemory>,
}

#[derive(Debug, Clone)]
pub struct ConnectedMemory {
    pub memory_id: String,
    pub edge_count: u64,
}

/// An edge to create.
#[derive(Debug, Clone, Copy)]
pub struct InsertEdgeParams<'a> {
    pub actor_id: &'a str,
    pub from_memory_id: &'a str,
    pub to_memory_id: &'a str,
    pub label: &'a str,
    /// JSON object text.
    pub properties: Option<&'a str>,
}

/// A change to an edge's label and/or properties.
#[derive(Debug, Clone, Copy)]
pub struct UpdateEdgeParams<'a> {
    pub actor_id: &'a str,
    pub edge_id: &'a str,
    pub label: Option<&'a str>,
    /// JSON object text.
    pub properties: Option<&'a str>,
}

pub open spec fn present_limited(value: Seq<char>, max: nat, field: Seq<char>) -> Option<Seq<char>> {
    first_problem(non_empty_problem(value, field), max_len_problem(value, max, field))
}

pub open spec fn insert_edge_problem(p: InsertEdgeParams) -> Option<Seq<char>> {
    first_problem(
        non_empty_problem(p.actor_id@, "actor_id"@),
        first_problem(
            present_limited(p.from_memory_id@, MAX_MEMORY_ID_LEN as nat, "from_memory_record_id"@),
            first_problem(
                present_limited(p.to_memory_id@, MAX_MEMORY_ID_LEN as nat, "to_memory_record_id"@),
                first_problem(
                    present_limited(p.label@, MAX_LABEL_LEN as nat, "label"@),
                    first_problem(
                        if p.from_memory_id@ == p.to_memory_id@ {
                            Some("self-edges are not allowed"@)
                        } else {
                            None
                        },
                        match p.properties {
                            Some(t) => json_object_problem(t@, "properties"@),
                            None => None,
                        },
                    ),
                ),
            ),
        ),
    )
}

fn validate_present_limited(value: &str, max: usize, field: &str) -> (r: Result<(), MemoryError>)
    ensures
        reports(r, present_limited(value@, max as nat, field@)),
{
    validate_non_empty(value, field)?;
    validate_max_len(value, max, field)
}

/// Validates an edge to create: ids and label present and within limits, no
/// self-edge, properties (if given) a bounded JSON object.
pub fn validate_insert_edge_params(p: &InsertEdgeParams) -> (r: Result<(), MemoryError>)
    ensures
        reports(r, insert_edge_problem(*p)),
{
    validate_non_empty(p.actor_id, "actor_id")?;
    validate_present_limited(p.from_memory_id, MAX_MEMORY_ID_LEN, "from_memory_record_id")?;
    validate_present_limited(p.to_memory_id, MAX_MEMORY_ID_LEN, "to_memory_record_id")?;
    validate_present_limited(p.label, MAX_LABEL_LEN, "label")?;
    if str_eq(p.from_memory_id, p.to_memory_id) {
        return invalid(String::from_str("self-edges are not allowed"));
    }
    if let Some(t) = p.properties {
        validate_json_object(t, "properties")?;
    }
    Ok(())
}

pub open spec fn update_edge_problem(p: UpdateEdgeParams) -> Option<Seq<char>> {
    first_problem(
        non_empty_problem(p.actor_id@, "actor_id"@),
        first_problem(
            present_limited(p.edge_id@, MAX_EDGE_ID_LEN as nat, "edge_id"@),
            first_problem(
                if p.label is None && p.properties is None {
                    Some("at least one of label or properties must be provided"@)
                } else {
                    None
                },
                first_problem(
                    match p.label {
                        Some(l) => present_limited(l@, MAX_LABEL_LEN as nat, "label"@),
                        None => None,
                    },
                    match p.properties {
                        Some(t) => json_object_problem(t@, "properties"@),
                        None => None,
                    },
                ),
            ),
        ),
    )
}

/// Validates an edge update: at least one of label and properties, each valid.
pub fn validate_update_edge_params(p: &UpdateEdgeParams) -> (r: Result<(), MemoryError>)
    ensures
        reports(r, update_edge_problem(*p)),
{
    validate_non_empty(p.actor_id, "actor_id")?;
    validate_present_limited(p.edge_id, MAX_EDGE_ID_LEN, "edge_id")?;
    if p.label.is_none() && p.properties.is_none() {
        return invalid(
            String::from_str("at least one of label or properties must be provided"),
        );
    }
    if let Some(l) = p.label {
        validate_present_limited(l, MAX_LABEL_LEN, "label")?;
    }
    if let Some(t) = p.properties {
        validate_json_object(t, "properties")?;
    }
    Ok(())
}

/// An edge between two records, each id present and at most 256 bytes,
/// with a label present and at most 256 bytes and no properties, is created
/// exactly when it joins two different records.
pub proof fn law_edge_accepted_iff_not_self(p: InsertEdgeParams)
    requires
        0 < p.actor_id@.len(),
        0 < p.from_memory_id@.len(),
        utf8_len(p.from_memory_id@) <= 256,
        0 < p.to_memory_id@.len(),
        utf8_len(p.to_memory_id@) <= 256,
        0 < p.label@.len(),
        utf8_len(p.label@) <= 256,
        p.properties is None,
    ensures
        insert_edge_problem(p) is None <==> p.from_memory_id@ != p.to_memory_id@,
{
}

/// An update of an edge (actor present, edge id present and at most 256
/// bytes) that changes no properties is accepted exactly when it gives a new
/// label, present and at most 256 bytes.
pub proof fn law_edge_relabel_accepted(p: UpdateEdgeParams)
    requires
        0 < p.actor_id@.len(),
        0 < p.edge_id@.len(),
        utf8_len(p.edge_id@) <= 256,
        p.properties is None,
    ensures
        update_edge_problem(p) is None <==> (p.label matches Some(l) && 0 < l@.len() && utf8_len(
            l@,
        ) <= 256),
{
}

pub open spec fn pair_problem(a: Seq<char>, fa: Seq<char>, b: Seq<char>, fb: Seq<char>) -> Option<
    Seq<char>,
> {
    first_problem(non_empty_problem(a, fa), non_empty_problem(b, fb))
}

/// The neighbor listing `get_neighbors` runs: actor and record present, the
/// limit clamped into `1..=MAX_NEIGHBOR_LIMIT`.
pub fn neighbors_request(actor_id: &str, memory_id: &str, limit: u32) -> (r: Result<
    u32,
    MemoryError,
>)
    ensures
        outcome(r, pair_problem(actor_id@, "actor_id"@, memory_id@, "memory_record_id"@)),
        r matches Ok(l) ==> l == clamped(limit, 1, MAX_NEIGHBOR_LIMIT),
{
    validate_non_empty(actor_id, "actor_id")?;
    validate_non_empty(memory_id, "memory_record_id")?;
    Ok(clamp_u32(limit, 1, MAX_NEIGHBOR_LIMIT))
}

/// The traversal `traverse` runs: actor and start record present, the depth
/// clamped into `1..=MAX_TRAVERSE_DEPTH`.
pub fn traverse_request(actor_id: &str, start_memory_id: &str, max_depth: u32) -> (r: Result<
    u32,
    MemoryError,
>)
    ensures
        outcome(
            r,
            pair_problem(actor_id@, "actor_id"@, start_memory_id@, "start_memory_record_id"@),
        ),
        r matches Ok(d) ==> d == clamped(max_depth, 1, MAX_TRAVERSE_DEPTH),
{
    validate_non_empty(actor_id, "actor_id")?;
    validate_non_empty(start_memory_id, "start_memory_record_id")?;
    Ok(clamp_u32(max_depth, 1, MAX_TRAVERSE_DEPTH))
}

/// The checks `delete_edge` makes: actor and edge id present.
pub fn validate_delete_edge(actor_id: &str, edge_id: &str) -> (r: Result<(), MemoryError>)
    ensures
        reports(r, pair_problem(actor_id@, "actor_id"@, edge_id@, "edge_id"@)),
{
    validate_non_empty(actor_id, "actor_id")?;
    validate_non_empty(edge_id, "edge_id")
}

} // verus!
