use vstd::prelude::*;

use crate::codec::{base64_decode_result, decode_blob_data};
use crate::error::{error_text, MemoryError};
use crate::events::{
    is_known_role, opt_view, BranchFilter, GetEventsParams, InsertEventParams, DEFAULT_PAGE_LIMIT,
};
use crate::graph::{
    Direction, InsertEdgeParams, UpdateEdgeParams, DEFAULT_NEIGHBOR_LIMIT, DEFAULT_TRAVERSE_DEPTH,
};
use crate::memories::{ConsolidateAction, EmbeddingInfo, ListMemoriesParams};
use crate::namespaces::{CreateNamespaceParams, ListNamespacesParams};
use crate::search::opt_string_view;
use crate::sessions::{
    InsertBranchParams, InsertCheckpointParams, ListBranchesParams, ListCheckpointsParams,
    DEFAULT_CHECKPOINT_LIMIT,
};
use crate::text::str_eq;

verus! {

/// Usage guide sent verbatim to the client on every connection.
pub const SERVER_INSTRUCTIONS: &'static str = "\
local-memory-mcp gives you three layers of persistent, queryable memory:

EVENTS — immutable conversation turns. Use memory.create_event to record each message. \
Use memory.list_events to retrieve a session's history. Use memory.get_event to fetch one by ID.

MEMORIES — long-term records extracted from events. Use memory.create_memory_record to save an \
insight or preference. Use memory.retrieve_memory_records to search by keyword or semantic \
similarity. Use memory.list_memory_records to enumerate memories by namespace. \
Use memory.get_memory_record to fetch one by ID.

KNOWLEDGE GRAPH — typed edges between memories. Use graph.create_edge to link two memories. \
Use graph.traverse to walk the graph from a starting memory.

actor_id: Every tool requires actor_id except the store.* tools, which operate globally. \
In single-user deployments, pass a constant like \"default\". In multi-user deployments, use a \
stable per-user identifier (e.g., UUID or opaque per-user token). NEVER share actor_id across \
users — it scopes all data access. The store.* tools (store.switch, store.current, store.list, \
store.delete) do not require actor_id.

namespace: A slash-separated path grouping related memories, e.g. \"/user/alice/preferences\" \
or \"/project/myapp/decisions\". All memories in a namespace are deleted together with \
memory.delete_namespace.

strategy: A free-form label describing how a memory was produced. Suggested values: \
\"summarization\", \"user_preference\", \"semantic\", \"verbatim\", \"extraction\".

embedding: The server does NOT compute embeddings. Pass a caller-computed float array \
(384 dims, matching all-MiniLM-L6-v2 or compatible model) to enable vector search; \
omit it to use FTS-only keyword search.

metadata: A JSON object string, e.g. '{\"source\":\"user\",\"confidence\":0.9}'. \
Stored as-is; filter on it via memory.list_memory_records.

Intent guide:
- Record a conversation turn           → memory.create_event
- Save an extracted insight            → memory.create_memory_record
- Search memories by keyword or meaning→ memory.retrieve_memory_records
- Enumerate memories by namespace      → memory.list_memory_records
- Fetch one memory by ID               → memory.get_memory_record
- Link two memories in graph           → graph.create_edge
- Walk the knowledge graph             → graph.traverse";


// --- MCP-facing enums ---

/// The kind of an event, as tool arguments name it.
#[derive(Debug, Clone, Copy, PartialEq, Eq, Structural)]
pub enum EventType {
    Conversation,
    Blob,
}

/// The author of a conversation event, as tool arguments name it.
#[derive(Debug, Clone, Copy, PartialEq, Eq, Structural)]
pub enum Role {
    User,
    Assistant,
    Tool,
    System,
}

/// What `memory.update_memory_record` does to a record.
#[derive(Debug, Clone, Copy, PartialEq, Eq, Structural)]
pub enum ConsolidateActionType {
    Update,
    Invalidate,
}

pub open spec fn event_type_text(t: EventType) -> Seq<char> {
    match t {
        EventType::Conversation => "conversation"@,
        EventType::Blob => "blob"@,
    }
}

/// The stored name of an event type.
pub fn event_type_name(t: EventType) -> (r: &'static str)
    ensures
        r@ == event_type_text(t),
{
    match t {
        EventType::Conversation => "conversation",
        EventType::Blob => "blob",
    }
}

pub open spec fn role_text(r: Role) -> Seq<char> {
    match r {
        Role::User => "user"@,
        Role::Assistant => "assistant"@,
        Role::Tool => "tool"@,
        Role::System => "system"@,
    }
}

/// The stored name of a role.
pub fn role_name(role: Role) -> (r: &'static str)
    ensures
        r@ == role_text(role),
{
    match role {
        Role::User => "user",
        Role::Assistant => "assistant",
        Role::Tool => "tool",
        Role::System => "system",
    }
}

/// Every role a tool call can name is stored under a name that the event
/// checks accept, and the four names are distinct.
pub proof fn law_tool_roles_are_accepted(r: Role, o: Role)
    ensures
        is_known_role(role_text(r)),
        r != o ==> role_text(r) != role_text(o),
{
    reveal_strlit("user");
    reveal_strlit("assistant");
    reveal_strlit("tool");
    reveal_strlit("system");
    if r != o && role_text(r).len() == role_text(o).len() {
        assert(role_text(r)[0] != role_text(o)[0]);
    }
}

// --- argument helpers ---

/// The default of `valid_only`: superseded records are left out unless asked for.
pub fn default_true() -> (r: bool)
    ensures
        r,
{
    true
}

/// A `branch_filter` argument read as a filter: absent or `all` means every
/// branch, `main` the main timeline only, anything else one branch by id.
pub fn parse_branch_filter<'a>(s: Option<&'a str>) -> (r: BranchFilter<'a>)
    ensures
        match s {
            None => r is All,
            Some(x) => if x@ == "all"@ {
                r is All
            } else if x@ == "main"@ {
                r is MainOnly
            } else {
                r == BranchFilter::Specific(x)
            },
        },
{
    match s {
        None => BranchFilter::All,
        Some(x) => {
            if str_eq(x, "all") {
                BranchFilter::All
            } else if str_eq(x, "main") {
                BranchFilter::MainOnly
            } else {
                BranchFilter::Specific(x)
            }
        },
    }
}

/// The consolidation an `update_memory_record` call asks for: an update
/// needs replacement content (its embedding is optional); an invalidation
/// ignores both.
pub fn parse_consolidate_action<'a>(
    action: &ConsolidateActionType,
    new_content: Option<&'a str>,
    new_embedding: Option<EmbeddingInfo>,
) -> (r: Result<ConsolidateAction<'a>, MemoryError>)
    ensures
        match *action {
            ConsolidateActionType::Update => match new_content {
                Some(c) => r == Ok::<ConsolidateAction<'a>, MemoryError>(
                    ConsolidateAction::Update { content: c, embedding: new_embedding },
                ),
                None => r matches Err(MemoryError::InvalidInput(m)) && m@
                    == "new_content is required for update action"@,
            },
            ConsolidateActionType::Invalidate => r matches Ok(ConsolidateAction::Invalidate),
        },
{
    match action {
        ConsolidateActionType::Update => match new_content {
            Some(content) => Ok(ConsolidateAction::Update { content, embedding: new_embedding }),
            None => Err(
                MemoryError::InvalidInput(
                    String::from_str("new_content is required for update action"),
                ),
            ),
        },
        ConsolidateActionType::Invalidate => Ok(ConsolidateAction::Invalidate),
    }
}

fn as_opt_str(o: &Option<String>) -> (r: Option<&str>)
    ensures
        opt_view(r) == opt_string_view(*o),
{
    match o {
        Some(s) => Some(s.as_str()),
        None => None,
    }
}

fn u32_or(o: Option<u32>, default: u32) -> (r: u32)
    ensures
        r == (match o {
            Some(v) => v,
            None => default,
        }),
{
    match o {
        Some(v) => v,
        None => default,
    }
}

// --- error responses ---

/// A lowercase hexadecimal digit.
pub open spec fn hex_digit(n: nat) -> char {
    if n < 10 {
        (48 + n) as char
    } else {
        (87 + n) as char
    }
}

/// How serde_json writes one character inside a JSON string: `"` and `\`
/// behind a backslash, backspace, form feed, line feed, carriage return and
/// tab as `\b \f \n \r \t`, the other characters below U+0020 as `\u00xx`
/// (lowercase hex), every other character as itself.
pub open spec fn json_escape(c: char) -> Seq<char> {
    let u = c as u32;
    if c == '"' {
        seq!['\\', '"']
    } else if c == '\\' {
        seq!['\\', '\\']
    } else if u == 8 {
        seq!['\\', 'b']
    } else if u == 12 {
        seq!['\\', 'f']
    } else if u == 10 {
        seq!['\\', 'n']
    } else if u == 13 {
        seq!['\\', 'r']
    } else if u == 9 {
        seq!['\\', 't']
    } else if u < 32 {
        seq!['\\', 'u', '0', '0', hex_digit((u / 16) as nat), hex_digit((u % 16) as nat)]
    } else {
        seq![c]
    }
}

/// The characters of a string, each escaped.
pub open spec fn json_escaped(s: Seq<char>) -> Seq<char>
    decreases s.len(),
{
    if s.len() == 0 {
        seq![]
    } else {
        json_escaped(s.drop_last()) + json_escape(s.last())
    }
}

/// The text of `serde_json::to_string` applied to a string: the string as a
/// JSON string literal, in double quotes, its characters escaped.
pub open spec fn json_quoted(s: Seq<char>) -> Seq<char> {
    seq!['"'] + json_escaped(s) + seq!['"']
}

/// A string with no double quote, no backslash and no character below
/// U+0020 is written as a JSON string literal unchanged, between two double
/// quotes.
pub proof fn law_plain_text_quotes_verbatim(s: Seq<char>)
    requires
        forall|i: int|
            0 <= i < s.len() ==> #[trigger] s[i] != '"' && s[i] != '\\' && 0x20 <= (s[i] as u32),
    ensures
        json_escaped(s) == s,
        json_quoted(s) == seq!['"'] + s + seq!['"'],
    decreases s.len(),
{
    if s.len() > 0 {
        let init = s.drop_last();
        assert forall|i: int| 0 <= i < init.len() implies #[trigger] init[i] != '"' && init[i]
            != '\\' && 0x20 <= (init[i] as u32) by {
            assert(init[i] == s[i]);
        }
        law_plain_text_quotes_verbatim(init);
        let c = s.last();
        assert(s[s.len() - 1] == c);
        assert(json_escape(c) == seq![c]);
        assert(init + seq![c] =~= s);
    } else {
        assert(json_escaped(s) =~= s);
    }
}

#[verifier::external_body]
fn quote_json_string(s: &str) -> (r: String)
    ensures
        r@ == json_quoted(s@),
{
    match serde_json::to_string(s) {
        Ok(t) => t,
        Err(_) => String::new(),
    }
}

/// The error code a tool reports for an error: `not_found`, `invalid_input`
/// for rejected arguments (store names and active-store deletion included),
/// `internal` for everything else.
pub open spec fn error_code_text(e: MemoryError) -> Seq<char> {
    match e {
        MemoryError::NotFound(_) => "not_found"@,
        MemoryError::InvalidInput(_) => "invalid_input"@,
        MemoryError::InvalidName(_) => "invalid_input"@,
        MemoryError::ActiveStoreDeletion(_) => "invalid_input"@,
        _ => "internal"@,
    }
}

/// Every failure is answered with one of three codes: a rejected argument
/// (an invalid value or store name, or deleting the active store) with
/// `invalid_input`, a missing record or store with `not_found`, and every
/// other failure with `internal`.
pub proof fn law_three_error_codes(e: MemoryError)
    ensures
        error_code_text(e) == "invalid_input"@ || error_code_text(e) == "not_found"@
            || error_code_text(e) == "internal"@,
        (e is InvalidInput || e is InvalidName || e is ActiveStoreDeletion) ==> error_code_text(e)
            == "invalid_input"@,
        e is NotFound ==> error_code_text(e) == "not_found"@,
{
}

/// The error code of an error.
pub fn error_code(e: &MemoryError) -> (r: &'static str)
    ensures
        r@ == error_code_text(*e),
{
    match e {
        MemoryError::NotFound(_) => "not_found",
        MemoryError::InvalidInput(_) => "invalid_input",
        MemoryError::InvalidName(_) => "invalid_input",
        MemoryError::ActiveStoreDeletion(_) => "invalid_input",
        _ => "internal",
    }
}

/// The JSON body of a failed tool call: `{"code":<code>,"message":<text>}`.
pub open spec fn error_body(e: MemoryError) -> Seq<char> {
    "{\"code\":\""@ + error_code_text(e) + "\",\"message\":"@ + json_quoted(error_text(e)) + "}"@
}

/// The JSON body a tool answers a failure with.
pub fn error_response(e: &MemoryError) -> (r: String)
    ensures
        r@ == error_body(*e),
{
    let msg = e.message();
    let quoted = quote_json_string(msg.as_str());
    let mut r = String::from_str("{\"code\":\"");
    r.append(error_code(e));
    r.append("\",\"message\":");
    r.append(quoted.as_str());
    r.append("}");
    r
}

/// The body answering undecodable `blob_data`: an `invalid_input` code and
/// the decoder's complaint, inserted unescaped.
pub open spec fn blob_error_body(complaint: Seq<char>) -> Seq<char> {
    "{\"code\":\"invalid_input\",\"message\":\""@ + ("invalid base64 blob_data: "@ + complaint)
        + "\"}"@
}

/// The bytes of a `blob_data` argument.  Text that is not base64 is answered
/// at once with an `invalid_input` body carrying the decoder's complaint
/// (unescaped, as the server has always sent it).
pub fn decode_event_blob(blob_data: Option<&str>) -> (r: Result<Option<Vec<u8>>, String>)
    ensures
        match blob_data {
            None => r matches Ok(Option::None),
            Some(t) => match base64_decode_result(t@) {
                Ok(x) => r matches Ok(Some(b)) && b@ == x,
                Err(m) => r matches Err(body) && body@ == blob_error_body(m),
            },
        },
{
    match blob_data {
        None => Ok(None),
        Some(t) => match decode_blob_data(t) {
            Ok(b) => Ok(Some(b)),
            Err(MemoryError::InvalidInput(m)) => {
                let mut body = String::from_str("{\"code\":\"invalid_input\",\"message\":\"");
                body.append(m.as_str());
                body.append("\"}");
                assert(body@ =~= blob_error_body(base64_decode_result(t@)->Err_0));
                Err(body)
            },
            Err(_) => Err(String::new()),
        },
    }
}

// --- tool arguments ---

/// Arguments of `memory.create_event`.
#[derive(Debug, Clone)]
pub struct CreateEventParams {
    pub actor_id: String,
    pub session_id: String,
    pub event_type: EventType,
    pub role: Option<Role>,
    pub content: Option<String>,
    /// Base64 text; required for blob events.
    pub blob_data: Option<String>,
    /// JSON object text.
    pub metadata: Option<String>,
    pub branch_id: Option<String>,
    /// ISO 8601 UTC timestamp.
    pub expires_at: Option<String>,
}

impl CreateEventParams {
    /// The event to append, with the decoded blob bytes.
    pub fn insert_params<'a>(&'a self, blob: Option<&'a [u8]>) -> (r: InsertEventParams<'a>)
        ensures
            r.actor_id@ == self.actor_id@,
            r.session_id@ == self.session_id@,
            r.event_type@ == event_type_text(self.event_type),
            match self.role {
                Some(x) => r.role matches Some(s) && s@ == role_text(x),
                None => r.role is None,
            },
            opt_view(r.content) == opt_string_view(self.content),
            r.blob_data == blob,
            opt_view(r.metadata) == opt_string_view(self.metadata),
            opt_view(r.branch_id) == opt_string_view(self.branch_id),
            opt_view(r.expires_at) == opt_string_view(self.expires_at),
    {
        let role = match self.role {
            Some(x) => Some(role_name(x)),
            None => None,
        };
        InsertEventParams {
            actor_id: self.actor_id.as_str(),
            session_id: self.session_id.as_str(),
            event_type: event_type_name(self.event_type),
            role,
            content: as_opt_str(&self.content),
            blob_data: blob,
            metadata: as_opt_str(&self.metadata),
            branch_id: as_opt_str(&self.branch_id),
            expires_at: as_opt_str(&self.expires_at),
        }
    }
}

/// Arguments of `memory.get_event`.
#[derive(Debug, Clone)]
pub struct GetEventParams {
    pub actor_id: String,
    pub event_id: String,
}

/// Arguments of `memory.list_events`.
#[derive(Debug, Clone)]
pub struct ListEventsParams {
    pub actor_id: String,
    pub session_id: String,
    /// `all` (default), `main`, or a branch id.
    pub branch_filter: Option<String>,
    pub limit: Option<u32>,
    pub offset: Option<u32>,
    pub before: Option<String>,
    pub after: Option<String>,
}

/// A branch filter argument as a view.
pub open spec fn branch_filter_of(s: Option<Seq<char>>) -> (bool, bool, Option<Seq<char>>) {
    match s {
        None => (true, false, None),
        Some(x) => if x == "all"@ {
            (true, false, None)
        } else if x == "main"@ {
            (false, true, None)
        } else {
            (false, false, Some(x))
        },
    }
}

/// A branch filter as a view: (all, main only, the one branch).
pub open spec fn filter_view(f: BranchFilter) -> (bool, bool, Option<Seq<char>>) {
    match f {
        BranchFilter::All => (true, false, None),
        BranchFilter::MainOnly => (false, true, None),
        BranchFilter::Specific(id) => (false, false, Some(id@)),
    }
}

impl ListEventsParams {
    /// The window to read: the filter parsed, 100 events from the start
    /// unless the arguments say otherwise.
    pub fn get_events_params(&self) -> (r: GetEventsParams<'_>)
        ensures
            r.actor_id@ == self.actor_id@,
            r.session_id@ == self.session_id@,
            filter_view(r.branch_id) == branch_filter_of(opt_string_view(self.branch_filter)),
            r.limit == (match self.limit {
                Some(v) => v,
                None => 100u32,
            }),
            r.offset == (match self.offset {
                Some(v) => v,
                None => 0u32,
            }),
            opt_view(r.before) == opt_string_view(self.before),
            opt_view(r.after) == opt_string_view(self.after),
    {
        GetEventsParams {
            actor_id: self.actor_id.as_str(),
            session_id: self.session_id.as_str(),
            branch_id: parse_branch_filter(as_opt_str(&self.branch_filter)),
            limit: u32_or(self.limit, 100),
            offset: u32_or(self.offset, 0),
            before: as_opt_str(&self.before),
            after: as_opt_str(&self.after),
        }
    }
}

/// Arguments of `memory.list_sessions`.
#[derive(Debug, Clone)]
pub struct ListSessionsParams {
    pub actor_id: String,
    pub limit: Option<u32>,
    pub offset: Option<u32>,
}

impl ListSessionsParams {
    /// The page to read: (limit, offset), 100 sessions from the start by default.
    pub fn page(&self) -> (r: (u32, u32))
        ensures
            r.0 == (match self.limit {
                Some(v) => v,
                None => 100u32,
            }),
            r.1 == (match self.offset {
                Some(v) => v,
                None => 0u32,
            }),
    {
        (u32_or(self.limit, 100), u32_or(self.offset, 0))
    }
}

/// Arguments of `memory.get_memory_record`.
#[derive(Debug, Clone)]
pub struct GetMemoryRecordParams {
    pub actor_id: String,
    pub memory_record_id: String,
}

/// Arguments of `memory.list_memory_records`.
#[derive(Debug, Clone)]
pub struct ListMemoryRecordsParams {
    pub actor_id: String,
    pub namespace: Option<String>,
    pub namespace_prefix: Option<String>,
    pub strategy: Option<String>,
    /// `true` by default (see `default_true`).
    pub valid_only: bool,
    pub limit: Option<u32>,
    pub offset: Option<u32>,
}

impl ListMemoryRecordsParams {
    /// The listing filters, 100 records from the start by default.
    pub fn list_params(&self) -> (r: ListMemoriesParams<'_>)
        ensures
            r.actor_id@ == self.actor_id@,
            opt_view(r.namespace) == opt_string_view(self.namespace),
            opt_view(r.namespace_prefix) == opt_string_view(self.namespace_prefix),
            opt_view(r.strategy) == opt_string_view(self.strategy),
            r.valid_only == self.valid_only,
            r.limit == (match self.limit {
                Some(v) => v,
                None => 100u32,
            }),
            r.offset == (match self.offset {
                Some(v) => v,
                None => 0u32,
            }),
    {
        ListMemoriesParams {
            actor_id: self.actor_id.as_str(),
            namespace: as_opt_str(&self.namespace),
            namespace_prefix: as_opt_str(&self.namespace_prefix),
            strategy: as_opt_str(&self.strategy),
            valid_only: self.valid_only,
            limit: u32_or(self.limit, 100),
            offset: u32_or(self.offset, 0),
        }
    }
}

/// Arguments of `memory.delete_memory_record`.
#[derive(Debug, Clone)]
pub struct DeleteMemoryRecordParams {
    pub actor_id: String,
    pub memory_record_id: String,
}

/// Arguments of `store.switch`.
#[derive(Debug, Clone)]
pub struct SwitchStoreParams {
    pub name: String,
}

/// Arguments of `store.delete`.
#[derive(Debug, Clone)]
pub struct DeleteStoreParams {
    pub name: String,
}

/// Arguments of `graph.create_edge`.
#[derive(Debug, Clone)]
pub struct CreateEdgeParams {
    pub actor_id: String,
    pub from_memory_record_id: String,
    pub to_memory_record_id: String,
    pub label: String,
    /// JSON object text.
    pub properties: Option<String>,
}

impl CreateEdgeParams {
    /// The edge to create.
    pub fn insert_params(&self) -> (r: InsertEdgeParams<'_>)
        ensures
            r.actor_id@ == self.actor_id@,
            r.from_memory_id@ == self.from_memory_record_id@,
            r.to_memory_id@ == self.to_memory_record_id@,
            r.label@ == self.label@,
            opt_view(r.properties) == opt_string_view(self.properties),
    {
        InsertEdgeParams {
            actor_id: self.actor_id.as_str(),
            from_memory_id: self.from_memory_record_id.as_str(),
            to_memory_id: self.to_memory_record_id.as_str(),
            label: self.label.as_str(),
            properties: as_opt_str(&self.properties),
        }
    }
}

/// Arguments of `graph.get_neighbors`.
#[derive(Debug, Clone)]
pub struct GetNeighborsParams {
    pub actor_id: String,
    pub memory_record_id: String,
    /// `Out` by default.
    pub direction: Option<Direction>,
    pub label: Option<String>,
    pub limit: Option<u32>,
}

impl GetNeighborsParams {
    /// (direction, label, limit) of the lookup: outgoing edges of any label,
    /// `DEFAULT_NEIGHBOR_LIMIT` of them, unless the arguments say otherwise.
    pub fn lookup(&self) -> (r: (Direction, Option<&str>, u32))
        ensures
            r.0 == (match self.direction {
                Some(d) => d,
                None => Direction::Out,
            }),
            opt_view(r.1) == opt_string_view(self.label),
            r.2 == (match self.limit {
                Some(v) => v,
                None => DEFAULT_NEIGHBOR_LIMIT,
            }),
    {
        let direction = match self.direction {
            Some(d) => d,
            None => Direction::default(),
        };
        (direction, as_opt_str(&self.label), u32_or(self.limit, DEFAULT_NEIGHBOR_LIMIT))
    }
}

/// Arguments of `graph.traverse`.
#[derive(Debug, Clone)]
pub struct TraverseParams {
    pub actor_id: String,
    pub start_memory_record_id: String,
    pub max_depth: Option<u32>,
    pub label: Option<String>,
    /// `Out` by default.
    pub direction: Option<Direction>,
}

impl TraverseParams {
    /// (depth, label, direction) of the walk: `DEFAULT_TRAVERSE_DEPTH` hops
    /// along outgoing edges of any label, unless the arguments say otherwise.
    pub fn walk(&self) -> (r: (u32, Option<&str>, Direction))
        ensures
            r.0 == (match self.max_depth {
                Some(v) => v,
                None => DEFAULT_TRAVERSE_DEPTH,
            }),
            opt_view(r.1) == opt_string_view(self.label),
            r.2 == (match self.direction {
                Some(d) => d,
                None => Direction::Out,
            }),
    {
        let direction = match self.direction {
            Some(d) => d,
            None => Direction::default(),
        };
        (u32_or(self.max_depth, DEFAULT_TRAVERSE_DEPTH), as_opt_str(&self.label), direction)
    }
}

/// Arguments of `graph.update_edge`.
#[derive(Debug, Clone)]
pub struct UpdateEdgeToolParams {
    pub actor_id: String,
    pub edge_id: String,
    pub label: Option<String>,
    /// JSON object text.
    pub properties: Option<String>,
}

impl UpdateEdgeToolParams {
    /// The change to apply.
    pub fn update_params(&self) -> (r: UpdateEdgeParams<'_>)
        ensures
            r.actor_id@ == self.actor_id@,
            r.edge_id@ == self.edge_id@,
            opt_view(r.label) == opt_string_view(self.label),
            opt_view(r.properties) == opt_string_view(self.properties),
    {
        UpdateEdgeParams {
            actor_id: self.actor_id.as_str(),
            edge_id: self.edge_id.as_str(),
            label: as_opt_str(&self.label),
            properties: as_opt_str(&self.properties),
        }
    }
}

/// Arguments of `graph.delete_edge`.
#[derive(Debug, Clone)]
pub struct DeleteEdgeParams {
    pub actor_id: String,
    pub edge_id: String,
}

/// Arguments of `graph.list_labels`.
#[derive(Debug, Clone)]
pub struct ListLabelsParams {
    pub actor_id: String,
}

/// Arguments of `graph.get_stats`.
#[derive(Debug, Clone)]
pub struct GetStatsParams {
    pub actor_id: String,
}

/// Arguments of `memory.create_namespace`.
#[derive(Debug, Clone)]
pub struct CreateNamespaceToolParams {
    pub name: String,
    pub description: Option<String>,
}

impl CreateNamespaceToolParams {
    /// The namespace to register.
    pub fn create_params(&self) -> (r: CreateNamespaceParams<'_>)
        ensures
            r.name@ == self.name@,
            opt_view(r.description) == opt_string_view(self.description),
    {
        CreateNamespaceParams { name: self.name.as_str(), description: as_opt_str(&self.description) }
    }
}

/// Arguments of `memory.list_namespaces`.
#[derive(Debug, Clone)]
pub struct ListNamespacesToolParams {
    pub prefix: Option<String>,
    pub limit: Option<u32>,
    pub offset: Option<u32>,
}

impl ListNamespacesToolParams {
    /// The listing: `DEFAULT_PAGE_LIMIT` namespaces from the start by default.
    pub fn list_params(&self) -> (r: ListNamespacesParams<'_>)
        ensures
            opt_view(r.prefix) == opt_string_view(self.prefix),
            r.limit == (match self.limit {
                Some(v) => v,
                None => DEFAULT_PAGE_LIMIT,
            }),
            r.offset == (match self.offset {
                Some(v) => v,
                None => 0u32,
            }),
    {
        ListNamespacesParams {
            prefix: as_opt_str(&self.prefix),
            limit: u32_or(self.limit, DEFAULT_PAGE_LIMIT),
            offset: u32_or(self.offset, 0),
        }
    }
}

/// Arguments of `memory.delete_namespace`.
#[derive(Debug, Clone)]
pub struct DeleteNamespaceToolParams {
    pub actor_id: String,
    pub name: String,
}

/// Arguments of `memory.create_checkpoint`.
#[derive(Debug, Clone)]
pub struct CreateCheckpointParams {
    pub actor_id: String,
    pub session_id: String,
    pub name: String,
    pub event_id: String,
    /// JSON object text.
    pub metadata: Option<String>,
}

impl CreateCheckpointParams {
    /// The checkpoint to create.
    pub fn insert_params(&self) -> (r: InsertCheckpointParams<'_>)
        ensures
            r.actor_id@ == self.actor_id@,
            r.session_id@ == self.session_id@,
            r.name@ == self.name@,
            r.event_id@ == self.event_id@,
            opt_view(r.metadata) == opt_string_view(self.metadata),
    {
        InsertCheckpointParams {
            actor_id: self.actor_id.as_str(),
            session_id: self.session_id.as_str(),
            name: self.name.as_str(),
            event_id: self.event_id.as_str(),
            metadata: as_opt_str(&self.metadata),
        }
    }
}

/// Arguments of `memory.create_branch`.
#[derive(Debug, Clone)]
pub struct CreateBranchParams {
    pub actor_id: String,
    pub session_id: String,
    pub root_event_id: String,
    pub name: Option<String>,
    pub parent_branch_id: Option<String>,
}

impl CreateBranchParams {
    /// The branch to create.
    pub fn insert_params(&self) -> (r: InsertBranchParams<'_>)
        ensures
            r.actor_id@ == self.actor_id@,
            r.session_id@ == self.session_id@,
            r.root_event_id@ == self.root_event_id@,
            opt_view(r.name) == opt_string_view(self.name),
            opt_view(r.parent_branch_id) == opt_string_view(self.parent_branch_id),
    {
        InsertBranchParams {
            actor_id: self.actor_id.as_str(),
            session_id: self.session_id.as_str(),
            root_event_id: self.root_event_id.as_str(),
            name: as_opt_str(&self.name),
            parent_branch_id: as_opt_str(&self.parent_branch_id),
        }
    }
}

/// Arguments of `memory.list_checkpoints`.
#[derive(Debug, Clone)]
pub struct ListCheckpointsToolParams {
    pub actor_id: String,
    pub session_id: String,
    pub limit: Option<u32>,
    pub offset: Option<u32>,
}

impl ListCheckpointsToolParams {
    /// The listing: `DEFAULT_CHECKPOINT_LIMIT` checkpoints from the start by default.
    pub fn list_params(&self) -> (r: ListCheckpointsParams<'_>)
        ensures
            r.actor_id@ == self.actor_id@,
            r.session_id@ == self.session_id@,
            r.limit == (match self.limit {
                Some(v) => v,
                None => DEFAULT_CHECKPOINT_LIMIT,
            }),
            r.offset == (match self.offset {
                Some(v) => v,
                None => 0u32,
            }),
    {
        ListCheckpointsParams {
            actor_id: self.actor_id.as_str(),
            session_id: self.session_id.as_str(),
            limit: u32_or(self.limit, DEFAULT_CHECKPOINT_LIMIT),
            offset: u32_or(self.offset, 0),
        }
    }
}

/// Arguments of `memory.list_branches`.
#[derive(Debug, Clone)]
pub struct ListBranchesToolParams {
    pub actor_id: String,
    pub session_id: String,
    pub limit: Option<u32>,
    pub offset: Option<u32>,
}

impl ListBranchesToolParams {
    /// The listing: `DEFAULT_CHECKPOINT_LIMIT` branches from the start by default.
    pub fn list_params(&self) -> (r: ListBranchesParams<'_>)
        ensures
            r.actor_id@ == self.actor_id@,
            r.session_id@ == self.session_id@,
            r.limit == (match self.limit {
                Some(v) => v,
                None => DEFAULT_CHECKPOINT_LIMIT,
            }),
            r.offset == (match self.offset {
                Some(v) => v,
                None => 0u32,
            }),
    {
        ListBranchesParams {
            actor_id: self.actor_id.as_str(),
            session_id: self.session_id.as_str(),
            limit: u32_or(self.limit, DEFAULT_CHECKPOINT_LIMIT),
            offset: u32_or(self.offset, 0),
        }
    }
}

} // verus!
