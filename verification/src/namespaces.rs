use vstd::prelude::*;

use crate::error::MemoryError;
use crate::events::MAX_PAGE_LIMIT;
use crate::memories::MAX_NAMESPACE_LEN;
use crate::sessions::{is_cc, is_control_char};
use crate::text::{chars_of, string_from_chars, utf8_len};
use crate::validation::{
    clamp_u32, clamped, first_problem, invalid, non_empty_problem, outcome, reports,
    validate_non_empty,
};

verus! {

pub const MAX_DESCRIPTION_LEN: usize = 1_024;

/// Memories deleted per statement when a namespace is emptied.
pub const NAMESPACE_DELETE_CHUNK_SIZE: usize = 500;

/// A registered namespace.
#[derive(Debug, Clone)]
pub struct Namespace {
    pub name: String,
    pub description: Option<String>,
    pub created_at: String,
}

#[derive(Debug, Clone, Copy)]
pub struct CreateNamespaceParams<'a> {
    pub name: &'a str,
    pub description: Option<&'a str>,
}

#[derive(Debug, Clone, Copy)]
pub struct ListNamespacesParams<'a> {
    pub prefix: Option<&'a str>,
    pub limit: u32,
    pub offset: u32,
}

/// The problem of a namespace name: empty, longer than `MAX_NAMESPACE_LEN`
/// UTF-8 bytes, or holding a control character (Unicode category Cc: NUL,
/// the other C0 controls, DEL and the C1 controls U+0080 to U+009F), which
/// could inject into logs and terminals.  Printable Unicode is allowed.
pub open spec fn namespace_name_problem(name: Seq<char>) -> Option<Seq<char>> {
    if name.len() == 0 {
        Some("namespace name must not be empty"@)
    } else if utf8_len(name) > MAX_NAMESPACE_LEN {
        Some("namespace name exceeds maximum length of 512 bytes (UTF-8)"@)
    } else if exists|i: int| 0 <= i < name.len() && is_cc(#[trigger] name[i]) {
        Some("namespace name must not contain control characters or null bytes"@)
    } else {
        None
    }
}

/// Validates a namespace name; memory records and the namespace registry
/// apply the same rules.
pub fn validate_namespace_name(name: &str) -> (r: Result<(), MemoryError>)
    ensures
        reports(r, namespace_name_problem(name@)),
{
    if name.is_empty() {
        return invalid(String::from_str("namespace name must not be empty"));
    }
    if name.as_bytes().len() > MAX_NAMESPACE_LEN {
        return invalid(
            String::from_str("namespace name exceeds maximum length of 512 bytes (UTF-8)"),
        );
    }
    let cs = chars_of(name);
    let mut i: usize = 0;
    while i < cs.len()
        invariant
            cs@ == name@,
            name@.len() > 0,
            utf8_len(name@) <= MAX_NAMESPACE_LEN,
            i <= cs@.len(),
            forall|j: int| 0 <= j < i ==> !is_cc(#[trigger] cs@[j]),
        decreases cs@.len() - i,
    {
        if is_control_char(cs[i]) {
            assert(is_cc(name@[i as int]));
            return invalid(
                String::from_str("namespace name must not contain control characters or null bytes"),
            );
        }
        i = i + 1;
    }
    Ok(())
}

/// A namespace name is accepted exactly when it is not empty, has at most 512
/// UTF-8 bytes, and none of its characters is a code point in
/// U+0000..=U+001F or U+007F..=U+009F: any printable Unicode, spaces and
/// slashes included, is allowed.
pub proof fn law_namespace_name_rules(name: Seq<char>)
    ensures
        namespace_name_problem(name) is None <==> (0 < name.len() && utf8_len(name) <= 512
            && forall|i: int|
            0 <= i < name.len() ==> (0x20 <= (#[trigger] name[i] as u32) < 0x7f || 0x9f < (
            name[i] as u32))),
{
}

pub open spec fn description_problem(d: Seq<char>) -> Option<Seq<char>> {
    if utf8_len(d) > MAX_DESCRIPTION_LEN {
        Some("description exceeds maximum length of 1024 bytes"@)
    } else {
        None
    }
}

/// Rejects a description longer than `MAX_DESCRIPTION_LEN` bytes.
pub fn validate_description(description: &str) -> (r: Result<(), MemoryError>)
    ensures
        reports(r, description_problem(description@)),
{
    if description.as_bytes().len() > MAX_DESCRIPTION_LEN {
        return invalid(String::from_str("description exceeds maximum length of 1024 bytes"));
    }
    Ok(())
}

pub open spec fn prefix_problem(p: Seq<char>) -> Option<Seq<char>> {
    if p.len() == 0 {
        Some("prefix must not be empty"@)
    } else if utf8_len(p) > MAX_NAMESPACE_LEN {
        Some("prefix exceeds maximum length of 512 bytes"@)
    } else {
        None
    }
}

/// Validates a namespace prefix filter.
pub fn validate_prefix(prefix: &str) -> (r: Result<(), MemoryError>)
    ensures
        reports(r, prefix_problem(prefix@)),
{
    if prefix.is_empty() {
        return invalid(String::from_str("prefix must not be empty"));
    }
    if prefix.as_bytes().len() > MAX_NAMESPACE_LEN {
        return invalid(String::from_str("prefix exceeds maximum length of 512 bytes"));
    }
    Ok(())
}

pub open spec fn create_namespace_problem(p: CreateNamespaceParams) -> Option<Seq<char>> {
    first_problem(
        namespace_name_problem(p.name@),
        match p.description {
            Some(d) => description_problem(d@),
            None => None,
        },
    )
}

/// A namespace is registered when its name passes the name rules and its
/// description, if any, has at most 1024 bytes; a longer description is
/// refused.
pub proof fn law_create_namespace_rules(p: CreateNamespaceParams)
    ensures
        create_namespace_problem(p) is None <==> (namespace_name_problem(p.name@) is None && (
        p.description matches Some(d) ==> utf8_len(d@) <= 1024)),
{
}

/// The checks `create_namespace` makes before registering.
pub fn validate_create_namespace(p: &CreateNamespaceParams) -> (r: Result<(), MemoryError>)
    ensures
        reports(r, create_namespace_problem(*p)),
{
    validate_namespace_name(p.name)?;
    if let Some(d) = p.description {
        validate_description(d)?;
    }
    Ok(())
}

/// The listing `list_namespaces` runs: the prefix validated, the limit
/// clamped into `1..=MAX_PAGE_LIMIT`, everything else unchanged.
pub fn list_namespaces_request<'a>(p: &ListNamespacesParams<'a>) -> (r: Result<
    ListNamespacesParams<'a>,
    MemoryError,
>)
    ensures
        outcome(
            r,
            match p.prefix {
                Some(x) => prefix_problem(x@),
                None => None,
            },
        ),
        r matches Ok(q) ==> (q == ListNamespacesParams {
            limit: clamped(p.limit, 1, MAX_PAGE_LIMIT),
            ..*p
        }),
{
    if let Some(prefix) = p.prefix {
        validate_prefix(prefix)?;
    }
    Ok(ListNamespacesParams { limit: clamp_u32(p.limit, 1, MAX_PAGE_LIMIT), ..*p })
}

pub open spec fn delete_namespace_problem(actor_id: Seq<char>, name: Seq<char>) -> Option<
    Seq<char>,
> {
    first_problem(non_empty_problem(actor_id, "actor_id"@), namespace_name_problem(name))
}

/// The checks `delete_namespace` makes before deleting.
pub fn validate_delete_namespace(actor_id: &str, name: &str) -> (r: Result<(), MemoryError>)
    ensures
        reports(r, delete_namespace_problem(actor_id@, name@)),
{
    validate_non_empty(actor_id, "actor_id")?;
    validate_namespace_name(name)
}

/// A character with a meaning in a SQL `LIKE` pattern: the wildcards `%`
/// and `_`, and the escape character `\\` itself.
pub open spec fn like_special(c: char) -> bool {
    c == '%' || c == '_' || c == '\\'
}

/// `s` with each `LIKE` special character preceded by `\\`, so that a
/// pattern built from it (with `ESCAPE '\\'`) matches `s` literally.
pub open spec fn like_escaped(s: Seq<char>) -> Seq<char>
    decreases s.len(),
{
    if s.len() == 0 {
        seq![]
    } else {
        let c = s.last();
        like_escaped(s.drop_last()) + if like_special(c) {
            seq!['\\', c]
        } else {
            seq![c]
        }
    }
}

/// The `LIKE` pattern (with `ESCAPE '\\'`) of the names that start with
/// `prefix`: the prefix escaped, then `%`.
pub fn like_prefix_pattern(prefix: &str) -> (r: String)
    ensures
        r@ == like_escaped(prefix@).push('%'),
{
    let cs = chars_of(prefix);
    let mut out: Vec<char> = Vec::new();
    let mut i: usize = 0;
    while i < cs.len()
        invariant
            cs@ == prefix@,
            i <= cs@.len(),
            out@ == like_escaped(cs@.take(i as int)),
        decreases cs@.len() - i,
    {
        let c = cs[i];
        assert(cs@.take(i + 1).drop_last() =~= cs@.take(i as int));
        if c == '%' || c == '_' || c == '\\' {
            out.push('\\');
        }
        out.push(c);
        assert(out@ =~= like_escaped(cs@.take(i + 1)));
        i = i + 1;
    }
    assert(cs@.take(cs@.len() as int) =~= cs@);
    out.push('%');
    string_from_chars(&out)
}

} // verus!
