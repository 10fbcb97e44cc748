use vstd::prelude::*;

verus! {

/// Declares serde_json's parsed value to the verifier as an opaque type.
#[verifier::external_type_specification]
#[verifier::external_body]
pub struct ExJsonValue(serde_json::Value);

/// The structure of a JSON document: the kind of each value, array items in
/// order, and the members of each object by key.
#[derive(Debug)]
pub enum JsonShape {
    Null,
    Bool,
    Number,
    Text,
    Array(Vec<JsonShape>),
    Object(Vec<(String, JsonShape)>),
}

/// What `serde_json::from_str::<serde_json::Value>` makes of a text: the shape
/// of the parsed document, or `None` where the text is not valid JSON.
pub uninterp spec fn json_shape(text: Seq<char>) -> Option<JsonShape>;

/// Length in bytes of `serde_json::to_string` applied to the value that
/// `serde_json::from_str` parses from the text (its compact re-serialization).
pub uninterp spec fn json_compact_len(text: Seq<char>) -> nat;

/// Parses `text` with `serde_json::from_str::<serde_json::Value>` and returns
/// the shape of the result; the contract only ties the result to the named
/// parse of the text.
#[verifier::external_body]
pub(crate) fn parse_json_shape(text: &str) -> (r: Option<JsonShape>)
    ensures
        r == json_shape(text@),
{
    serde_json::from_str::<serde_json::Value>(text).ok().map(|v| shape_of_value(&v))
}

/// Node-by-node conversion of a parsed serde_json value into its shape; the
/// conversion half of `parse_json_shape`, which is its only caller.
#[verifier::external_body]
fn shape_of_value(v: &serde_json::Value) -> JsonShape {
    match v {
        serde_json::Value::Null => JsonShape::Null,
        serde_json::Value::Bool(_) => JsonShape::Bool,
        serde_json::Value::Number(_) => JsonShape::Number,
        serde_json::Value::String(_) => JsonShape::Text,
        serde_json::Value::Array(a) => JsonShape::Array(a.iter().map(shape_of_value).collect()),
        serde_json::Value::Object(m) => JsonShape::Object(
            m.iter().map(|(k, x)| (k.clone(), shape_of_value(x))).collect(),
        ),
    }
}

/// Serializes the value parsed from `text` with `serde_json::to_string` and
/// returns the byte length; the contract only ties it to the named length.
#[verifier::external_body]
pub(crate) fn compact_json_len(text: &str) -> (r: usize)
    requires
        json_shape(text@) is Some,
    ensures
        r as nat == json_compact_len(text@),
{
    serde_json::from_str::<serde_json::Value>(text).ok().and_then(|v| serde_json::to_string(&v).ok()).map(|s| s.len()).unwrap_or(0)
}

pub open spec fn max_nat(a: nat, b: nat) -> nat {
    if a >= b {
        a
    } else {
        b
    }
}

/// Nesting depth: 0 for a scalar, one more than the deepest member for an
/// array or object (0 members count as depth 0).
pub open spec fn shape_depth(v: JsonShape) -> nat
    decreases v,
{
    match v {
        JsonShape::Array(items) => 1 + items_depth(items@),
        JsonShape::Object(members) => 1 + members_depth(members@),
        _ => 0,
    }
}

pub open spec fn items_depth(s: Seq<JsonShape>) -> nat
    decreases s,
{
    if s.len() == 0 {
        0
    } else {
        max_nat(items_depth(s.drop_last()), shape_depth(s.last()))
    }
}

pub open spec fn members_depth(s: Seq<(String, JsonShape)>) -> nat
    decreases s,
{
    if s.len() == 0 {
        0
    } else {
        max_nat(members_depth(s.drop_last()), shape_depth(s.last().1))
    }
}

pub open spec fn saturate(n: nat) -> usize {
    if n <= usize::MAX {
        n as usize
    } else {
        usize::MAX
    }
}

/// Nesting depth of a JSON value, saturated at `usize::MAX`.
#[verifier::loop_isolation(false)]
pub fn json_value_depth(v: &JsonShape) -> (r: usize)
    ensures
        r == saturate(shape_depth(*v)),
    decreases v,
{
    match v {
        JsonShape::Array(items) => {
            let mut m: usize = 0;
            let mut i: usize = 0;
            while i < items.len()
                invariant
                    i <= items@.len(),
                    m == saturate(items_depth(items@.take(i as int))),
                decreases items@.len() - i,
            {
                assert(items@.take(i + 1).drop_last() =~= items@.take(i as int));
                assert(decreases_to!(*v => (*v)->Array_0));
                assert(decreases_to!(*items => items@));
                assert(decreases_to!(items@ => items@[i as int]));
                let d = json_value_depth(&items[i]);
                if d > m {
                    m = d;
                }
                i = i + 1;
            }
            assert(items@.take(items@.len() as int) =~= items@);
            if m < usize::MAX {
                m + 1
            } else {
                m
            }
        },
        JsonShape::Object(members) => {
            let mut m: usize = 0;
            let mut i: usize = 0;
            while i < members.len()
                invariant
                    i <= members@.len(),
                    m == saturate(members_depth(members@.take(i as int))),
                decreases members@.len() - i,
            {
                assert(members@.take(i + 1).drop_last() =~= members@.take(i as int));
                assert(decreases_to!(*v => (*v)->Object_0));
                assert(decreases_to!(*members => members@));
                assert(decreases_to!(members@ => members@[i as int]));
                assert(decreases_to!(members@[i as int] => members@[i as int].1));
                let d = json_value_depth(&members[i].1);
                if d > m {
                    m = d;
                }
                i = i + 1;
            }
            assert(members@.take(members@.len() as int) =~= members@);
            if m < usize::MAX {
                m + 1
            } else {
                m
            }
        },
        _ => 0,
    }
}

} // verus!
