use vstd::prelude::*;

use crate::error::MemoryError;
use crate::json::{compact_json_len, json_compact_len, json_shape, json_value_depth, parse_json_shape, shape_depth, JsonShape};
use crate::text::{decimal_digits, decimal_text, utf8_len};

verus! {

/// Largest JSON metadata (or edge properties) accepted, in bytes of its compact form.
pub const MAX_METADATA_SIZE: usize = 65_536;

/// Most top-level keys JSON metadata may have.
pub const MAX_METADATA_KEYS: usize = 50;

/// Deepest nesting JSON metadata may have.
pub const MAX_METADATA_DEPTH: usize = 5;

/// A validation outcome: `Ok` where there is no problem, otherwise the
/// `InvalidInput` error carrying exactly the problem's text.
pub open spec fn reports(r: Result<(), MemoryError>, problem: Option<Seq<char>>) -> bool {
    match problem {
        None => r is Ok,
        Some(m) => r matches Err(MemoryError::InvalidInput(s)) && s@ == m,
    }
}

/// A checked request's outcome: the `InvalidInput` error with the problem's
/// text where there is one, otherwise a success.
pub open spec fn outcome<T>(r: Result<T, MemoryError>, problem: Option<Seq<char>>) -> bool {
    match problem {
        None => r is Ok,
        Some(m) => r matches Err(MemoryError::InvalidInput(s)) && s@ == m,
    }
}

/// `value` clamped into `lo..=hi`.
pub open spec fn clamped(value: u32, lo: u32, hi: u32) -> u32 {
    if value < lo {
        lo
    } else if value > hi {
        hi
    } else {
        value
    }
}

/// Every clamped page size lies within its bounds, and a size already
/// within them is kept as asked.
pub proof fn law_clamped_within_bounds(value: u32, lo: u32, hi: u32)
    requires
        lo <= hi,
    ensures
        lo <= clamped(value, lo, hi) <= hi,
        lo <= value <= hi ==> clamped(value, lo, hi) == value,
{
}

/// Clamps `value` into `lo..=hi` (std's `u32::clamp`, which panics when `lo > hi`).
pub fn clamp_u32(value: u32, lo: u32, hi: u32) -> (r: u32)
    requires
        lo <= hi,
    ensures
        r == clamped(value, lo, hi),
{
    if value < lo {
        lo
    } else if value > hi {
        hi
    } else {
        value
    }
}

pub open spec fn empty_msg(field: Seq<char>) -> Seq<char> {
    field + " must not be empty"@
}

pub open spec fn too_long_msg(field: Seq<char>, max: nat) -> Seq<char> {
    field + " exceeds maximum length of "@ + decimal_digits(max) + " bytes"@
}

pub open spec fn non_empty_problem(value: Seq<char>, field: Seq<char>) -> Option<Seq<char>> {
    if value.len() == 0 {
        Some(empty_msg(field))
    } else {
        None
    }
}

pub open spec fn max_len_problem(value: Seq<char>, max: nat, field: Seq<char>) -> Option<Seq<char>> {
    if utf8_len(value) > max {
        Some(too_long_msg(field, max))
    } else {
        None
    }
}

/// The first problem of a sequence of checks.
pub open spec fn first_problem(a: Option<Seq<char>>, b: Option<Seq<char>>) -> Option<Seq<char>> {
    if a is Some {
        a
    } else {
        b
    }
}

/// An `InvalidInput` error with the given text.
pub fn invalid(msg: String) -> (r: Result<(), MemoryError>)
    ensures
        reports(r, Some(msg@)),
{
    Err(MemoryError::InvalidInput(msg))
}

/// `field` followed by a fixed text.
pub fn field_msg(field: &str, rest: &str) -> (r: String)
    ensures
        r@ == field@ + rest@,
{
    let mut m = String::from_str(field);
    m.append(rest);
    m
}

/// `field`, a fixed text, a number and a fixed text.
pub fn field_num_msg(field: &str, mid: &str, n: usize, rest: &str) -> (r: String)
    ensures
        r@ == field@ + mid@ + decimal_digits(n as nat) + rest@,
{
    let mut m = String::from_str(field);
    m.append(mid);
    let d = decimal_text(n as u64);
    m.append(d.as_str());
    m.append(rest);
    m
}

/// Rejects an empty value.
pub fn validate_non_empty(value: &str, field: &str) -> (r: Result<(), MemoryError>)
    ensures
        reports(r, non_empty_problem(value@, field@)),
{
    if value.is_empty() {
        return invalid(field_msg(field, " must not be empty"));
    }
    Ok(())
}

/// Rejects a value longer than `max` bytes of UTF-8.
pub fn validate_max_len(value: &str, max: usize, field: &str) -> (r: Result<(), MemoryError>)
    ensures
        reports(r, max_len_problem(value@, max as nat, field@)),
{
    if value.as_bytes().len() > max {
        return invalid(field_num_msg(field, " exceeds maximum length of ", max, " bytes"));
    }
    Ok(())
}

/// Problems of a JSON-object text (event metadata, edge properties), in the
/// order they are checked: not a JSON object, too many keys, too deep, too long.
pub open spec fn json_object_problem(text: Seq<char>, field: Seq<char>) -> Option<Seq<char>> {
    match json_shape(text) {
        Some(JsonShape::Object(members)) => if members@.len() > MAX_METADATA_KEYS {
            Some(
                field + " exceeds maximum of "@ + decimal_digits(MAX_METADATA_KEYS as nat)
                    + " keys"@,
            )
        } else if shape_depth(JsonShape::Object(members)) > MAX_METADATA_DEPTH {
            Some(
                field + " exceeds maximum nesting depth of "@ + decimal_digits(
                    MAX_METADATA_DEPTH as nat,
                ),
            )
        } else if json_compact_len(text) > MAX_METADATA_SIZE {
            Some(too_long_msg(field, MAX_METADATA_SIZE as nat))
        } else {
            None
        },
        _ => Some(field + " must be a JSON object"@),
    }
}

/// Validates a JSON-object text: it must parse as a JSON object with at most
/// `MAX_METADATA_KEYS` keys, nesting depth at most `MAX_METADATA_DEPTH`, and a
/// compact serialization of at most `MAX_METADATA_SIZE` bytes.
pub fn validate_json_object(text: &str, field: &str) -> (r: Result<(), MemoryError>)
    ensures
        reports(r, json_object_problem(text@, field@)),
{
    let shape = parse_json_shape(text);
    match shape {
        Some(JsonShape::Object(members)) => {
            if members.len() > MAX_METADATA_KEYS {
                return invalid(
                    field_num_msg(field, " exceeds maximum of ", MAX_METADATA_KEYS, " keys"),
                );
            }
            let whole = JsonShape::Object(members);
            if json_value_depth(&whole) > MAX_METADATA_DEPTH {
                proof {
                    reveal_strlit("");
                }
                return invalid(
                    field_num_msg(field, " exceeds maximum nesting depth of ", MAX_METADATA_DEPTH, ""),
                );
            }
            if compact_json_len(text) > MAX_METADATA_SIZE {
                return invalid(
                    field_num_msg(field, " exceeds maximum length of ", MAX_METADATA_SIZE, " bytes"),
                );
            }
            Ok(())
        },
        _ => invalid(field_msg(field, " must be a JSON object")),
    }
}

} // verus!
