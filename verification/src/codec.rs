use vstd::prelude::*;

use crate::error::MemoryError;

verus! {

/// The text of `base64::engine::general_purpose::STANDARD.encode(bytes)`.
pub uninterp spec fn base64_encoding(bytes: Seq<u8>) -> Seq<char>;

/// What `base64::engine::general_purpose::STANDARD.decode(text)` returns: the
/// decoded bytes, or the text of its `DecodeError`.
pub uninterp spec fn base64_decode_result(text: Seq<char>) -> Result<Seq<u8>, Seq<char>>;

/// A successful decode that yields `bytes`.
pub open spec fn decoded(bytes: Seq<u8>) -> Result<Seq<u8>, Seq<char>> {
    Ok(bytes)
}

/// Calls `STANDARD.encode` (alphabet `A-Z a-z 0-9 + /`, `=` padding).  As the
/// crate's source shows: the text has four characters per started group of
/// three bytes, and `STANDARD.decode` gives the bytes back.  `encode` panics
/// when that length overflows `usize`, which `requires` rules out.
#[verifier::external_body]
fn encode_base64(bytes: &[u8]) -> (r: String)
    requires
        (bytes@.len() + 2) / 3 * 4 <= usize::MAX,
    ensures
        r@ == base64_encoding(bytes@),
        r@.len() == (bytes@.len() + 2) / 3 * 4,
        base64_decode_result(r@) == decoded(bytes@),
{
    base64::Engine::encode(&base64::engine::general_purpose::STANDARD, bytes)
}

/// Calls `STANDARD.decode`, turning its `DecodeError` into the error's text;
/// the contract ties both outcomes to the named result of the text.
#[verifier::external_body]
fn decode_base64(text: &str) -> (r: Result<Vec<u8>, String>)
    ensures
        match (r, base64_decode_result(text@)) {
            (Ok(b), Ok(x)) => b@ == x,
            (Err(e), Err(m)) => e@ == m,
            _ => false,
        },
{
    base64::Engine::decode(&base64::engine::general_purpose::STANDARD, text).map_err(
        |e| e.to_string(),
    )
}

/// Base64 (standard alphabet, padded) text of an event's binary payload,
/// as events carry it in JSON; decoding it gives the payload back.
pub fn encode_blob(bytes: &[u8]) -> (r: String)
    requires
        (bytes@.len() + 2) / 3 * 4 <= usize::MAX,
    ensures
        r@ == base64_encoding(bytes@),
        base64_decode_result(r@) == decoded(bytes@),
{
    encode_base64(bytes)
}

/// The binary payload of a base64 `blob_data` argument; text that is not
/// valid base64 is an `InvalidInput` naming the decoder's complaint.
pub fn decode_blob_data(text: &str) -> (r: Result<Vec<u8>, MemoryError>)
    ensures
        match base64_decode_result(text@) {
            Ok(x) => r matches Ok(b) && b@ == x,
            Err(m) => r matches Err(MemoryError::InvalidInput(s)) && s@
                == "invalid base64 blob_data: "@ + m,
        },
{
    match decode_base64(text) {
        Ok(b) => Ok(b),
        Err(e) => {
            let mut m = String::from_str("invalid base64 blob_data: ");
            m.append(e.as_str());
            Err(MemoryError::InvalidInput(m))
        },
    }
}

} // verus!
