//! Writing of JSON strings, which is the `serde_json` crate's work.

use vstd::prelude::*;

use crate::types::text_view;

verus! {

/// What the `serde_json` crate makes of `text` when it serializes it: the
/// JSON string that it writes, quotes included, or the text of the error
/// with which it gives up.
pub uninterp spec fn json_string(text: Seq<char>) -> Result<Seq<char>, Seq<char>>;

/// Serializes `text` with `serde_json::to_string`. Hands out the JSON, or
/// the `serde_json::Error` as it displays.
///
/// Trusted, not proved: whether the serializer succeeds, the JSON that it
/// writes and the error that it gives up with depend on the text alone, so
/// the result is what [`json_string`] names for the text. Nothing is claimed
/// of when it succeeds, nor of the escapes that it chooses.
#[verifier::external_body]
pub(crate) fn to_json_string(text: &str) -> (written: Result<String, String>)
    ensures
        text_view(written) == json_string(text@),
{
    match serde_json::to_string(text) {
        Ok(json) => Ok(json),
        Err(error) => Err(error.to_string()),
    }
}

} // verus!
