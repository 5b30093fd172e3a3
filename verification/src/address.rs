//! Reading of request addresses, which is the `url` crate's work.

use vstd::prelude::*;

use crate::types::text_view;

verus! {

/// What the `url` crate makes of `input` when it reads it as an absolute
/// URL: the form in which it writes the URL back, or the text of the error
/// with which it refuses the input.
pub uninterp spec fn parsed_url(input: Seq<char>) -> Result<Seq<char>, Seq<char>>;

/// Parses `input` with `url::Url::parse`. Hands out the serialization that
/// the parsed `Url` holds, or the refusing `url::ParseError` as it displays.
///
/// Trusted, not proved: whether the parser accepts an input, the
/// serialization that it arrives at and the error that it refuses with
/// depend on the input alone, so the result is what [`parsed_url`] names for
/// the input. Nothing is claimed of which inputs are accepted, nor of what
/// either text holds.
#[verifier::external_body]
pub(crate) fn parse_url(input: &str) -> (parsed: Result<String, String>)
    ensures
        text_view(parsed) == parsed_url(input@),
{
    match url::Url::parse(input) {
        Ok(url) => Ok(String::from(url)),
        Err(error) => Err(error.to_string()),
    }
}

} // verus!
