//! Helpers that build error values and spell out enumerations.

use vstd::prelude::*;

use crate::isahc_utils::{error_kind_text, get_error_str};
use crate::types::{
    BuildError, BuildErrorView, ErrorResult, ErrorResultView, SendMessageParseMode, StatusCode,
    TransportErrorKind,
};

verus! {

/// Create the failed result that reports a transport failure of the given
/// kind under the given status.
pub fn create_error_result_kind(code: StatusCode, kind: TransportErrorKind) -> (result: Result<
    (),
    ErrorResult,
>)
    ensures
        result matches Err(e) && e@ == (ErrorResultView {
            code: code.value(),
            msg: error_kind_text(kind),
        }),
{
    Err(ErrorResult { code: code.as_u16(), msg: get_error_str(kind).to_owned() })
}

/// Create the failed result that carries the given message under the given
/// status.
pub fn create_error_result_str(code: StatusCode, msg: &str) -> (result: Result<(), ErrorResult>)
    ensures
        result matches Err(e) && e@ == (ErrorResultView { code: code.value(), msg: msg@ }),
{
    Err(ErrorResult { code: code.as_u16(), msg: msg.to_owned() })
}

/// The error that reports a transport failure of the given kind: the
/// description of the kind, under the status of an internal error.
pub open spec fn transport_error(kind: TransportErrorKind) -> ErrorResultView {
    ErrorResultView { code: StatusCode::ErrorInternalError.value(), msg: error_kind_text(kind) }
}

/// Map a transport failure to the uniform error. Every kind has its
/// description, so the mapping never fails.
pub fn map_transport_error(kind: TransportErrorKind) -> (error: ErrorResult)
    ensures
        error@ == transport_error(kind),
{
    ErrorResult {
        code: StatusCode::ErrorInternalError.as_u16(),
        msg: get_error_str(kind).to_owned(),
    }
}

/// The message of a build error: what the failed step was, then the
/// diagnostic that the step gave, as it is.
pub open spec fn build_error_text(error: BuildErrorView) -> Seq<char> {
    match error {
        BuildErrorView::UrlInvalid(why) => "Error parsing Url; err="@ + why,
        BuildErrorView::SerializationFailed(why) =>
            "Error serializing HTTP request object into JSON byte vector; err="@ + why,
        BuildErrorView::RequestInvalid(why) => "Error building HTTP request; err="@ + why,
    }
}

/// The error that reports a request that could not be built: the message of
/// the build error, under the status of an internal error.
pub open spec fn build_error(error: BuildErrorView) -> ErrorResultView {
    ErrorResultView {
        code: StatusCode::ErrorInternalError.value(),
        msg: build_error_text(error),
    }
}

/// Map a build error to the uniform error.
pub fn map_build_error(error: &BuildError) -> (mapped: ErrorResult)
    ensures
        mapped@ == build_error(error@),
{
    let msg = match error {
        BuildError::UrlInvalid(why) => "Error parsing Url; err=".to_owned().concat(why.as_str()),
        BuildError::SerializationFailed(why) =>
            "Error serializing HTTP request object into JSON byte vector; err=".to_owned().concat(
                why.as_str(),
            ),
        BuildError::RequestInvalid(why) => "Error building HTTP request; err=".to_owned().concat(
            why.as_str(),
        ),
    };
    ErrorResult { code: StatusCode::ErrorInternalError.as_u16(), msg }
}

/// The spelling of a parse mode that the backend expects.
pub open spec fn parse_mode_text(mode: SendMessageParseMode) -> Seq<char> {
    match mode {
        SendMessageParseMode::MarkdownV2 => "MarkdownV2"@,
        SendMessageParseMode::HTML => "HTML"@,
    }
}

/// Get the string that stands for the specified parse mode on the wire.
pub fn get_send_message_parse_mode_str(mode: SendMessageParseMode) -> (text: &'static str)
    ensures
        text@ == parse_mode_text(mode),
{
    match mode {
        SendMessageParseMode::MarkdownV2 => "MarkdownV2",
        SendMessageParseMode::HTML => "HTML",
    }
}

} // verus!
