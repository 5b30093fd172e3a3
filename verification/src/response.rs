//! The response interpreter: from the status of a response, and from its
//! body where the status calls for it, to the outcome of the send.

use vstd::prelude::*;

use crate::types::{ErrorResult, ErrorResultView, RawResponse, StatusCode, TelegramErrorResult};

verus! {

/// The one status with which the backend reports that it took the message.
pub const STATUS_OK: u16 = 200;

/// Whether a response of the given status reports success. No status but
/// 200 does, and none is told from another beyond that.
pub open spec fn is_success(status: u16) -> bool {
    status == STATUS_OK
}

/// Tell whether a response of the given status reports success. Where it
/// does, the body is of no interest; where it does not, the body is to be
/// decoded as the backend's error description.
pub fn is_success_status(status: u16) -> (success: bool)
    ensures
        success == is_success(status),
{
    status == STATUS_OK
}

/// The message for a response that reports failure: the backend's
/// description as it came, or, where the body did not decode as an error
/// description, a fixed text that says so.
pub open spec fn remote_error_text(decoded: Option<TelegramErrorResult>) -> Seq<char> {
    match decoded {
        Some(body) => body.description@,
        None => "Error converting telegram error response to json"@,
    }
}

/// The error for a response that reports failure. Its code is that of an
/// internal error whatever the backend's own code was.
pub open spec fn remote_error(decoded: Option<TelegramErrorResult>) -> ErrorResultView {
    ErrorResultView {
        code: StatusCode::ErrorInternalError.value(),
        msg: remote_error_text(decoded),
    }
}

/// Map the decoded body of a response that reports failure to the uniform
/// error; `None` stands for a body that did not decode.
pub fn map_remote_error(decoded: Option<TelegramErrorResult>) -> (error: ErrorResult)
    ensures
        error@ == remote_error(decoded),
{
    let msg = match decoded {
        Some(body) => body.description,
        None => "Error converting telegram error response to json".to_owned(),
    };
    ErrorResult { code: StatusCode::ErrorInternalError.as_u16(), msg }
}

/// The outcome that a response stands for: success for status 200, else the
/// error that its body describes.
pub open spec fn response_outcome(response: RawResponse) -> Result<(), ErrorResultView> {
    if is_success(response.status) {
        Ok(())
    } else {
        Err(remote_error(response.error_body))
    }
}

/// An outcome as a mathematical value.
pub open spec fn outcome_view(outcome: Result<(), ErrorResult>) -> Result<(), ErrorResultView> {
    match outcome {
        Ok(()) => Ok(()),
        Err(error) => Err(error@),
    }
}

/// Interpret a response.
pub fn interpret(response: RawResponse) -> (outcome: Result<(), ErrorResult>)
    ensures
        outcome_view(outcome) == response_outcome(response),
{
    if is_success_status(response.status) {
        Ok(())
    } else {
        Err(map_remote_error(response.error_body))
    }
}

/// A response of status 200 is a success, whatever the rest of it holds.
pub proof fn lemma_success_whatever_the_body(response: RawResponse)
    requires
        response.status == 200,
    ensures
        response_outcome(response) is Ok,
{
}

} // verus!
