//! Client library for sending text messages to one Telegram chat on behalf of
//! one bot.
//!
//! The crate holds the part of a send that computes. A send has two halves
//! with the network between them: [`prepare_send_message`] shapes the request
//! from a bot instance, a message and its options, and
//! [`conclude_send_message`] turns what the transport brought back into the
//! outcome. Every failure, wherever it arose, comes out as one
//! [`types::ErrorResult`]. Submitting the request is left to the caller, who
//! may do so on the calling thread or without blocking it: the outcome is the
//! same.

use vstd::prelude::*;

use crate::request::{build_request, built_request};
use crate::response::{interpret, outcome_view, response_outcome};
use crate::types::{
    BotInstance, ErrorResult, ErrorResultView, OutboundRequest, OutboundRequestView,
    SendMessageOption, SendMessageParseMode, TransportReply, requested_parse_mode,
};
use crate::utils::{build_error, map_build_error, map_transport_error, transport_error};

pub mod address;
pub mod isahc_utils;
pub mod json;
pub mod request;
pub mod response;
pub mod types;
pub mod utils;

verus! {

/// Create an instance to interact with the backend.
///
/// # Arguments
/// * `bot_token` - the bot's token
/// * `chat_id` - the chat to send messages to
pub fn create_instance(bot_token: &str, chat_id: &str) -> (instance: BotInstance)
    ensures
        instance.bot_token@ == bot_token@,
        instance.chat_id@ == chat_id@,
{
    BotInstance { bot_token: bot_token.to_owned(), chat_id: chat_id.to_owned() }
}

/// The request that a send begins with, or the error with which it ends
/// before anything was submitted.
pub open spec fn prepared_send(
    token: Seq<char>,
    chat_id: Seq<char>,
    msg: Seq<char>,
    mode: Option<SendMessageParseMode>,
) -> Result<OutboundRequestView, ErrorResultView> {
    match built_request(token, chat_id, msg, mode) {
        Ok(request) => Ok(request),
        Err(error) => Err(build_error(error)),
    }
}

/// The first half of a send as a mathematical value.
pub open spec fn prepared_view(prepared: Result<OutboundRequest, ErrorResult>) -> Result<
    OutboundRequestView,
    ErrorResultView,
> {
    match prepared {
        Ok(request) => Ok(request@),
        Err(error) => Err(error@),
    }
}

/// Begin a send: build the request that is to be submitted.
///
/// # Arguments
/// * `instance` - the bot and the chat that the message is for
/// * `msg` - message to send
/// * `options` - options for sending the message
///
/// # Errors
/// The error of the send, where no request could be built. Nothing is to be
/// submitted then.
pub fn prepare_send_message(
    instance: &BotInstance,
    msg: &str,
    options: Option<SendMessageOption>,
) -> (prepared: Result<OutboundRequest, ErrorResult>)
    ensures
        prepared_view(prepared) == prepared_send(
            instance.bot_token@,
            instance.chat_id@,
            msg@,
            requested_parse_mode(options),
        ),
{
    match build_request(instance, msg, options) {
        Ok(request) => Ok(request),
        Err(error) => Err(map_build_error(&error)),
    }
}

/// The outcome of a send whose request was submitted, over what the
/// transport brought back.
pub open spec fn send_outcome(reply: TransportReply) -> Result<(), ErrorResultView> {
    match reply {
        TransportReply::Failed(kind) => Err(transport_error(kind)),
        TransportReply::Responded(response) => response_outcome(response),
    }
}

/// Conclude a send: turn what the transport brought back into the outcome.
pub fn conclude_send_message(reply: TransportReply) -> (outcome: Result<(), ErrorResult>)
    ensures
        outcome_view(outcome) == send_outcome(reply),
{
    match reply {
        TransportReply::Failed(kind) => Err(map_transport_error(kind)),
        TransportReply::Responded(response) => interpret(response),
    }
}

/// What a send comes to: the error of its first half where no request could
/// be built, else the outcome of what the transport brought back.
pub open spec fn send_result(
    prepared: Result<OutboundRequestView, ErrorResultView>,
    reply: TransportReply,
) -> Result<(), ErrorResultView> {
    match prepared {
        Ok(_) => send_outcome(reply),
        Err(error) => Err(error),
    }
}

/// Whether two replies show the same answer of the backend: the same status
/// where it answered, and no answer in the one where there is none in the
/// other.
pub open spec fn same_answer(first: TransportReply, second: TransportReply) -> bool {
    match (first, second) {
        (TransportReply::Responded(a), TransportReply::Responded(b)) => a.status == b.status,
        (TransportReply::Failed(_), TransportReply::Failed(_)) => true,
        _ => false,
    }
}

/// A submitted request succeeds exactly when the backend answered it with
/// status 200.
pub proof fn lemma_success_iff_status_ok(reply: TransportReply)
    ensures
        send_outcome(reply) is Ok <==> (reply matches TransportReply::Responded(response)
            && response.status == 200),
{
}

/// A send of a message without options is classified by the backend's answer
/// alone. Let the same message go out twice, once submitted on the calling
/// thread and once without blocking it: where the two replies show the same
/// answer, both sends succeed or both fail.
pub proof fn lemma_modes_classify_alike(
    token: Seq<char>,
    chat_id: Seq<char>,
    msg: Seq<char>,
    blocking: TransportReply,
    non_blocking: TransportReply,
)
    requires
        same_answer(blocking, non_blocking),
    ensures
        send_result(prepared_send(token, chat_id, msg, None), blocking) is Ok <==> send_result(
            prepared_send(token, chat_id, msg, None),
            non_blocking,
        ) is Ok,
{
}

/// Every failure of a send carries the one code of an internal error, from
/// whichever of the steps it comes.
pub proof fn lemma_failures_share_one_code(
    token: Seq<char>,
    chat_id: Seq<char>,
    msg: Seq<char>,
    mode: Option<SendMessageParseMode>,
    reply: TransportReply,
)
    ensures
        prepared_send(token, chat_id, msg, mode) matches Err(error) ==> error.code == 1,
        send_outcome(reply) matches Err(error) ==> error.code == 1,
{
}

} // verus!
