//! The request builder: from a bot instance, a message and its options to
//! the request that asks the backend to send the message.

use vstd::prelude::*;
use vstd::utf8::encode_utf8;

use crate::address::{parse_url, parsed_url};
use crate::json::{json_string, to_json_string};
use crate::types::{
    BotInstance, BuildError, BuildErrorView, OutboundRequest, OutboundRequestView,
    SendMessageOption, SendMessageParseMode, build_view, requested_parse_mode,
};
use crate::utils::{get_send_message_parse_mode_str, parse_mode_text};

verus! {

/// The address of the backend's operation that sends a message for the bot
/// with the given token, as it is written before any parsing.
pub open spec fn endpoint(token: Seq<char>) -> Seq<char> {
    "https://api.telegram.org/bot"@ + token + "/sendMessage"@
}

/// Write the address of the send operation for the bot with the given token.
pub fn endpoint_address(token: &str) -> (address: String)
    ensures
        address@ == endpoint(token@),
{
    let mut address = "https://api.telegram.org/bot".to_owned();
    address.append(token);
    address.append("/sendMessage");
    address
}

/// One member of a JSON object: its key, bare, and its value as JSON text.
pub struct Member {
    pub key: Seq<char>,
    pub value: Seq<char>,
}

/// The value of the markup member: the mode's spelling as a JSON string.
/// Neither spelling holds a character that JSON escapes.
pub open spec fn parse_mode_value(mode: SendMessageParseMode) -> Seq<char> {
    "\""@ + parse_mode_text(mode) + "\""@
}

/// The members of a payload, in the order in which they are written:
/// `chat_id` and `text`, then `parse_mode` where a mode is given. `chat_id`
/// and `text` are the two values as JSON strings, quotes included.
pub open spec fn payload_members(
    chat_id: Seq<char>,
    text: Seq<char>,
    mode: Option<SendMessageParseMode>,
) -> Seq<Member> {
    let always = seq![
        Member { key: "chat_id"@, value: chat_id },
        Member { key: "text"@, value: text },
    ];
    match mode {
        Some(m) => always.push(Member { key: "parse_mode"@, value: parse_mode_value(m) }),
        None => always,
    }
}

/// A member as JSON text: the key in quotes, a colon, the value. This is the
/// whole of it for the keys of a payload, none of which holds a character
/// that JSON escapes.
pub open spec fn member_text(member: Member) -> Seq<char> {
    "\""@ + member.key + "\":"@ + member.value
}

/// Members as JSON text, with a comma between each two.
pub open spec fn members_text(members: Seq<Member>) -> Seq<char>
    decreases members.len(),
{
    if members.len() == 0 {
        Seq::empty()
    } else if members.len() == 1 {
        member_text(members[0])
    } else {
        members_text(members.drop_last()) + ","@ + member_text(members.last())
    }
}

/// The payload of a request as JSON text: the object of its members, with no
/// white space anywhere.
pub open spec fn payload_text(
    chat_id: Seq<char>,
    text: Seq<char>,
    mode: Option<SendMessageParseMode>,
) -> Seq<char> {
    "{"@ + members_text(payload_members(chat_id, text, mode)) + "}"@
}

/// The markup member as it follows the other two in a payload, comma
/// included; nothing where no mode is given.
pub open spec fn parse_mode_suffix(mode: Option<SendMessageParseMode>) -> Seq<char> {
    match mode {
        Some(m) => ",\"parse_mode\":\""@ + parse_mode_text(m) + "\""@,
        None => Seq::empty(),
    }
}

/// A payload written out from left to right.
pub proof fn lemma_payload_text_flat(
    chat_id: Seq<char>,
    text: Seq<char>,
    mode: Option<SendMessageParseMode>,
)
    ensures
        payload_text(chat_id, text, mode) == "{\"chat_id\":"@ + chat_id + ",\"text\":"@ + text
            + parse_mode_suffix(mode) + "}"@,
{
    reveal_strlit("{");
    reveal_strlit("\"");
    reveal_strlit("\":");
    reveal_strlit(",");
    reveal_strlit("chat_id");
    reveal_strlit("text");
    reveal_strlit("parse_mode");
    reveal_strlit("{\"chat_id\":");
    reveal_strlit(",\"text\":");
    reveal_strlit(",\"parse_mode\":\"");
    let members = payload_members(chat_id, text, mode);
    let two = payload_members(chat_id, text, None);
    assert(two.drop_last() == seq![two[0]]);
    assert(members_text(two.drop_last()) == member_text(two[0]));
    assert(members_text(two) == member_text(two[0]) + ","@ + member_text(two[1]));
    assert("{"@ + members_text(two) == "{\"chat_id\":"@ + chat_id + ",\"text\":"@ + text);
    match mode {
        Some(m) => {
            assert(members.drop_last() == two);
            assert(","@ + member_text(members.last()) == parse_mode_suffix(mode));
            assert(members_text(members) == members_text(two) + parse_mode_suffix(mode));
            assert("{"@ + members_text(members) == "{"@ + members_text(two) + parse_mode_suffix(
                mode,
            ));
        },
        None => {
            assert(members_text(two) + parse_mode_suffix(mode) == members_text(two));
        },
    }
}

/// Frame the payload of a request around the chat identifier and the message
/// text, each given as a JSON string with its quotes.
pub fn frame_payload(chat_id: &str, text: &str, mode: Option<SendMessageParseMode>) -> (payload:
    String)
    ensures
        payload@ == payload_text(chat_id@, text@, mode),
{
    let mut payload = "{\"chat_id\":".to_owned();
    payload.append(chat_id);
    payload.append(",\"text\":");
    payload.append(text);
    let ghost head = payload@;
    match mode {
        Some(m) => {
            payload.append(",\"parse_mode\":\"");
            payload.append(get_send_message_parse_mode_str(m));
            payload.append("\"");
            assert(payload@ == head + parse_mode_suffix(mode));
        },
        None => {
            assert(payload@ == head + parse_mode_suffix(mode));
        },
    }
    payload.append("}");
    proof {
        lemma_payload_text_flat(chat_id@, text@, mode);
    }
    payload
}

/// The request that carries `payload` to `url`: a `POST` that announces JSON
/// and whose body is the payload in UTF-8.
pub open spec fn request_to(url: Seq<char>, payload: Seq<char>) -> OutboundRequestView {
    OutboundRequestView {
        method: "POST"@,
        url,
        headers: seq![("content-type"@, "application/json"@)],
        body: encode_utf8(payload),
    }
}

/// Make the request that carries `payload` to `url`.
pub fn new_request(url: String, payload: &str) -> (request: OutboundRequest)
    ensures
        request@ == request_to(url@, payload@),
{
    let mut headers: Vec<(String, String)> = Vec::new();
    headers.push(("content-type".to_owned(), "application/json".to_owned()));
    let request = OutboundRequest {
        method: "POST".to_owned(),
        url,
        headers,
        body: payload.as_bytes_vec(),
    };
    assert(request@.headers =~= seq![("content-type"@, "application/json"@)]);
    request
}

/// What reading `address` as a URL comes to.
pub open spec fn read_address(address: Seq<char>) -> Result<Seq<char>, BuildErrorView> {
    match parsed_url(address) {
        Ok(url) => Ok(url),
        Err(why) => Err(BuildErrorView::UrlInvalid(why)),
    }
}

/// What writing `text` as a JSON string comes to.
pub open spec fn written_text(text: Seq<char>) -> Result<Seq<char>, BuildErrorView> {
    match json_string(text) {
        Ok(json) => Ok(json),
        Err(why) => Err(BuildErrorView::SerializationFailed(why)),
    }
}

/// A text, or the reason for which a request cannot be built, as a
/// mathematical value.
pub open spec fn step_view(step: Result<String, BuildError>) -> Result<Seq<char>, BuildErrorView> {
    match step {
        Ok(text) => Ok(text@),
        Err(error) => Err(error@),
    }
}

/// Read `address` as an absolute URL and hand it out in the form in which
/// the URL parser writes it back.
///
/// # Errors
/// [`BuildError::UrlInvalid`] with the parser's diagnostic, where the
/// address is no well-formed URL.
pub fn check_address(address: &str) -> (checked: Result<String, BuildError>)
    ensures
        step_view(checked) == read_address(address@),
{
    match parse_url(address) {
        Ok(url) => Ok(url),
        Err(why) => Err(BuildError::UrlInvalid(why)),
    }
}

/// Write `text` as a JSON string, quotes included.
///
/// # Errors
/// [`BuildError::SerializationFailed`] with the writer's diagnostic, where
/// it gives up.
pub fn write_text(text: &str) -> (written: Result<String, BuildError>)
    ensures
        step_view(written) == written_text(text@),
{
    match to_json_string(text) {
        Ok(json) => Ok(json),
        Err(why) => Err(BuildError::SerializationFailed(why)),
    }
}

/// What building a request for the given token, chat and message comes to,
/// over what the URL parser and the JSON writer make of the three. The
/// address is read first, then the chat identifier is written, then the
/// message: the first of the steps that fails decides the error.
pub open spec fn built_request(
    token: Seq<char>,
    chat_id: Seq<char>,
    msg: Seq<char>,
    mode: Option<SendMessageParseMode>,
) -> Result<OutboundRequestView, BuildErrorView> {
    match read_address(endpoint(token)) {
        Err(error) => Err(error),
        Ok(url) => match written_text(chat_id) {
            Err(error) => Err(error),
            Ok(chat_json) => match written_text(msg) {
                Err(error) => Err(error),
                Ok(msg_json) => Ok(request_to(url, payload_text(chat_json, msg_json, mode))),
            },
        },
    }
}

/// Build the request that sends `msg` to the chat of `instance`.
///
/// The message goes into the payload as it is: nothing is escaped for the
/// chosen markup, cut or checked. The URL of the request is the address in
/// the form in which the URL parser wrote it back.
///
/// # Errors
/// [`BuildError::UrlInvalid`] where the address made from the token is no
/// well-formed URL, else [`BuildError::SerializationFailed`] where the chat
/// identifier or the message cannot be written as JSON. Either carries the
/// diagnostic of the step that failed.
pub fn build_request(
    instance: &BotInstance,
    msg: &str,
    options: Option<SendMessageOption>,
) -> (built: Result<OutboundRequest, BuildError>)
    ensures
        build_view(built) == built_request(
            instance.bot_token@,
            instance.chat_id@,
            msg@,
            requested_parse_mode(options),
        ),
{
    let address = endpoint_address(instance.bot_token.as_str());
    let url = match check_address(address.as_str()) {
        Ok(url) => url,
        Err(error) => {
            return Err(error);
        },
    };
    let chat_json = match write_text(instance.chat_id.as_str()) {
        Ok(json) => json,
        Err(error) => {
            return Err(error);
        },
    };
    let msg_json = match write_text(msg) {
        Ok(json) => json,
        Err(error) => {
            return Err(error);
        },
    };
    let mode = match options {
        Some(option) => option.parse_mode,
        None => None,
    };
    let payload = frame_payload(chat_json.as_str(), msg_json.as_str(), mode);
    Ok(new_request(url, payload.as_str()))
}

/// Whether `part` stands somewhere in `whole`, unbroken.
pub open spec fn occurs_in(part: Seq<u8>, whole: Seq<u8>) -> bool {
    exists|at: int|
        0 <= at && at + part.len() <= whole.len() && #[trigger] whole.subrange(
            at,
            at + part.len(),
        ) == part
}

/// The UTF-8 encoding of two texts in a row is the two encodings in a row.
pub proof fn lemma_encode_utf8_concat(first: Seq<char>, second: Seq<char>)
    ensures
        encode_utf8(first + second) == encode_utf8(first) + encode_utf8(second),
    decreases first.len(),
{
    if first.len() == 0 {
        assert(first + second == second);
    } else {
        lemma_encode_utf8_concat(first.drop_first(), second);
        assert((first + second).drop_first() == first.drop_first() + second);
    }
}

/// A request that asks for a markup says so in its payload. The last member
/// of the payload has the key `parse_mode` and the mode's spelling as its
/// value, and the body of the request holds the two as they are written: for
/// MarkdownV2 the bytes of `"parse_mode":"MarkdownV2"`, for HTML those of
/// `"parse_mode":"HTML"`.
pub proof fn lemma_parse_mode_written(
    url: Seq<char>,
    chat_id: Seq<char>,
    text: Seq<char>,
    mode: SendMessageParseMode,
)
    ensures
        payload_members(chat_id, text, Some(mode)).last() == (Member {
            key: "parse_mode"@,
            value: parse_mode_value(mode),
        }),
        occurs_in(
            encode_utf8(member_text(payload_members(chat_id, text, Some(mode)).last())),
            request_to(url, payload_text(chat_id, text, Some(mode))).body,
        ),
        mode == SendMessageParseMode::MarkdownV2 ==> member_text(
            payload_members(chat_id, text, Some(mode)).last(),
        ) == "\"parse_mode\":\"MarkdownV2\""@,
        mode == SendMessageParseMode::HTML ==> member_text(
            payload_members(chat_id, text, Some(mode)).last(),
        ) == "\"parse_mode\":\"HTML\""@,
{
    let members = payload_members(chat_id, text, Some(mode));
    let entry = member_text(members.last());
    let head = "{"@ + members_text(members.drop_last()) + ","@;
    let payload = payload_text(chat_id, text, Some(mode));
    assert(payload == head + entry + "}"@);
    lemma_encode_utf8_concat(head + entry, "}"@);
    lemma_encode_utf8_concat(head, entry);
    let at = encode_utf8(head).len() as int;
    assert(encode_utf8(payload).subrange(at, at + encode_utf8(entry).len()) == encode_utf8(
        entry,
    ));

    reveal_strlit("\"");
    reveal_strlit("\":");
    reveal_strlit("parse_mode");
    reveal_strlit("MarkdownV2");
    reveal_strlit("HTML");
    reveal_strlit("\"parse_mode\":\"MarkdownV2\"");
    reveal_strlit("\"parse_mode\":\"HTML\"");
    if mode == SendMessageParseMode::MarkdownV2 {
        assert(entry == "\"parse_mode\":\"MarkdownV2\""@);
    } else {
        assert(entry == "\"parse_mode\":\"HTML\""@);
    }
}

/// A request that asks for no markup leaves the markup out of its payload:
/// the payload has the two members `chat_id` and `text`, and none of the key
/// `parse_mode`, whatever its value.
pub proof fn lemma_parse_mode_omitted(chat_id: Seq<char>, text: Seq<char>)
    ensures
        payload_members(chat_id, text, None).len() == 2,
        forall|i: int|
            0 <= i < payload_members(chat_id, text, None).len() ==> (#[trigger] payload_members(
                chat_id,
                text,
                None,
            )[i]).key != "parse_mode"@,
        payload_text(chat_id, text, None) == "{\"chat_id\":"@ + chat_id + ",\"text\":"@ + text
            + "}"@,
{
    reveal_strlit("chat_id");
    reveal_strlit("text");
    reveal_strlit("parse_mode");
    assert("chat_id"@.len() != "parse_mode"@.len());
    assert("text"@.len() != "parse_mode"@.len());
    lemma_payload_text_flat(chat_id, text, None);
    assert(payload_text(chat_id, text, None) == "{\"chat_id\":"@ + chat_id + ",\"text\":"@ + text
        + "}"@);
}

} // verus!
