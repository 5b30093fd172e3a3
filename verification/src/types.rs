//! The data that a send works on, and the mathematical view of each value
//! that the contracts of this crate speak of.

use vstd::prelude::*;

verus! {

/// Requests are sent on behalf of a bot instance: the bot's token and the
/// chat that receives its messages. A caller that talks to several bots holds
/// several instances.
///
/// Nothing changes an instance after it was made, so one instance may serve
/// any number of sends.
#[derive(Clone, Debug, PartialEq, Eq)]
pub struct BotInstance {
    /// Token that the backend handed out for the bot.
    pub bot_token: String,
    /// Identifier of the chat that messages go to.
    pub chat_id: String,
}

/// The uniform error of every operation of this crate.
#[derive(Clone, Debug, PartialEq, Eq)]
pub struct ErrorResult {
    /// Numeric code, one of the values of [`StatusCode`].
    pub code: u16,
    /// Description of what went wrong, for a human reader.
    pub msg: String,
}

/// An [`ErrorResult`] as a mathematical value.
pub struct ErrorResultView {
    pub code: u16,
    pub msg: Seq<char>,
}

impl View for ErrorResult {
    type V = ErrorResultView;

    open spec fn view(&self) -> ErrorResultView {
        ErrorResultView { code: self.code, msg: self.msg@ }
    }
}

impl ErrorResult {
    /// The text under which the error is displayed: its message, as it is.
    pub fn to_string(&self) -> (text: String)
        ensures
            text@ == self.msg@,
    {
        self.msg.clone()
    }
}

/// The structure in which the backend describes a request that it refused.
#[derive(Clone, Debug, PartialEq, Eq)]
pub struct TelegramErrorResult {
    /// Always `false` in an error description.
    pub ok: bool,
    /// The backend's own error code.
    pub error_code: i32,
    /// The backend's account of the error.
    pub description: String,
}

/// Status code indicating the result of an operation.
#[derive(Clone, Copy, Debug, PartialEq, Eq)]
pub enum StatusCode {
    /// Success.
    Success,
    /// An error in any of the steps of an operation, whether it was found
    /// locally, by the transport, or by the backend.
    ErrorInternalError,
}

impl StatusCode {
    /// The number that stands for the status in [`ErrorResult::code`].
    pub open spec fn value(self) -> u16 {
        match self {
            StatusCode::Success => 0,
            StatusCode::ErrorInternalError => 1,
        }
    }

    /// The number that stands for the status in [`ErrorResult::code`].
    pub fn as_u16(self) -> (code: u16)
        ensures
            code == self.value(),
    {
        match self {
            StatusCode::Success => 0,
            StatusCode::ErrorInternalError => 1,
        }
    }
}

/// Text markup that the backend applies to a message.
#[derive(Clone, Copy, Debug, PartialEq, Eq)]
pub enum SendMessageParseMode {
    /// Markdown, second version.
    MarkdownV2,
    /// HTML.
    HTML,
}

/// Options of one send.
#[derive(Clone, Copy, Debug, PartialEq, Eq)]
pub struct SendMessageOption {
    /// Markup of the message text; `None` sends it as plain text.
    pub parse_mode: Option<SendMessageParseMode>,
}

/// The markup that a send asks for: the one in its options, if it has
/// options and they name one.
pub open spec fn requested_parse_mode(options: Option<SendMessageOption>) -> Option<
    SendMessageParseMode,
> {
    match options {
        Some(option) => option.parse_mode,
        None => None,
    }
}

/// The reasons for which the transport gives up on a request before any
/// response arrived.
#[derive(Clone, Copy, Debug, PartialEq, Eq)]
pub enum TransportErrorKind {
    /// A problem occurred with the local certificate.
    BadClientCertificate,
    /// The server certificate could not be validated.
    BadServerCertificate,
    /// The HTTP client failed to initialize.
    ClientInitialization,
    /// Failed to connect to the server.
    ConnectionFailed,
    /// The response used an unknown, unsupported or malformed encoding.
    InvalidContentEncoding,
    /// Authentication credentials were rejected by the server.
    InvalidCredentials,
    /// The request was invalid and could not be sent.
    InvalidRequest,
    /// An I/O error while sending the request or reading the response.
    Io,
    /// Failed to resolve a host name.
    NameResolution,
    /// The server violated the HTTP protocol beyond recovery.
    ProtocolViolation,
    /// The request body had to be sent again and could not be rewound.
    RequestBodyNotRewindable,
    /// A request or operation took longer than the configured time.
    Timeout,
    /// An error occurred in the secure socket engine.
    TlsEngine,
    /// The number of redirects hit the configured maximum.
    TooManyRedirects,
    /// Any reason that has no variant of its own.
    Unknown,
}

/// A request as the transport is to submit it.
#[derive(Clone, Debug, PartialEq, Eq)]
pub struct OutboundRequest {
    /// HTTP method.
    pub method: String,
    /// Address of the backend's operation.
    pub url: String,
    /// Header fields, each a name and a value, in the order in which they
    /// are to be set.
    pub headers: Vec<(String, String)>,
    /// Body of the request.
    pub body: Vec<u8>,
}

/// An [`OutboundRequest`] as a mathematical value.
pub struct OutboundRequestView {
    pub method: Seq<char>,
    pub url: Seq<char>,
    pub headers: Seq<(Seq<char>, Seq<char>)>,
    pub body: Seq<u8>,
}

impl View for OutboundRequest {
    type V = OutboundRequestView;

    open spec fn view(&self) -> OutboundRequestView {
        OutboundRequestView {
            method: self.method@,
            url: self.url@,
            headers: Seq::new(
                self.headers@.len(),
                |i: int| (self.headers@[i].0@, self.headers@[i].1@),
            ),
            body: self.body@,
        }
    }
}

/// Why no request could be built. Each variant carries the diagnostic text
/// of the step that failed.
#[derive(Clone, Debug, PartialEq, Eq)]
pub enum BuildError {
    /// The address made from the bot's token is not a well-formed URL.
    UrlInvalid(String),
    /// The payload could not be encoded.
    SerializationFailed(String),
    /// The HTTP layer did not accept the parts of the request.
    RequestInvalid(String),
}

/// A [`BuildError`] as a mathematical value.
pub enum BuildErrorView {
    UrlInvalid(Seq<char>),
    SerializationFailed(Seq<char>),
    RequestInvalid(Seq<char>),
}

impl View for BuildError {
    type V = BuildErrorView;

    open spec fn view(&self) -> BuildErrorView {
        match self {
            BuildError::UrlInvalid(detail) => BuildErrorView::UrlInvalid(detail@),
            BuildError::SerializationFailed(detail) => BuildErrorView::SerializationFailed(
                detail@,
            ),
            BuildError::RequestInvalid(detail) => BuildErrorView::RequestInvalid(detail@),
        }
    }
}

/// The result of building a request as a mathematical value.
pub open spec fn build_view(built: Result<OutboundRequest, BuildError>) -> Result<
    OutboundRequestView,
    BuildErrorView,
> {
    match built {
        Ok(request) => Ok(request@),
        Err(error) => Err(error@),
    }
}

/// A text, or the text that says why there is none, as a mathematical value.
pub open spec fn text_view(outcome: Result<String, String>) -> Result<Seq<char>, Seq<char>> {
    match outcome {
        Ok(text) => Ok(text@),
        Err(why) => Err(why@),
    }
}

/// What the transport hands over of a response: the status, and the body as
/// far as the interpreter asks for it.
#[derive(Clone, Debug, PartialEq, Eq)]
pub struct RawResponse {
    /// HTTP status code.
    pub status: u16,
    /// The body decoded as the backend's error description, or `None` where
    /// it does not decode as one. It is read only if the status is not that
    /// of success.
    pub error_body: Option<TelegramErrorResult>,
}

/// How the submission of a request ended.
#[derive(Clone, Debug, PartialEq, Eq)]
pub enum TransportReply {
    /// The transport gave up, for the given reason.
    Failed(TransportErrorKind),
    /// The backend answered.
    Responded(RawResponse),
}

} // verus!
