//! Descriptions of the reasons for which the HTTP client gives up.

use vstd::prelude::*;

use crate::types::TransportErrorKind;

verus! {

/// The description that belongs to each kind of transport failure. The table
/// is total: a kind without a description of its own reads "Unknown error".
pub open spec fn error_kind_text(kind: TransportErrorKind) -> Seq<char> {
    match kind {
        TransportErrorKind::BadClientCertificate => "A problem occurred with the local certificate"@,
        TransportErrorKind::BadServerCertificate => "The server certificate could not be validated"@,
        TransportErrorKind::ClientInitialization => "The HTTP client failed to initialize"@,
        TransportErrorKind::ConnectionFailed => "Failed to connect to the server"@,
        TransportErrorKind::InvalidContentEncoding => "The server either returned a response using an unknown or unsupported encoding format, or the response encoding was malformed"@,
        TransportErrorKind::InvalidCredentials => "Provided authentication credentials were rejected by the server"@,
        TransportErrorKind::InvalidRequest => "The request to be sent was invalid and could not be sent."@,
        TransportErrorKind::Io => "An I/O error either sending the request or reading the response."@,
        TransportErrorKind::NameResolution => "Failed to resolve a host name"@,
        TransportErrorKind::ProtocolViolation => "The server made an unrecoverable HTTP protocol violation"@,
        TransportErrorKind::RequestBodyNotRewindable => "Not able to rewind the body stream"@,
        TransportErrorKind::Timeout => "A request or operation took longer than the configured timeout time"@,
        TransportErrorKind::TlsEngine => "An error occurred in the secure socket engine"@,
        TransportErrorKind::TooManyRedirects => "Number of redirects hit the maximum configured amount."@,
        TransportErrorKind::Unknown => "Unknown error"@,
    }
}

/// Get the description of a kind of transport failure.
pub fn get_error_str(e: TransportErrorKind) -> (text: &'static str)
    ensures
        text@ == error_kind_text(e),
{
    match e {
        TransportErrorKind::BadClientCertificate => "A problem occurred with the local certificate",
        TransportErrorKind::BadServerCertificate => "The server certificate could not be validated",
        TransportErrorKind::ClientInitialization => "The HTTP client failed to initialize",
        TransportErrorKind::ConnectionFailed => "Failed to connect to the server",
        TransportErrorKind::InvalidContentEncoding => "The server either returned a response using an unknown or unsupported encoding format, or the response encoding was malformed",
        TransportErrorKind::InvalidCredentials => "Provided authentication credentials were rejected by the server",
        TransportErrorKind::InvalidRequest => "The request to be sent was invalid and could not be sent.",
        TransportErrorKind::Io => "An I/O error either sending the request or reading the response.",
        TransportErrorKind::NameResolution => "Failed to resolve a host name",
        TransportErrorKind::ProtocolViolation => "The server made an unrecoverable HTTP protocol violation",
        TransportErrorKind::RequestBodyNotRewindable => "Not able to rewind the body stream",
        TransportErrorKind::Timeout => "A request or operation took longer than the configured timeout time",
        TransportErrorKind::TlsEngine => "An error occurred in the secure socket engine",
        TransportErrorKind::TooManyRedirects => "Number of redirects hit the maximum configured amount.",
        TransportErrorKind::Unknown => "Unknown error",
    }
}

} // verus!
