//! The library's error type.

use vstd::prelude::*;

use crate::foreign::canonical_reason;
use crate::foreign::canonical_reason_of;
use crate::text::decimal;
use crate::text::decimal_string;

verus! {

/// An error message as reported by the service in the body of a response.
#[derive(Clone, Debug, PartialEq, Eq)]
pub struct ErrorMessage {
    /// The message.
    pub message: String,
}

impl ErrorMessage {
    /// The message, as the description of this error.
    pub fn to_string(&self) -> (r: String)
        ensures
            r@ == self.message@,
    {
        self.message.clone()
    }
}

/// The body of an HTTP response, kept as raw bytes.
#[derive(Clone, Debug, PartialEq, Eq)]
pub struct HttpBody(pub Vec<u8>);

/// An error type used by this crate.
#[derive(Clone, Debug, PartialEq, Eq)]
pub enum Error {
    /// An HTTP related error, with the HTTP client's description of it.
    Http(String),
    /// We encountered an HTTP status that either represents a failure or
    /// is not supported.
    HttpStatus(u16, HttpBody),
    /// A JSON conversion error, with the decoder's description of it.
    Json(String),
    /// An error directly originating in this library.
    Str(String),
    /// A URL parsing error, with the parser's description of it.
    Url(String),
    /// A WebSocket error, with the transport's description of it.
    WebSocket(String),
}

/// A status code as text: its number and its reason phrase.
pub open spec fn status_text(code: u16) -> Seq<char> {
    decimal(code as nat) + " "@ + match canonical_reason_of(code) {
        Some(reason) => reason,
        None => "<unknown status code>"@,
    }
}

/// The description of an error: fixed for each kind, but for `Str`,
/// whose description is its own text, and `HttpStatus`, which names the
/// status.
pub open spec fn error_text(e: Error) -> Seq<char> {
    match e {
        Error::Http(_) => "encountered an HTTP related error"@,
        Error::HttpStatus(code, _) => "encountered an unexpected HTTP status: "@ + status_text(code),
        Error::Json(_) => "a JSON conversion failed"@,
        Error::Str(s) => s@,
        Error::Url(_) => "failed to parse the URL"@,
        Error::WebSocket(_) => "encountered a websocket related error"@,
    }
}

impl Error {
    /// A human readable description of this error.
    pub fn to_string(&self) -> (r: String)
        ensures
            r@ == error_text(*self),
    {
        match self {
            Error::Http(_) => String::from_str("encountered an HTTP related error"),
            Error::HttpStatus(code, _) => {
                let reason = match canonical_reason(*code) {
                    Some(reason) => reason,
                    None => String::from_str("<unknown status code>"),
                };
                let r = String::from_str("encountered an unexpected HTTP status: ").concat(
                    decimal_string(*code as u64).as_str(),
                ).concat(" ").concat(reason.as_str());
                assert(r@ =~= error_text(*self));
                r
            },
            Error::Json(_) => String::from_str("a JSON conversion failed"),
            Error::Str(s) => s.clone(),
            Error::Url(_) => String::from_str("failed to parse the URL"),
            Error::WebSocket(_) => String::from_str("encountered a websocket related error"),
        }
    }
}

} // verus!
