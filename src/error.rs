//! The error taxonomy: transport failures, non-success statuses with the
//! exchange's message, decode failures (of a success body or of an error
//! body), and configuration errors found while building a request.

use vstd::prelude::*;
use crate::decimal::{decimal_of, decimal_text};

verus! {

/// A non-success status together with the message the exchange gave.
pub struct StatusError {
    pub code: u16,
    pub message: String,
}

impl StatusError {
    pub fn new(code: u16, message: String) -> (r: Self)
        ensures
            r.code == code,
            r.message == message,
    {
        StatusError { code, message }
    }
}

/// The payload of an error response: `{"message": ...}`.
pub struct ErrorMessage {
    pub message: String,
}

/// A credential that cannot be used to build a request.
#[derive(Clone, Copy, Debug, PartialEq, Eq, Structural)]
pub enum ConfigError {
    /// The secret is not valid base64.
    SecretNotBase64,
    /// The key holds a character that a header value cannot hold.
    InvalidKey,
    /// The passphrase holds a character that a header value cannot hold.
    InvalidPassphrase,
}

pub enum ErrorKind {
    /// The request could not be sent or its response not read; the
    /// transport's own description.
    HTTP(String),
    /// The exchange answered with a non-success status.
    Status(StatusError),
    /// A success response whose body does not have the expected shape; the
    /// decoder's description.
    JSON(String),
    /// A failure response whose body is not an error payload; the decoder's
    /// description.
    ErrorPayload(String),
    /// The client's credentials cannot make a request.
    Config(ConfigError),
}

pub struct Error {
    kind: ErrorKind,
}

pub open spec fn kind_description(kind: ErrorKind) -> Seq<char> {
    match kind {
        ErrorKind::HTTP(_) => "http error"@,
        ErrorKind::Status(s) => "status error "@ + decimal_of(s.code as nat) + ": "@ + s.message@,
        ErrorKind::JSON(_) => "json error"@,
        ErrorKind::ErrorPayload(_) => "json error in error response"@,
        ErrorKind::Config(_) => "configuration error"@,
    }
}

impl Error {
    pub closed spec fn spec_kind(&self) -> ErrorKind {
        self.kind
    }

    pub fn new(kind: ErrorKind) -> (r: Self)
        ensures
            r.spec_kind() == kind,
    {
        Error { kind }
    }

    pub fn kind(&self) -> (r: &ErrorKind)
        ensures
            *r == self.spec_kind(),
    {
        &self.kind
    }

    /// The status code, for a status failure.
    pub fn status_code(&self) -> (r: Option<u16>)
        ensures
            r == match self.spec_kind() {
                ErrorKind::Status(s) => Some(s.code),
                _ => None,
            },
    {
        match &self.kind {
            ErrorKind::Status(s) => Some(s.code),
            _ => None,
        }
    }

    /// Whether a response body did not decode, the success body or the
    /// error body alike.
    pub fn is_decode_failure(&self) -> (r: bool)
        ensures
            r == (self.spec_kind() is JSON || self.spec_kind() is ErrorPayload),
    {
        match &self.kind {
            ErrorKind::JSON(_) => true,
            ErrorKind::ErrorPayload(_) => true,
            _ => false,
        }
    }

    /// A one-line diagnostic.
    pub fn describe(&self) -> (r: String)
        ensures
            r@ == kind_description(self.spec_kind()),
    {
        match &self.kind {
            ErrorKind::HTTP(_) => String::from_str("http error"),
            ErrorKind::Status(s) => {
                let mut r = String::from_str("status error ");
                let code = decimal_text(s.code as u64);
                r.append(code.as_str());
                r.append(": ");
                r.append(s.message.as_str());
                r
            },
            ErrorKind::JSON(_) => String::from_str("json error"),
            ErrorKind::ErrorPayload(_) => String::from_str("json error in error response"),
            ErrorKind::Config(_) => String::from_str("configuration error"),
        }
    }
}

} // verus!
