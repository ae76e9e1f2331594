//! The failures an operation can report.

use vstd::prelude::*;
use vstd::string::StringExecFns;

verus! {

/// The exchange itself broke: nothing the daemon documents as an answer.
#[derive(Debug)]
pub enum TransportError {
    /// The socket could not be reached or the transfer broke off; the text says how.
    Connection(String),
    /// A header line is not valid UTF-8.
    HeaderEncoding,
    /// A header line was taken for the status line and its code is not a number.
    StatusLine,
    /// The transfer ended before any status code was seen.
    NoStatus,
    /// The body is not valid UTF-8.
    BodyEncoding,
}

/// Why a JSON text could not be turned into a record.
#[derive(Debug)]
pub enum JsonError {
    /// The text is not JSON, or the document cannot be written as JSON.
    Syntax(serde_json::Error),
    /// The text is JSON of another shape than the record's.
    UnexpectedShape,
}

/// The outcome of an operation that did not succeed.
#[derive(Debug)]
pub enum DockerApiError {
    /// The daemon answered with another status code than the operation's own;
    /// the code and the body are the ones received.
    InvalidApiResponseError(usize, String),
    /// The status code was the expected one and the body is not the expected record.
    JsonDeserializationError(JsonError),
    /// A request body could not be written as JSON text.
    JsonSerializationError(JsonError),
    /// No answer was obtained.
    TransportError(TransportError),
}

impl TransportError {
    /// What [`TransportError::message`] says.
    pub open spec fn message_text(self) -> Seq<char> {
        match self {
            TransportError::Connection(detail) => detail@,
            TransportError::HeaderEncoding => "a header line is not valid UTF-8"@,
            TransportError::StatusLine => "the status line holds no status code"@,
            TransportError::NoStatus => "the response has no status line"@,
            TransportError::BodyEncoding => "the body is not valid UTF-8"@,
        }
    }

    /// The failure in words.
    pub fn message(&self) -> (text: String)
        ensures
            text@ == self.message_text(),
    {
        match self {
            TransportError::Connection(detail) => detail.clone(),
            TransportError::HeaderEncoding => String::from_str("a header line is not valid UTF-8"),
            TransportError::StatusLine => String::from_str("the status line holds no status code"),
            TransportError::NoStatus => String::from_str("the response has no status line"),
            TransportError::BodyEncoding => String::from_str("the body is not valid UTF-8"),
        }
    }
}

impl DockerApiError {
    /// What [`DockerApiError::message`] says: for a response with an
    /// unexpected status code, the body that came with it.
    pub open spec fn message_text(self) -> Seq<char> {
        match self {
            DockerApiError::InvalidApiResponseError(_, body) => body@,
            DockerApiError::JsonDeserializationError(JsonError::Syntax(_)) =>
                "the body is not JSON"@,
            DockerApiError::JsonDeserializationError(JsonError::UnexpectedShape) =>
                "the body is not the expected record"@,
            DockerApiError::JsonSerializationError(_) => "the request body cannot be written"@,
            DockerApiError::TransportError(e) => e.message_text(),
        }
    }

    /// The failure in words.
    pub fn message(&self) -> (text: String)
        ensures
            text@ == self.message_text(),
    {
        match self {
            DockerApiError::InvalidApiResponseError(_, body) => body.clone(),
            DockerApiError::JsonDeserializationError(JsonError::Syntax(_)) => String::from_str(
                "the body is not JSON",
            ),
            DockerApiError::JsonDeserializationError(JsonError::UnexpectedShape) =>
                String::from_str("the body is not the expected record"),
            DockerApiError::JsonSerializationError(_) => String::from_str(
                "the request body cannot be written",
            ),
            DockerApiError::TransportError(e) => e.message(),
        }
    }
}

} // verus!
