//! The library's error type and the text of each error.

use crate::text::{decimal, decimal_string};
use vstd::prelude::*;

verus! {

/// A place in a chunk record whose value the decoder could not accept.
#[derive(Clone, Copy, Debug, PartialEq, Eq)]
pub enum Field {
    /// The record itself: it is not a JSON object.
    Chunk,
    Id,
    Created,
    Model,
    Choices,
    /// An element of `choices`: it is not a JSON object.
    Choice,
    Index,
    Delta,
    Content,
    Text,
    FinishReason,
}

/// Why a payload could not be decoded into a chunk.
#[derive(Clone, Debug, PartialEq, Eq)]
pub enum DecodeError {
    /// The JSON decoder refused the payload. Carries its description.
    Json(String),
    /// The payload is JSON, but not of the chunk's shape.
    Schema(Field),
}

/// The view of a [`DecodeError`].
pub enum DecodeErrorView {
    Json(Seq<char>),
    Schema(Field),
}

impl View for DecodeError {
    type V = DecodeErrorView;

    open spec fn view(&self) -> DecodeErrorView {
        match self {
            DecodeError::Json(fault) => DecodeErrorView::Json(fault@),
            DecodeError::Schema(field) => DecodeErrorView::Schema(*field),
        }
    }
}

/// Everything that can go wrong in a call of this library.
#[derive(Clone, Debug, PartialEq, Eq)]
pub enum Error {
    /// The HTTP request failed. Carries the transport's description.
    Http(String),
    /// The API answered with an error.
    Api(String),
    /// The API answered with a detailed error.
    ApiError { error_type: String, code: String, message: String, param: Option<String> },
    /// A payload could not be decoded.
    Serialization(DecodeError),
    /// The client is not configured for the call.
    Configuration(String),
    /// The model identifier is not known.
    InvalidModel(String),
    /// Too many requests. Carries the seconds to wait before the next one.
    RateLimit(u64),
    /// The API key was not accepted.
    Authentication,
    /// The resource does not exist.
    NotFound(String),
    /// The API refused the request.
    InvalidRequest(String),
    /// The API failed on its side.
    ServerError(String),
    /// The event stream broke.
    Streaming(String),
    /// The request took too long.
    Timeout,
    /// A failure of unknown kind.
    Unknown,
}

/// The view of an [`Error`].
pub enum ErrorView {
    Http(Seq<char>),
    Api(Seq<char>),
    ApiError { error_type: Seq<char>, code: Seq<char>, message: Seq<char>, param: Option<Seq<char>> },
    Serialization(DecodeErrorView),
    Configuration(Seq<char>),
    InvalidModel(Seq<char>),
    RateLimit(u64),
    Authentication,
    NotFound(Seq<char>),
    InvalidRequest(Seq<char>),
    ServerError(Seq<char>),
    Streaming(Seq<char>),
    Timeout,
    Unknown,
}

impl View for Error {
    type V = ErrorView;

    open spec fn view(&self) -> ErrorView {
        match self {
            Error::Http(cause) => ErrorView::Http(cause@),
            Error::Api(detail) => ErrorView::Api(detail@),
            Error::ApiError { error_type, code, message, param } => ErrorView::ApiError {
                error_type: error_type@,
                code: code@,
                message: message@,
                param: match param {
                    Some(name) => Some(name@),
                    None => None,
                },
            },
            Error::Serialization(cause) => ErrorView::Serialization(cause@),
            Error::Configuration(detail) => ErrorView::Configuration(detail@),
            Error::InvalidModel(name) => ErrorView::InvalidModel(name@),
            Error::RateLimit(seconds) => ErrorView::RateLimit(*seconds),
            Error::Authentication => ErrorView::Authentication,
            Error::NotFound(detail) => ErrorView::NotFound(detail@),
            Error::InvalidRequest(detail) => ErrorView::InvalidRequest(detail@),
            Error::ServerError(detail) => ErrorView::ServerError(detail@),
            Error::Streaming(detail) => ErrorView::Streaming(detail@),
            Error::Timeout => ErrorView::Timeout,
            Error::Unknown => ErrorView::Unknown,
        }
    }
}

impl Field {
    /// Where the field stands in a chunk record.
    pub open spec fn spec_path(self) -> Seq<char> {
        match self {
            Field::Chunk => "chunk"@,
            Field::Id => "id"@,
            Field::Created => "created"@,
            Field::Model => "model"@,
            Field::Choices => "choices"@,
            Field::Choice => "choices[]"@,
            Field::Index => "choices[].index"@,
            Field::Delta => "choices[].delta"@,
            Field::Content => "choices[].delta.content"@,
            Field::Text => "choices[].text"@,
            Field::FinishReason => "choices[].finish_reason"@,
        }
    }

    /// Where the field stands in a chunk record.
    pub fn path(self) -> (r: &'static str)
        ensures
            r@ == self.spec_path(),
    {
        match self {
            Field::Chunk => "chunk",
            Field::Id => "id",
            Field::Created => "created",
            Field::Model => "model",
            Field::Choices => "choices",
            Field::Choice => "choices[]",
            Field::Index => "choices[].index",
            Field::Delta => "choices[].delta",
            Field::Content => "choices[].delta.content",
            Field::Text => "choices[].text",
            Field::FinishReason => "choices[].finish_reason",
        }
    }
}

impl DecodeErrorView {
    /// The text of the error.
    pub open spec fn message(self) -> Seq<char> {
        match self {
            DecodeErrorView::Json(fault) => fault,
            DecodeErrorView::Schema(field) => "invalid value at "@ + field.spec_path(),
        }
    }
}

impl DecodeError {
    /// The text of the error.
    pub fn to_string(&self) -> (r: String)
        ensures
            r@ == self@.message(),
    {
        match self {
            DecodeError::Json(fault) => fault.clone(),
            DecodeError::Schema(field) => "invalid value at ".to_owned().concat(field.path()),
        }
    }
}

impl ErrorView {
    /// The text of the error.
    pub open spec fn message(self) -> Seq<char> {
        match self {
            ErrorView::Http(cause) => "HTTP request failed: "@ + cause,
            ErrorView::Api(detail) => "API error: "@ + detail,
            ErrorView::ApiError { code, message, .. } => "API error ("@ + code + "): "@ + message,
            ErrorView::Serialization(cause) => "Serialization error: "@ + cause.message(),
            ErrorView::Configuration(detail) => "Configuration error: "@ + detail,
            ErrorView::InvalidModel(name) => "Invalid model identifier: "@ + name,
            ErrorView::RateLimit(seconds) => "Rate limit exceeded. Please retry after "@ + decimal(
                seconds as nat,
            ) + " seconds"@,
            ErrorView::Authentication => "Authentication failed. Please check your API key"@,
            ErrorView::NotFound(detail) => "Resource not found: "@ + detail,
            ErrorView::InvalidRequest(detail) => "Invalid request: "@ + detail,
            ErrorView::ServerError(detail) => "Server error: "@ + detail,
            ErrorView::Streaming(detail) => "Streaming error: "@ + detail,
            ErrorView::Timeout => "Request timed out"@,
            ErrorView::Unknown => "Unknown error occurred"@,
        }
    }
}

fn prefixed(prefix: &str, rest: &str) -> (r: String)
    ensures
        r@ == prefix@ + rest@,
{
    prefix.to_owned().concat(rest)
}

impl Error {
    /// The text of the error, as shown to a user.
    pub fn to_string(&self) -> (r: String)
        ensures
            r@ == self@.message(),
    {
        match self {
            Error::Http(cause) => prefixed("HTTP request failed: ", cause.as_str()),
            Error::Api(detail) => prefixed("API error: ", detail.as_str()),
            Error::ApiError { error_type: _, code, message, param: _ } => {
                let mut out = prefixed("API error (", code.as_str());
                out.append("): ");
                out.append(message.as_str());
                out
            },
            Error::Serialization(cause) => prefixed(
                "Serialization error: ",
                cause.to_string().as_str(),
            ),
            Error::Configuration(detail) => prefixed("Configuration error: ", detail.as_str()),
            Error::InvalidModel(name) => prefixed("Invalid model identifier: ", name.as_str()),
            Error::RateLimit(seconds) => {
                let mut out = prefixed(
                    "Rate limit exceeded. Please retry after ",
                    decimal_string(*seconds).as_str(),
                );
                out.append(" seconds");
                out
            },
            Error::Authentication => "Authentication failed. Please check your API key".to_owned(),
            Error::NotFound(detail) => prefixed("Resource not found: ", detail.as_str()),
            Error::InvalidRequest(detail) => prefixed("Invalid request: ", detail.as_str()),
            Error::ServerError(detail) => prefixed("Server error: ", detail.as_str()),
            Error::Streaming(detail) => prefixed("Streaming error: ", detail.as_str()),
            Error::Timeout => "Request timed out".to_owned(),
            Error::Unknown => "Unknown error occurred".to_owned(),
        }
    }
}

} // verus!
