//! The decisions around a call of the API: where a request goes, and what
//! a response or a failure means.

use crate::configuration::Configuration;
use crate::error::{DecodeError, DecodeErrorView, Error, ErrorView};
use crate::models::chat_completion_request::ChatCompletionRequest;
use crate::models::completion_request::CompletionRequest;
use crate::status::{status_display, HttpStatus};
use crate::streaming::chunk::WireShape;
use vstd::prelude::*;

verus! {

/// The operations of the API.
#[derive(Clone, Copy, Debug, PartialEq, Eq)]
pub enum Operation {
    CreateChatCompletion,
    CreateCompletion,
    ListModels,
    RetrieveModel,
}

/// What the API says of an error.
#[derive(Clone, Debug, PartialEq, Eq)]
pub struct ErrorDetail {
    pub message: Option<String>,
}

/// The body of an error response, by the status that it came with.
#[derive(Clone, Debug, PartialEq, Eq)]
pub enum ErrorBody {
    Status400(ErrorDetail),
    Status401(ErrorDetail),
    Status404(ErrorDetail),
    Status422(ErrorDetail),
    Status429(ErrorDetail),
    Status500(ErrorDetail),
    /// A body of no known form.
    UnknownValue,
}

/// How a call of the API failed.
#[derive(Clone, Debug, PartialEq, Eq)]
pub enum ApiFailure {
    /// The transport failed. Carries its description.
    Reqwest(String),
    /// The response could not be decoded. Carries the decoder's description.
    Serde(String),
    /// Reading or writing failed. Carries the description.
    Io(String),
    /// The API answered with an error status.
    ResponseError { status: HttpStatus, content: String, entity: Option<ErrorBody> },
}

impl ErrorBody {
    /// The body of an error response of the given status, as far as what
    /// the API says of the error could be read. Only the statuses 400, 401,
    /// 404, 422, 429 and 500 have bodies of a known form.
    pub open spec fn of_status(code: u16, detail: Option<ErrorDetail>) -> ErrorBody {
        match detail {
            None => ErrorBody::UnknownValue,
            Some(detail) => if code == 400 {
                ErrorBody::Status400(detail)
            } else if code == 401 {
                ErrorBody::Status401(detail)
            } else if code == 404 {
                ErrorBody::Status404(detail)
            } else if code == 422 {
                ErrorBody::Status422(detail)
            } else if code == 429 {
                ErrorBody::Status429(detail)
            } else if code == 500 {
                ErrorBody::Status500(detail)
            } else {
                ErrorBody::UnknownValue
            },
        }
    }

    /// The body of an error response of the given status.
    pub fn for_status(status: HttpStatus, detail: Option<ErrorDetail>) -> (r: ErrorBody)
        ensures
            r == ErrorBody::of_status(status.spec_code(), detail),
    {
        let code = status.code();
        match detail {
            None => ErrorBody::UnknownValue,
            Some(detail) => if code == 400 {
                ErrorBody::Status400(detail)
            } else if code == 401 {
                ErrorBody::Status401(detail)
            } else if code == 404 {
                ErrorBody::Status404(detail)
            } else if code == 422 {
                ErrorBody::Status422(detail)
            } else if code == 429 {
                ErrorBody::Status429(detail)
            } else if code == 500 {
                ErrorBody::Status500(detail)
            } else {
                ErrorBody::UnknownValue
            },
        }
    }
}

/// The message of an error detail, or the given one where it has none.
pub open spec fn message_or(detail: ErrorDetail, fallback: Seq<char>) -> Seq<char> {
    match detail.message {
        Some(message) => message@,
        None => fallback,
    }
}

/// The error for a response whose status says that the call failed.
pub open spec fn status_failure(status: HttpStatus, content: Seq<char>) -> ErrorView {
    ErrorView::Api("HTTP "@ + status_display(status.spec_code()) + ": "@ + content)
}

/// The error that a failed call is reported with. An error response is
/// told apart by its body, as far as the operation knows bodies of that
/// status: 400 and 422 for the two completions, 404 for retrieving a model,
/// 401, 429 and 500 for all. Every other error response is reported by its
/// status and content.
pub open spec fn failure_error(operation: Operation, failure: ApiFailure) -> ErrorView {
    match failure {
        ApiFailure::Reqwest(cause) => ErrorView::Http(cause@),
        ApiFailure::Serde(cause) => ErrorView::Serialization(DecodeErrorView::Json(cause@)),
        ApiFailure::Io(cause) => ErrorView::Api("IO error: "@ + cause@),
        ApiFailure::ResponseError { status, content, entity } => {
            let completes = operation is CreateChatCompletion || operation is CreateCompletion;
            match entity {
                Some(ErrorBody::Status400(detail)) if completes => ErrorView::InvalidRequest(
                    message_or(detail, "Bad request"@),
                ),
                Some(ErrorBody::Status401(_)) => ErrorView::Authentication,
                Some(ErrorBody::Status404(detail)) if operation is RetrieveModel
                    => ErrorView::NotFound(message_or(detail, "Model not found"@)),
                Some(ErrorBody::Status422(detail)) if completes => ErrorView::InvalidRequest(
                    message_or(detail, "Invalid parameters"@),
                ),
                Some(ErrorBody::Status429(_)) => ErrorView::RateLimit(0),
                Some(ErrorBody::Status500(detail)) => ErrorView::ServerError(
                    message_or(detail, "Internal server error"@),
                ),
                _ => status_failure(status, content@),
            }
        },
    }
}

fn detail_message(detail: ErrorDetail, fallback: &str) -> (r: String)
    ensures
        r@ == message_or(detail, fallback@),
{
    match detail.message {
        Some(message) => message,
        None => fallback.to_owned(),
    }
}

/// The error for a response whose status says that the call failed.
pub fn http_failure(status: HttpStatus, content: &str) -> (r: Error)
    ensures
        r@ == status_failure(status, content@),
{
    let mut text = "HTTP ".to_owned();
    text.append(status.to_string().as_str());
    text.append(": ");
    text.append(content);
    Error::Api(text)
}

impl Error {
    /// The error that a failed call of the given operation is reported with.
    pub fn from_failure(operation: Operation, failure: ApiFailure) -> (r: Error)
        ensures
            r@ == failure_error(operation, failure),
    {
        let completes = match operation {
            Operation::CreateChatCompletion => true,
            Operation::CreateCompletion => true,
            _ => false,
        };
        let retrieves = match operation {
            Operation::RetrieveModel => true,
            _ => false,
        };
        match failure {
            ApiFailure::Reqwest(cause) => Error::Http(cause),
            ApiFailure::Serde(cause) => Error::Serialization(DecodeError::Json(cause)),
            ApiFailure::Io(cause) => Error::Api("IO error: ".to_owned().concat(cause.as_str())),
            ApiFailure::ResponseError { status, content, entity } => {
                match entity {
                    Some(ErrorBody::Status400(detail)) => if completes {
                        Error::InvalidRequest(detail_message(detail, "Bad request"))
                    } else {
                        http_failure(status, content.as_str())
                    },
                    Some(ErrorBody::Status401(_)) => Error::Authentication,
                    Some(ErrorBody::Status404(detail)) => if retrieves {
                        Error::NotFound(detail_message(detail, "Model not found"))
                    } else {
                        http_failure(status, content.as_str())
                    },
                    Some(ErrorBody::Status422(detail)) => if completes {
                        Error::InvalidRequest(detail_message(detail, "Invalid parameters"))
                    } else {
                        http_failure(status, content.as_str())
                    },
                    Some(ErrorBody::Status429(_)) => Error::RateLimit(0),
                    Some(ErrorBody::Status500(detail)) => Error::ServerError(
                        detail_message(detail, "Internal server error"),
                    ),
                    _ => http_failure(status, content.as_str()),
                }
            },
        }
    }
}

/// The body of a response to a request for a completion: the complete
/// answer, or a chunk of a streamed one.
#[derive(Clone, Debug, PartialEq, Eq)]
pub enum Completed<T, C> {
    Answer(T),
    Chunk(C),
}

/// The body of a successful response, which has to be there.
pub fn expect_entity<T>(entity: Option<T>) -> (r: Result<T, Error>)
    ensures
        match entity {
            Some(body) => r == Ok::<T, Error>(body),
            None => r matches Err(error) && error@ == ErrorView::Api(
                "Unexpected response format"@,
            ),
        },
{
    match entity {
        Some(body) => Ok(body),
        None => Err(Error::Api("Unexpected response format".to_owned())),
    }
}

/// The complete answer of a successful response to a request that did not
/// ask for streaming: the body has to be there and to be no chunk.
pub fn expect_answer<T, C>(entity: Option<Completed<T, C>>) -> (r: Result<T, Error>)
    ensures
        match entity {
            Some(Completed::Answer(answer)) => r == Ok::<T, Error>(answer),
            Some(Completed::Chunk(_)) => r matches Err(error) && error@ == ErrorView::Api(
                "Unexpected streaming response for non-streaming request"@,
            ),
            None => r matches Err(error) && error@ == ErrorView::Api(
                "Unexpected response format"@,
            ),
        },
{
    match entity {
        Some(Completed::Answer(answer)) => Ok(answer),
        Some(Completed::Chunk(_)) => Err(
            Error::Api("Unexpected streaming response for non-streaming request".to_owned()),
        ),
        None => Err(Error::Api("Unexpected response format".to_owned())),
    }
}

/// The path of an operation, below the base path. The path for retrieving
/// a model is to be followed by the name of the model.
pub open spec fn operation_path(operation: Operation) -> Seq<char> {
    match operation {
        Operation::CreateChatCompletion => "/chat/completions"@,
        Operation::CreateCompletion => "/completions"@,
        Operation::ListModels => "/models"@,
        Operation::RetrieveModel => "/models/"@,
    }
}

/// The operation that streams chunks of the given shape.
pub open spec fn stream_operation(shape: WireShape) -> Operation {
    match shape {
        WireShape::Chat => Operation::CreateChatCompletion,
        WireShape::Text => Operation::CreateCompletion,
    }
}

/// The path of the operation that streams chunks of the given shape.
pub open spec fn stream_path(shape: WireShape) -> Seq<char> {
    operation_path(stream_operation(shape))
}

/// Where and how a streaming request is sent.
#[derive(Clone, Debug, PartialEq, Eq)]
pub struct StreamCall {
    /// The address to post the request to.
    pub url: String,
    /// The API key to send as a bearer token.
    pub bearer_token: String,
}

impl Operation {
    /// The path of the operation, below the base path.
    pub fn path(self) -> (r: &'static str)
        ensures
            r@ == operation_path(self),
    {
        match self {
            Operation::CreateChatCompletion => "/chat/completions",
            Operation::CreateCompletion => "/completions",
            Operation::ListModels => "/models",
            Operation::RetrieveModel => "/models/",
        }
    }
}

impl Configuration {
    /// The address of an operation.
    pub fn operation_url(&self, operation: Operation) -> (r: String)
        ensures
            r@ == self.base_path@ + operation_path(operation),
    {
        self.base_path.clone().concat(operation.path())
    }

    /// Where a request for a stream of the given shape goes. Without an API
    /// key there is nowhere to send it.
    pub fn stream_call(&self, shape: WireShape) -> (r: Result<StreamCall, Error>)
        ensures
            match self.bearer_access_token {
                Some(token) => r matches Ok(call) && call.url@ == self.base_path@ + stream_path(
                    shape,
                ) && call.bearer_token@ == token@,
                None => r matches Err(error) && error@ == ErrorView::Configuration(
                    "No API key configured"@,
                ),
            },
    {
        match &self.bearer_access_token {
            None => Err(Error::Configuration("No API key configured".to_owned())),
            Some(token) => {
                let operation = match shape {
                    WireShape::Chat => Operation::CreateChatCompletion,
                    WireShape::Text => Operation::CreateCompletion,
                };
                Ok(StreamCall { url: self.operation_url(operation), bearer_token: token.clone() })
            },
        }
    }
}

} // verus!
