//! Client library for the Cerebras inference API.
//!
//! The library holds the records of the API, builders for requests, the
//! decisions around a call, and the streaming part: decoding the payloads of
//! a stream of server-sent events into chunks, handing them out one by one,
//! and folding them into the complete answer. Everything is verified; the
//! contracts are stated over mathematical views of the data.
//!
//! The library does no input or output. A caller sends the requests, frames
//! the response into events and hands them over as [`streaming::StreamEvent`].

pub mod api;
pub mod builders;
pub mod client;
pub mod configuration;
pub mod error;
pub mod json;
pub mod models;
pub mod prelude;
pub mod status;
pub mod streaming;
pub mod text;

pub use client::Client;
pub use configuration::Configuration;
pub use error::Error;
pub use models::{
    chat_completion, chat_message, completion, model, model_list, response_format,
    stop_condition, tool,
};
pub use models::{
    ChatChoice, ChatCompletion, ChatCompletionRequest, ChatMessage, Completion, CompletionChoice,
    CompletionRequest, FunctionDefinition, FunctionName, JsonSchema, Model, ModelIdentifier,
    ModelList, Prompt, ResponseFormat, Scalar, StopCondition, TimeInfo, Tool, ToolCall,
    ToolChoiceOption, Usage,
};

use vstd::prelude::*;

verus! {

/// The version of the library.
pub const VERSION: &'static str = "0.1.0";

/// The version of the API description that the records follow.
pub const OPENAPI_VERSION: &'static str = "1.0.0";

} // verus!
