//! The records that requests and responses are made of.

pub mod chat_completion;
pub mod chat_completion_request;
pub mod chat_message;
pub mod completion;
pub mod completion_request;
pub mod model;
pub mod model_identifier;
pub mod model_list;
pub mod prompt;
pub mod response_format;
pub mod scalar;
pub mod stop_condition;
pub mod time_info;
pub mod tool;

pub use chat_completion::{ChatChoice, ChatCompletion, Usage};
pub use chat_completion_request::ChatCompletionRequest;
pub use chat_message::{ChatMessage, ToolCall};
pub use completion::{Completion, CompletionChoice};
pub use completion_request::CompletionRequest;
pub use model::Model;
pub use model_identifier::ModelIdentifier;
pub use model_list::ModelList;
pub use prompt::Prompt;
pub use response_format::{JsonSchema, ResponseFormat};
pub use scalar::Scalar;
pub use stop_condition::StopCondition;
pub use time_info::TimeInfo;
pub use tool::{FunctionDefinition, FunctionName, Tool, ToolChoiceOption};
