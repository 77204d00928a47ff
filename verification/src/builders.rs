//! Builders for requests.

pub mod chat_completion_builder;
pub mod completion_builder;

pub use chat_completion_builder::ChatCompletionBuilder;
pub use completion_builder::CompletionBuilder;
