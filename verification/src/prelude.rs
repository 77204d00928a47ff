//! The names that most users of the library need.

pub use crate::builders::{ChatCompletionBuilder, CompletionBuilder};
pub use crate::client::Client;
pub use crate::error::Error;
pub use crate::models::{ChatCompletionRequest, ChatMessage, CompletionRequest, ModelIdentifier};
pub use crate::streaming::{Collector, StreamDecoder, StreamEvent, WireShape};
