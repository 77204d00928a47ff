//! A request for a chat completion.

use crate::models::chat_message::ChatMessage;
use crate::models::model_identifier::ModelIdentifier;
use crate::models::scalar::Scalar;
use crate::models::response_format::ResponseFormat;
use crate::models::stop_condition::StopCondition;
use crate::models::tool::{Tool, ToolChoiceOption};
use vstd::prelude::*;

verus! {

/// A request for a chat completion.
#[derive(Clone, Debug, PartialEq)]
pub struct ChatCompletionRequest {
    pub model: ModelIdentifier,
    pub messages: Vec<ChatMessage>,
    pub max_tokens: Option<u32>,
    pub temperature: Option<Scalar>,
    pub top_p: Option<Scalar>,
    pub stream: Option<bool>,
    pub stop: Option<StopCondition>,
    pub response_format: Option<ResponseFormat>,
    pub tools: Option<Vec<Tool>>,
    pub tool_choice: Option<ToolChoiceOption>,
}

impl ChatCompletionRequest {
    /// The same request, asking for a streamed answer.
    pub fn streaming(self) -> (r: ChatCompletionRequest)
        ensures
            r == (ChatCompletionRequest { stream: Some(true), ..self }),
    {
        let mut request = self;
        request.stream = Some(true);
        request
    }
}

} // verus!
