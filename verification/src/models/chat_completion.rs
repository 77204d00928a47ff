//! The complete answer to a chat completion request.

use crate::models::chat_message::ChatMessage;
use crate::models::time_info::TimeInfo;
use vstd::prelude::*;

verus! {

/// The kind of record that a chat completion is.
#[derive(Clone, Copy, Debug, PartialEq, Eq, Hash)]
pub enum Object {
    ChatPeriodCompletion,
}

/// Why a choice stopped, as a complete answer reports it.
#[derive(Clone, Copy, Debug, PartialEq, Eq, Hash)]
pub enum FinishReason {
    Stop,
    Length,
    ToolCalls,
    ContentFilter,
}

/// The tokens that a request has used.
#[derive(Clone, Copy, Debug, PartialEq, Eq)]
pub struct Usage {
    pub prompt_tokens: Option<i32>,
    pub completion_tokens: Option<i32>,
    pub total_tokens: Option<i32>,
}

/// One alternative answer.
#[derive(Clone, Debug, PartialEq, Eq)]
pub struct ChatChoice {
    pub index: Option<i32>,
    pub message: Option<ChatMessage>,
    pub finish_reason: Option<FinishReason>,
}

/// The complete answer to a chat completion request.
#[derive(Clone, Debug, PartialEq, Eq)]
pub struct ChatCompletion {
    pub id: Option<String>,
    pub object: Option<Object>,
    pub created: Option<i64>,
    pub model: Option<String>,
    pub system_fingerprint: Option<String>,
    pub choices: Option<Vec<ChatChoice>>,
    pub usage: Option<Usage>,
    pub time_info: Option<TimeInfo>,
}

} // verus!
