//! The complete answer to a text completion request.

use crate::models::chat_completion::{FinishReason, Usage};
use crate::models::time_info::TimeInfo;
use vstd::prelude::*;

verus! {

/// The kind of record that a text completion is.
#[derive(Clone, Copy, Debug, PartialEq, Eq, Hash)]
pub enum Object {
    TextCompletion,
}

/// One alternative continuation.
#[derive(Clone, Debug, PartialEq, Eq)]
pub struct CompletionChoice {
    pub index: Option<i32>,
    pub text: Option<String>,
    pub finish_reason: Option<FinishReason>,
}

/// The complete answer to a text completion request.
#[derive(Clone, Debug, PartialEq, Eq)]
pub struct Completion {
    pub id: Option<String>,
    pub object: Option<Object>,
    pub created: Option<i64>,
    pub model: Option<String>,
    pub system_fingerprint: Option<String>,
    pub choices: Option<Vec<CompletionChoice>>,
    pub usage: Option<Usage>,
    pub time_info: Option<TimeInfo>,
}

} // verus!
