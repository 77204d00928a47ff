//! From the aggregate of a stream to the complete answer that a request
//! without streaming would have brought.

use crate::error::Error;
use crate::models::chat_completion;
use crate::models::chat_completion::{ChatChoice, ChatCompletion};
use crate::models::chat_message::{ChatMessage, Role};
use crate::models::completion;
use crate::models::completion::{Completion, CompletionChoice};
use crate::streaming::aggregate::{Aggregate, AggregateView};
use crate::streaming::chunk::{text_view, WireShape};
use crate::streaming::events::{collect, collected, event_views, StreamEvent};
use vstd::prelude::*;

verus! {

impl ChatCompletion {
    /// Whether this is the complete answer that an aggregate amounts to:
    /// identifier, creation time and model name are the aggregate's; there
    /// is one choice, of index 0, with the aggregate's terminal reason and
    /// an assistant message of the aggregate's text; nothing else is set.
    pub open spec fn is_answer(self, aggregate: AggregateView) -> bool {
        &&& text_view(self.id) == aggregate.id
        &&& self.object == Some(chat_completion::Object::ChatPeriodCompletion)
        &&& self.created == aggregate.created
        &&& text_view(self.model) == aggregate.model
        &&& self.system_fingerprint is None
        &&& self.usage is None
        &&& self.time_info is None
        &&& self.choices matches Some(choices)
        &&& choices@.len() == 1
        &&& choices@[0].index == Some(0i32)
        &&& choices@[0].finish_reason == aggregate.finish_reason
        &&& choices@[0].message matches Some(message)
        &&& message.is_plain(Role::Assistant, aggregate.text)
    }
}

impl Completion {
    /// Whether this is the complete answer that an aggregate amounts to:
    /// identifier, creation time and model name are the aggregate's; there
    /// is one choice, of index 0, with the aggregate's terminal reason and
    /// text; nothing else is set.
    pub open spec fn is_answer(self, aggregate: AggregateView) -> bool {
        &&& text_view(self.id) == aggregate.id
        &&& self.object == Some(completion::Object::TextCompletion)
        &&& self.created == aggregate.created
        &&& text_view(self.model) == aggregate.model
        &&& self.system_fingerprint is None
        &&& self.usage is None
        &&& self.time_info is None
        &&& self.choices matches Some(choices)
        &&& choices@.len() == 1
        &&& choices@[0].index == Some(0i32)
        &&& choices@[0].finish_reason == aggregate.finish_reason
        &&& choices@[0].text matches Some(text)
        &&& text@ == aggregate.text
    }
}

impl Aggregate {
    /// The complete answer to a chat completion request.
    pub fn into_chat_completion(self) -> (r: ChatCompletion)
        ensures
            r.is_answer(self@),
    {
        let message = ChatMessage {
            role: Role::Assistant,
            content: self.text,
            name: None,
            tool_calls: None,
            tool_call_id: None,
        };
        let mut choices: Vec<ChatChoice> = Vec::new();
        choices.push(
            ChatChoice { index: Some(0), message: Some(message), finish_reason: self.finish_reason },
        );
        ChatCompletion {
            id: self.id,
            object: Some(chat_completion::Object::ChatPeriodCompletion),
            created: self.created,
            model: self.model,
            system_fingerprint: None,
            choices: Some(choices),
            usage: None,
            time_info: None,
        }
    }

    /// The complete answer to a text completion request.
    pub fn into_completion(self) -> (r: Completion)
        ensures
            r.is_answer(self@),
    {
        let mut choices: Vec<CompletionChoice> = Vec::new();
        choices.push(
            CompletionChoice {
                index: Some(0),
                text: Some(self.text),
                finish_reason: self.finish_reason,
            },
        );
        Completion {
            id: self.id,
            object: Some(completion::Object::TextCompletion),
            created: self.created,
            model: self.model,
            system_fingerprint: None,
            choices: Some(choices),
            usage: None,
            time_info: None,
        }
    }
}

/// Folds the events of a chat completion stream into the complete answer.
/// It fails, with the error of the first event that is a fault or cannot be
/// decoded, exactly where such an event arrives before the stream ends.
pub fn collect_chat_completion(events: &Vec<StreamEvent>) -> (r: Result<ChatCompletion, Error>)
    ensures
        match r {
            Ok(answer) => collected(WireShape::Chat, event_views(events@)) matches Ok(aggregate)
                && answer.is_answer(aggregate),
            Err(error) => collected(WireShape::Chat, event_views(events@)) == Err::<
                AggregateView,
                _,
            >(error@),
        },
{
    match collect(WireShape::Chat, events) {
        Ok(aggregate) => Ok(aggregate.into_chat_completion()),
        Err(error) => Err(error),
    }
}

/// Folds the events of a text completion stream into the complete answer.
/// It fails, with the error of the first event that is a fault or cannot be
/// decoded, exactly where such an event arrives before the stream ends.
pub fn collect_completion(events: &Vec<StreamEvent>) -> (r: Result<Completion, Error>)
    ensures
        match r {
            Ok(answer) => collected(WireShape::Text, event_views(events@)) matches Ok(aggregate)
                && answer.is_answer(aggregate),
            Err(error) => collected(WireShape::Text, event_views(events@)) == Err::<
                AggregateView,
                _,
            >(error@),
        },
{
    match collect(WireShape::Text, events) {
        Ok(aggregate) => Ok(aggregate.into_completion()),
        Err(error) => Err(error),
    }
}

} // verus!
