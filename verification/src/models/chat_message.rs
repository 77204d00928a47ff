//! A message of a conversation.

use vstd::prelude::*;

verus! {

/// Who a message is from.
#[derive(Clone, Copy, Debug, PartialEq, Eq, Hash)]
pub enum Role {
    System,
    User,
    Assistant,
    Tool,
}

/// A call of a tool that the model asks for.
#[derive(Clone, Debug, PartialEq, Eq)]
pub struct ToolCall {
    pub name: Option<String>,
    pub arguments: Option<String>,
}

/// One message of a conversation.
#[derive(Clone, Debug, PartialEq, Eq)]
pub struct ChatMessage {
    pub role: Role,
    pub content: String,
    pub name: Option<String>,
    pub tool_calls: Option<Vec<ToolCall>>,
    pub tool_call_id: Option<String>,
}

impl ChatMessage {
    /// Whether the message is of the given role and content and holds
    /// nothing else.
    pub open spec fn is_plain(self, role: Role, content: Seq<char>) -> bool {
        &&& self.role == role
        &&& self.content@ == content
        &&& self.name is None
        &&& self.tool_calls is None
        &&& self.tool_call_id is None
    }

    /// A system message.
    pub fn system(content: &str) -> (r: ChatMessage)
        ensures
            r.is_plain(Role::System, content@),
    {
        ChatMessage {
            role: Role::System,
            content: content.to_owned(),
            name: None,
            tool_calls: None,
            tool_call_id: None,
        }
    }

    /// A user message.
    pub fn user(content: &str) -> (r: ChatMessage)
        ensures
            r.is_plain(Role::User, content@),
    {
        ChatMessage {
            role: Role::User,
            content: content.to_owned(),
            name: None,
            tool_calls: None,
            tool_call_id: None,
        }
    }

    /// An assistant message.
    pub fn assistant(content: &str) -> (r: ChatMessage)
        ensures
            r.is_plain(Role::Assistant, content@),
    {
        ChatMessage {
            role: Role::Assistant,
            content: content.to_owned(),
            name: None,
            tool_calls: None,
            tool_call_id: None,
        }
    }

    /// A message that answers the tool call of the given id.
    pub fn tool(content: &str, tool_call_id: &str) -> (r: ChatMessage)
        ensures
            r.role == Role::Tool,
            r.content@ == content@,
            r.name is None,
            r.tool_calls is None,
            r.tool_call_id matches Some(id) && id@ == tool_call_id@,
    {
        ChatMessage {
            role: Role::Tool,
            content: content.to_owned(),
            name: None,
            tool_calls: None,
            tool_call_id: Some(tool_call_id.to_owned()),
        }
    }
}

} // verus!
