//! Building a request for a chat completion step by step.

use crate::models::chat_completion_request::ChatCompletionRequest;
use crate::models::chat_message::{ChatMessage, Role};
use crate::models::model_identifier::ModelIdentifier;
use crate::models::response_format;
use crate::models::response_format::{JsonSchema, ResponseFormat};
use crate::models::scalar::Scalar;
use crate::models::stop_condition::{is_stop_of, stop_condition};
use crate::models::tool::{Tool, ToolChoiceOption};
use vstd::prelude::*;

verus! {

/// A request for a chat completion in the making.
#[derive(Debug, Clone)]
pub struct ChatCompletionBuilder {
    model: ModelIdentifier,
    messages: Vec<ChatMessage>,
    max_tokens: Option<u32>,
    temperature: Option<Scalar>,
    top_p: Option<Scalar>,
    stream: Option<bool>,
    stop: Option<Vec<String>>,
    response_format: Option<ResponseFormat>,
    tools: Option<Vec<Tool>>,
    tool_choice: Option<ToolChoiceOption>,
}

/// What a builder holds.
pub struct ChatCompletionDraft {
    pub model: ModelIdentifier,
    pub messages: Seq<ChatMessage>,
    pub max_tokens: Option<u32>,
    pub temperature: Option<Scalar>,
    pub top_p: Option<Scalar>,
    pub stream: Option<bool>,
    pub stop: Option<Seq<String>>,
    pub response_format: Option<ResponseFormat>,
    pub tools: Option<Seq<Tool>>,
    pub tool_choice: Option<ToolChoiceOption>,
}

impl View for ChatCompletionBuilder {
    type V = ChatCompletionDraft;

    closed spec fn view(&self) -> ChatCompletionDraft {
        ChatCompletionDraft {
            model: self.model,
            messages: self.messages@,
            max_tokens: self.max_tokens,
            temperature: self.temperature,
            top_p: self.top_p,
            stream: self.stream,
            stop: match self.stop {
                Some(list) => Some(list@),
                None => None,
            },
            response_format: self.response_format,
            tools: match self.tools {
                Some(list) => Some(list@),
                None => None,
            },
            tool_choice: self.tool_choice,
        }
    }
}

/// The elements of an optional list, none for no list.
pub open spec fn elements<T>(list: Option<Seq<T>>) -> Seq<T> {
    match list {
        Some(list) => list,
        None => Seq::empty(),
    }
}

impl ChatCompletionDraft {
    /// The draft with one more message of the given role and content.
    pub open spec fn has_message_added(
        self,
        before: ChatCompletionDraft,
        role: Role,
        content: Seq<char>,
    ) -> bool {
        &&& self == (ChatCompletionDraft { messages: self.messages, ..before })
        &&& self.messages.len() == before.messages.len() + 1
        &&& self.messages.drop_last() == before.messages
        &&& self.messages.last().is_plain(role, content)
    }

    /// Whether the draft asks for an answer that meets a schema of the
    /// given name and strictness.
    pub open spec fn asks_for_schema(
        self,
        before: ChatCompletionDraft,
        name: Seq<char>,
        schema: serde_json::Value,
        strict: bool,
    ) -> bool {
        &&& self == (ChatCompletionDraft { response_format: self.response_format, ..before })
        &&& self.response_format matches Some(format)
        &&& format.format_type == Some(response_format::Type::JsonSchema)
        &&& format.json_schema matches Some(json_schema)
        &&& json_schema.name matches Some(given)
        &&& given@ == name
        &&& json_schema.schema == Some(schema)
        &&& json_schema.strict == Some(strict)
    }
}

impl ChatCompletionBuilder {
    /// A builder for a request to the given model, with nothing else set.
    pub fn new(model: ModelIdentifier) -> (r: ChatCompletionBuilder)
        ensures
            r@ == (ChatCompletionDraft {
                model,
                messages: Seq::empty(),
                max_tokens: None,
                temperature: None,
                top_p: None,
                stream: None,
                stop: None,
                response_format: None,
                tools: None,
                tool_choice: None,
            }),
    {
        ChatCompletionBuilder {
            model,
            messages: Vec::new(),
            max_tokens: None,
            temperature: None,
            top_p: None,
            stream: None,
            stop: None,
            response_format: None,
            tools: None,
            tool_choice: None,
        }
    }

    /// Adds a message to the conversation.
    pub fn message(self, message: ChatMessage) -> (r: ChatCompletionBuilder)
        ensures
            r@ == (ChatCompletionDraft { messages: self@.messages.push(message), ..self@ }),
    {
        let mut builder = self;
        builder.messages.push(message);
        builder
    }

    /// Adds messages to the conversation, in their order.
    pub fn messages(self, messages: Vec<ChatMessage>) -> (r: ChatCompletionBuilder)
        ensures
            r@ == (ChatCompletionDraft { messages: self@.messages + messages@, ..self@ }),
    {
        let mut builder = self;
        let mut messages = messages;
        builder.messages.append(&mut messages);
        builder
    }

    /// Adds a system message.
    pub fn system_message(self, content: &str) -> (r: ChatCompletionBuilder)
        ensures
            r@.has_message_added(self@, Role::System, content@),
    {
        let mut builder = self;
        builder.messages.push(ChatMessage::system(content));
        assert(builder.messages@.drop_last() =~= self.messages@);
        builder
    }

    /// Adds a user message.
    pub fn user_message(self, content: &str) -> (r: ChatCompletionBuilder)
        ensures
            r@.has_message_added(self@, Role::User, content@),
    {
        let mut builder = self;
        builder.messages.push(ChatMessage::user(content));
        assert(builder.messages@.drop_last() =~= self.messages@);
        builder
    }

    /// Adds an assistant message.
    pub fn assistant_message(self, content: &str) -> (r: ChatCompletionBuilder)
        ensures
            r@.has_message_added(self@, Role::Assistant, content@),
    {
        let mut builder = self;
        builder.messages.push(ChatMessage::assistant(content));
        assert(builder.messages@.drop_last() =~= self.messages@);
        builder
    }

    /// Sets the greatest number of tokens to generate.
    pub fn max_tokens(self, max_tokens: u32) -> (r: ChatCompletionBuilder)
        ensures
            r@ == (ChatCompletionDraft { max_tokens: Some(max_tokens), ..self@ }),
    {
        let mut builder = self;
        builder.max_tokens = Some(max_tokens);
        builder
    }

    /// Sets the sampling temperature.
    pub fn temperature(self, temperature: Scalar) -> (r: ChatCompletionBuilder)
        ensures
            r@ == (ChatCompletionDraft { temperature: Some(temperature), ..self@ }),
    {
        let mut builder = self;
        builder.temperature = Some(temperature);
        builder
    }

    /// Sets the nucleus sampling parameter.
    pub fn top_p(self, top_p: Scalar) -> (r: ChatCompletionBuilder)
        ensures
            r@ == (ChatCompletionDraft { top_p: Some(top_p), ..self@ }),
    {
        let mut builder = self;
        builder.top_p = Some(top_p);
        builder
    }

    /// Asks for a streamed answer, or for a complete one.
    pub fn stream(self, stream: bool) -> (r: ChatCompletionBuilder)
        ensures
            r@ == (ChatCompletionDraft { stream: Some(stream), ..self@ }),
    {
        let mut builder = self;
        builder.stream = Some(stream);
        builder
    }

    /// Sets the stop sequences.
    pub fn stop(self, stop: Vec<String>) -> (r: ChatCompletionBuilder)
        ensures
            r@ == (ChatCompletionDraft { stop: Some(stop@), ..self@ }),
    {
        let mut builder = self;
        builder.stop = Some(stop);
        builder
    }

    /// Adds one stop sequence.
    pub fn stop_sequence(self, sequence: &str) -> (r: ChatCompletionBuilder)
        ensures
            r@ == (ChatCompletionDraft { stop: r@.stop, ..self@ }),
            r@.stop matches Some(list) && list.len() == elements(self@.stop).len() + 1
                && list.drop_last() == elements(self@.stop) && list.last()@ == sequence@,
    {
        let mut builder = self;
        let mut list = match builder.stop {
            Some(list) => list,
            None => Vec::new(),
        };
        list.push(sequence.to_owned());
        assert(list@.drop_last() =~= elements(self@.stop));
        builder.stop = Some(list);
        builder
    }

    /// Sets the form that the answer is asked to take.
    pub fn response_format(self, format: ResponseFormat) -> (r: ChatCompletionBuilder)
        ensures
            r@ == (ChatCompletionDraft { response_format: Some(format), ..self@ }),
    {
        let mut builder = self;
        builder.response_format = Some(format);
        builder
    }

    /// Asks for an answer that meets the given JSON schema.
    pub fn json_response_with_schema(self, schema: JsonSchema) -> (r: ChatCompletionBuilder)
        ensures
            r@ == (ChatCompletionDraft {
                response_format: Some(
                    ResponseFormat {
                        format_type: Some(response_format::Type::JsonSchema),
                        json_schema: Some(schema),
                    },
                ),
                ..self@
            }),
    {
        let mut builder = self;
        builder.response_format = Some(
            ResponseFormat {
                format_type: Some(response_format::Type::JsonSchema),
                json_schema: Some(schema),
            },
        );
        builder
    }

    /// Asks for an answer that meets the JSON schema of the given name.
    pub fn json_schema(self, name: &str, schema: serde_json::Value, strict: bool) -> (r:
        ChatCompletionBuilder)
        ensures
            r@.asks_for_schema(self@, name@, schema, strict),
    {
        let mut builder = self;
        builder.response_format = Some(
            ResponseFormat {
                format_type: Some(response_format::Type::JsonSchema),
                json_schema: Some(
                    JsonSchema {
                        name: Some(name.to_owned()),
                        schema: Some(schema),
                        strict: Some(strict),
                    },
                ),
            },
        );
        builder
    }

    /// Sets the tools that the model may call.
    pub fn tools(self, tools: Vec<Tool>) -> (r: ChatCompletionBuilder)
        ensures
            r@ == (ChatCompletionDraft { tools: Some(tools@), ..self@ }),
    {
        let mut builder = self;
        builder.tools = Some(tools);
        builder
    }

    /// Adds one tool that the model may call.
    pub fn tool(self, tool: Tool) -> (r: ChatCompletionBuilder)
        ensures
            r@ == (ChatCompletionDraft { tools: Some(elements(self@.tools).push(tool)), ..self@ }),
    {
        let mut builder = self;
        let mut list = match builder.tools {
            Some(list) => list,
            None => Vec::new(),
        };
        list.push(tool);
        builder.tools = Some(list);
        builder
    }

    /// Sets which tool the model has to call.
    pub fn tool_choice(self, choice: ToolChoiceOption) -> (r: ChatCompletionBuilder)
        ensures
            r@ == (ChatCompletionDraft { tool_choice: Some(choice), ..self@ }),
    {
        let mut builder = self;
        builder.tool_choice = Some(choice);
        builder
    }

    /// The request: what the builder holds, with a list of one stop
    /// sequence given as that one sequence.
    pub fn build(self) -> (r: ChatCompletionRequest)
        ensures
            r.model == self@.model,
            r.messages@ == self@.messages,
            r.max_tokens == self@.max_tokens,
            r.temperature == self@.temperature,
            r.top_p == self@.top_p,
            r.stream == self@.stream,
            is_stop_of(r.stop, self@.stop),
            r.response_format == self@.response_format,
            match r.tools {
                Some(list) => self@.tools == Some(list@),
                None => self@.tools is None,
            },
            r.tool_choice == self@.tool_choice,
    {
        ChatCompletionRequest {
            model: self.model,
            messages: self.messages,
            max_tokens: self.max_tokens,
            temperature: self.temperature,
            top_p: self.top_p,
            stream: self.stream,
            stop: stop_condition(self.stop),
            response_format: self.response_format,
            tools: self.tools,
            tool_choice: self.tool_choice,
        }
    }
}

impl ChatCompletionRequest {
    /// A builder for a request to the given model.
    pub fn builder(model: ModelIdentifier) -> (r: ChatCompletionBuilder)
        ensures
            r@ == (ChatCompletionDraft {
                model,
                messages: Seq::empty(),
                max_tokens: None,
                temperature: None,
                top_p: None,
                stream: None,
                stop: None,
                response_format: None,
                tools: None,
                tool_choice: None,
            }),
    {
        ChatCompletionBuilder::new(model)
    }
}

} // verus!
