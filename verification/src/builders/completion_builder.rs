//! Building a request for a text completion step by step.

use crate::builders::chat_completion_builder::elements;
use crate::models::completion_request::CompletionRequest;
use crate::models::model_identifier::ModelIdentifier;
use crate::models::prompt::Prompt;
use crate::models::scalar::Scalar;
use crate::models::stop_condition::{is_stop_of, stop_condition};
use crate::text::{join, joined, views};
use vstd::prelude::*;

verus! {

/// A request for a text completion in the making.
#[derive(Debug, Clone)]
pub struct CompletionBuilder {
    model: ModelIdentifier,
    prompt: Option<Prompt>,
    max_tokens: Option<u32>,
    temperature: Option<Scalar>,
    top_p: Option<Scalar>,
    stream: Option<bool>,
    stop: Option<Vec<String>>,
    return_raw_tokens: Option<bool>,
}

/// What a builder holds.
pub struct CompletionDraft {
    pub model: ModelIdentifier,
    pub prompt: Option<Prompt>,
    pub max_tokens: Option<u32>,
    pub temperature: Option<Scalar>,
    pub top_p: Option<Scalar>,
    pub stream: Option<bool>,
    pub stop: Option<Seq<String>>,
    pub return_raw_tokens: Option<bool>,
}

impl View for CompletionBuilder {
    type V = CompletionDraft;

    closed spec fn view(&self) -> CompletionDraft {
        CompletionDraft {
            model: self.model,
            prompt: self.prompt,
            max_tokens: self.max_tokens,
            temperature: self.temperature,
            top_p: self.top_p,
            stream: self.stream,
            stop: match self.stop {
                Some(list) => Some(list@),
                None => None,
            },
            return_raw_tokens: self.return_raw_tokens,
        }
    }
}

impl CompletionDraft {
    /// Whether the draft differs from the one before in its prompt alone,
    /// which is the given text.
    pub open spec fn has_prompt_set(self, before: CompletionDraft, text: Seq<char>) -> bool {
        &&& self == (CompletionDraft { prompt: self.prompt, ..before })
        &&& self.prompt matches Some(Prompt::String(prompt))
        &&& prompt@ == text
    }
}

impl CompletionBuilder {
    /// A builder for a request to the given model, with nothing else set.
    pub fn new(model: ModelIdentifier) -> (r: CompletionBuilder)
        ensures
            r@ == (CompletionDraft {
                model,
                prompt: None,
                max_tokens: None,
                temperature: None,
                top_p: None,
                stream: None,
                stop: None,
                return_raw_tokens: None,
            }),
    {
        CompletionBuilder {
            model,
            prompt: None,
            max_tokens: None,
            temperature: None,
            top_p: None,
            stream: None,
            stop: None,
            return_raw_tokens: None,
        }
    }

    /// Sets the prompt.
    pub fn prompt(self, prompt: &str) -> (r: CompletionBuilder)
        ensures
            r@.has_prompt_set(self@, prompt@),
    {
        let mut builder = self;
        builder.prompt = Some(Prompt::String(prompt.to_owned()));
        builder
    }

    /// Sets the prompt to the given texts, one per line.
    pub fn prompts(self, prompts: Vec<String>) -> (r: CompletionBuilder)
        ensures
            r@.has_prompt_set(self@, joined(views(prompts@), "\n"@)),
    {
        let mut builder = self;
        builder.prompt = Some(Prompt::String(join(&prompts, "\n")));
        builder
    }

    /// Sets the greatest number of tokens to generate.
    pub fn max_tokens(self, max_tokens: u32) -> (r: CompletionBuilder)
        ensures
            r@ == (CompletionDraft { max_tokens: Some(max_tokens), ..self@ }),
    {
        let mut builder = self;
        builder.max_tokens = Some(max_tokens);
        builder
    }

    /// Sets the sampling temperature.
    pub fn temperature(self, temperature: Scalar) -> (r: CompletionBuilder)
        ensures
            r@ == (CompletionDraft { temperature: Some(temperature), ..self@ }),
    {
        let mut builder = self;
        builder.temperature = Some(temperature);
        builder
    }

    /// Sets the nucleus sampling parameter.
    pub fn top_p(self, top_p: Scalar) -> (r: CompletionBuilder)
        ensures
            r@ == (CompletionDraft { top_p: Some(top_p), ..self@ }),
    {
        let mut builder = self;
        builder.top_p = Some(top_p);
        builder
    }

    /// Asks for a streamed answer, or for a complete one.
    pub fn stream(self, stream: bool) -> (r: CompletionBuilder)
        ensures
            r@ == (CompletionDraft { stream: Some(stream), ..self@ }),
    {
        let mut builder = self;
        builder.stream = Some(stream);
        builder
    }

    /// Sets the stop sequences.
    pub fn stop(self, stop: Vec<String>) -> (r: CompletionBuilder)
        ensures
            r@ == (CompletionDraft { stop: Some(stop@), ..self@ }),
    {
        let mut builder = self;
        builder.stop = Some(stop);
        builder
    }

    /// Adds one stop sequence.
    pub fn stop_sequence(self, sequence: &str) -> (r: CompletionBuilder)
        ensures
            r@ == (CompletionDraft { stop: r@.stop, ..self@ }),
            r@.stop matches Some(list) && list.len() == elements(self@.stop).len() + 1
                && list.drop_last() == elements(self@.stop) && list.last()@ == sequence@,
    {
        let mut builder = self;
        let mut list = match builder.stop {
            Some(list) => list,
            None => Vec::new(),
        };
        list.push(sequence.to_owned());
        assert(list@.drop_last() =~= elements(self@.stop));
        builder.stop = Some(list);
        builder
    }

    /// Asks for raw tokens in place of text.
    pub fn return_raw_tokens(self, return_raw: bool) -> (r: CompletionBuilder)
        ensures
            r@ == (CompletionDraft { return_raw_tokens: Some(return_raw), ..self@ }),
    {
        let mut builder = self;
        builder.return_raw_tokens = Some(return_raw);
        builder
    }

    /// The request: what the builder holds, with the empty text for a
    /// prompt that was never set, and a list of one stop sequence given as
    /// that one sequence.
    pub fn build(self) -> (r: CompletionRequest)
        ensures
            r.model == self@.model,
            match self@.prompt {
                Some(prompt) => r.prompt == prompt,
                None => r.prompt matches Prompt::String(text) && text@.len() == 0,
            },
            r.max_tokens == self@.max_tokens,
            r.temperature == self@.temperature,
            r.top_p == self@.top_p,
            r.stream == self@.stream,
            is_stop_of(r.stop, self@.stop),
            r.return_raw_tokens == self@.return_raw_tokens,
    {
        CompletionRequest {
            model: self.model,
            prompt: match self.prompt {
                Some(prompt) => prompt,
                None => Prompt::String(String::new()),
            },
            max_tokens: self.max_tokens,
            temperature: self.temperature,
            top_p: self.top_p,
            stream: self.stream,
            stop: stop_condition(self.stop),
            return_raw_tokens: self.return_raw_tokens,
        }
    }
}

impl CompletionRequest {
    /// A builder for a request to the given model.
    pub fn builder(model: ModelIdentifier) -> (r: CompletionBuilder)
        ensures
            r@ == (CompletionDraft {
                model,
                prompt: None,
                max_tokens: None,
                temperature: None,
                top_p: None,
                stream: None,
                stop: None,
                return_raw_tokens: None,
            }),
    {
        CompletionBuilder::new(model)
    }
}

} // verus!
