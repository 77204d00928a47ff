//! A request for a text completion.

use crate::models::model_identifier::ModelIdentifier;
use crate::models::prompt::Prompt;
use crate::models::scalar::Scalar;
use crate::models::stop_condition::StopCondition;
use vstd::prelude::*;

verus! {

/// A request for a text completion.
#[derive(Clone, Debug, PartialEq)]
pub struct CompletionRequest {
    pub model: ModelIdentifier,
    pub prompt: Prompt,
    pub max_tokens: Option<u32>,
    pub temperature: Option<Scalar>,
    pub top_p: Option<Scalar>,
    pub stream: Option<bool>,
    pub stop: Option<StopCondition>,
    pub return_raw_tokens: Option<bool>,
}

impl CompletionRequest {
    /// The same request, asking for a streamed answer.
    pub fn streaming(self) -> (r: CompletionRequest)
        ensures
            r == (CompletionRequest { stream: Some(true), ..self }),
    {
        let mut request = self;
        request.stream = Some(true);
        request
    }
}

} // verus!
