//! The names of the models.

use crate::error::{Error, ErrorView};
use crate::text::same_text;
use vstd::prelude::*;

verus! {

/// A model of the hosted API.
#[derive(Clone, Copy, Debug, PartialEq, Eq, Hash)]
pub enum ModelIdentifier {
    Llama3Period18b,
    DeepseekR1DistillLlama70b,
}

/// The model of the given name on the wire, if there is one.
pub open spec fn model_named(name: Seq<char>) -> Option<ModelIdentifier> {
    if name == "llama3.1-8b"@ {
        Some(ModelIdentifier::Llama3Period18b)
    } else if name == "deepseek-r1-distill-llama-70b"@ {
        Some(ModelIdentifier::DeepseekR1DistillLlama70b)
    } else {
        None
    }
}

impl ModelIdentifier {
    /// The name of the model on the wire.
    pub open spec fn spec_as_str(self) -> Seq<char> {
        match self {
            ModelIdentifier::Llama3Period18b => "llama3.1-8b"@,
            ModelIdentifier::DeepseekR1DistillLlama70b => "deepseek-r1-distill-llama-70b"@,
        }
    }

    /// The name of the model on the wire.
    pub fn as_str(self) -> (r: &'static str)
        ensures
            r@ == self.spec_as_str(),
    {
        match self {
            ModelIdentifier::Llama3Period18b => "llama3.1-8b",
            ModelIdentifier::DeepseekR1DistillLlama70b => "deepseek-r1-distill-llama-70b",
        }
    }

    /// The model of the given name on the wire. A name that no model has is
    /// refused, and the error carries it.
    pub fn from_name(name: &str) -> (r: Result<ModelIdentifier, Error>)
        ensures
            match model_named(name@) {
                Some(model) => r == Ok::<_, Error>(model),
                None => r matches Err(error) && error@ == ErrorView::InvalidModel(name@),
            },
    {
        if same_text(name, "llama3.1-8b") {
            Ok(ModelIdentifier::Llama3Period18b)
        } else if same_text(name, "deepseek-r1-distill-llama-70b") {
            Ok(ModelIdentifier::DeepseekR1DistillLlama70b)
        } else {
            Err(Error::InvalidModel(name.to_owned()))
        }
    }
}

/// Every model is the one that its name stands for.
pub proof fn law_model_names_round_trip(model: ModelIdentifier)
    ensures
        model_named(model.spec_as_str()) == Some(model),
{
    reveal_strlit("llama3.1-8b");
    reveal_strlit("deepseek-r1-distill-llama-70b");
    assert("llama3.1-8b"@.len() != "deepseek-r1-distill-llama-70b"@.len());
}

} // verus!
