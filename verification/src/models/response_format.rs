//! The form that an answer is asked to take.

use vstd::prelude::*;

verus! {

/// The kinds of form.
#[derive(Clone, Copy, Debug, PartialEq, Eq, Hash)]
pub enum Type {
    Text,
    JsonObject,
    JsonSchema,
}

/// A JSON schema that an answer has to meet.
#[derive(Clone, Debug, PartialEq)]
pub struct JsonSchema {
    pub name: Option<String>,
    pub schema: Option<serde_json::Value>,
    pub strict: Option<bool>,
}

/// The form that an answer is asked to take.
#[derive(Clone, Debug, PartialEq)]
pub struct ResponseFormat {
    pub format_type: Option<Type>,
    pub json_schema: Option<JsonSchema>,
}

} // verus!
