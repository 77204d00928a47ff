//! The tools that a model may call.

use std::collections::HashMap;
use vstd::prelude::*;

verus! {

/// The kinds of tool.
#[derive(Clone, Copy, Debug, PartialEq, Eq, Hash)]
pub enum Type {
    Function,
}

/// A function that the model may call.
#[derive(Clone, Debug, PartialEq)]
pub struct FunctionDefinition {
    pub name: String,
    pub description: Option<String>,
    pub parameters: Option<HashMap<String, serde_json::Value>>,
}

impl FunctionDefinition {
    /// A function of the given name, without description or parameters.
    pub fn new(name: String) -> (r: FunctionDefinition)
        ensures
            r.name == name,
            r.description is None,
            r.parameters is None,
    {
        FunctionDefinition { name, description: None, parameters: None }
    }
}

/// A tool that the model may call.
#[derive(Clone, Debug, PartialEq)]
pub struct Tool {
    pub tool_type: Option<Type>,
    pub function: Option<FunctionDefinition>,
}

/// The name of the function that the model has to call.
#[derive(Clone, Debug, PartialEq, Eq)]
pub struct FunctionName {
    pub name: Option<String>,
}

/// Which tool the model has to call: a policy by name, or one function.
#[derive(Clone, Debug, PartialEq, Eq)]
pub enum ToolChoiceOption {
    String(String),
    FunctionName(FunctionName),
}

} // verus!
