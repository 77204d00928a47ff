//! What a text completion continues.

use vstd::prelude::*;

verus! {

/// The prompt of a text completion: one text, or a list.
#[derive(Clone, Debug, PartialEq, Eq)]
pub enum Prompt {
    String(String),
    Array(Vec<String>),
}

} // verus!
