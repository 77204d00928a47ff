//! The models that the API offers.

use crate::models::model::Model;
use vstd::prelude::*;

verus! {

/// The kind of record that a list of models is.
#[derive(Clone, Copy, Debug, PartialEq, Eq, Hash)]
pub enum Object {
    List,
}

/// The models that the API offers.
#[derive(Clone, Debug, PartialEq, Eq)]
pub struct ModelList {
    pub object: Option<Object>,
    pub data: Option<Vec<Model>>,
}

} // verus!
