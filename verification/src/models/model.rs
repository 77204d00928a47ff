//! A model that the API offers.

use vstd::prelude::*;

verus! {

/// The kind of record that a model is.
#[derive(Clone, Copy, Debug, PartialEq, Eq, PartialOrd, Ord, Hash)]
pub enum Object {
    Model,
}

impl Default for Object {
    fn default() -> (r: Object)
        ensures
            r == Object::Model,
    {
        Object::Model
    }
}

/// A model that the API offers.
#[derive(Clone, Debug, PartialEq, Eq)]
pub struct Model {
    /// The model identifier.
    pub id: Option<String>,
    pub object: Option<Object>,
    /// When the model was created, in seconds since the Unix epoch.
    pub created: Option<i32>,
    /// The organization that owns the model.
    pub owned_by: Option<String>,
}

impl Model {
    /// A record with nothing set.
    pub fn new() -> (r: Model)
        ensures
            r.id is None,
            r.object is None,
            r.created is None,
            r.owned_by is None,
    {
        Model { id: None, object: None, created: None, owned_by: None }
    }
}

impl Default for Model {
    fn default() -> (r: Model)
        ensures
            r.id is None,
            r.object is None,
            r.created is None,
            r.owned_by is None,
    {
        Model::new()
    }
}

} // verus!
