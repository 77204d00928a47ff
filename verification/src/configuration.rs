//! Where the API is and how the client shows who it is.

use vstd::prelude::*;

verus! {

/// The settings of a client.
#[derive(Clone, Debug, PartialEq, Eq)]
pub struct Configuration {
    /// The address that the paths of the API are appended to.
    pub base_path: String,
    /// The API key, sent as a bearer token.
    pub bearer_access_token: Option<String>,
}

impl Configuration {
    /// The address of the hosted API.
    pub open spec fn default_base_path() -> Seq<char> {
        "https://api.cerebras.ai/v1"@
    }

    /// The settings for the hosted API, without an API key.
    pub fn new() -> (r: Configuration)
        ensures
            r.base_path@ == Configuration::default_base_path(),
            r.bearer_access_token is None,
    {
        Configuration { base_path: "https://api.cerebras.ai/v1".to_owned(), bearer_access_token: None }
    }
}

impl Default for Configuration {
    fn default() -> (r: Configuration)
        ensures
            r.base_path@ == Configuration::default_base_path(),
            r.bearer_access_token is None,
    {
        Configuration::new()
    }
}

} // verus!
