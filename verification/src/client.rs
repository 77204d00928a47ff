//! The client: the settings that every call of the API goes by.

use crate::configuration::Configuration;
use crate::error::{Error, ErrorView};
use vstd::prelude::*;

verus! {

/// A client of the API.
#[derive(Clone, Debug)]
pub struct Client {
    configuration: Configuration,
}

impl Client {
    /// The settings of the client.
    pub closed spec fn spec_configuration(self) -> Configuration {
        self.configuration
    }

    /// Whether the client is one of the hosted API with the given API key.
    pub open spec fn is_hosted(self, api_key: Seq<char>) -> bool {
        &&& self.spec_configuration().base_path@ == Configuration::default_base_path()
        &&& self.spec_configuration().bearer_access_token matches Some(token)
        &&& token@ == api_key
    }

    /// A client of the hosted API with the given API key.
    pub fn new(api_key: &str) -> (r: Client)
        ensures
            r.is_hosted(api_key@),
    {
        let mut configuration = Configuration::new();
        configuration.bearer_access_token = Some(api_key.to_owned());
        Client { configuration }
    }

    /// A client with the API key that the environment holds under
    /// `CEREBRAS_API_KEY`, given as the value found there. Without a value
    /// there is no client.
    pub fn from_env_value(value: Option<String>) -> (r: Result<Client, Error>)
        ensures
            match value {
                Some(key) => r matches Ok(client) && client.is_hosted(key@),
                None => r matches Err(error) && error@ == ErrorView::Configuration(
                    "CEREBRAS_API_KEY environment variable not set"@,
                ),
            },
    {
        match value {
            Some(key) => Ok(Client::new(key.as_str())),
            None => Err(
                Error::Configuration("CEREBRAS_API_KEY environment variable not set".to_owned()),
            ),
        }
    }

    /// A client with the given settings.
    pub fn with_configuration(configuration: Configuration) -> (r: Client)
        ensures
            r.spec_configuration() == configuration,
    {
        Client { configuration }
    }

    /// The same client for an API at another address.
    pub fn with_base_url(self, base_url: String) -> (r: Client)
        ensures
            r.spec_configuration().base_path == base_url,
            r.spec_configuration().bearer_access_token
                == self.spec_configuration().bearer_access_token,
    {
        let mut client = self;
        client.configuration.base_path = base_url;
        client
    }

    /// The settings of the client.
    pub fn configuration(&self) -> (r: &Configuration)
        ensures
            *r == self.spec_configuration(),
    {
        &self.configuration
    }
}

} // verus!
