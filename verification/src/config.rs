//! Where the API is and how to authenticate to it.

use vstd::prelude::*;
use crate::text::owned;

verus! {

/// The API root used when none is configured.
pub open spec fn default_base_url() -> Seq<char> {
    "http://localhost:5000"@
}

/// The client's settings.
pub struct Config {
    pub base_url: String,
    pub api_token: String,
}

/// Why no configuration could be made.
#[derive(Debug, Clone, Copy, PartialEq, Eq, Structural)]
pub enum ConfigError {
    /// No API token was given.
    MissingToken,
}

impl ConfigError {
    /// The text that reports the error.
    pub fn message(&self) -> (r: String)
        ensures
            r@ == "MACRONX_API_TOKEN must be set"@,
    {
        owned("MACRONX_API_TOKEN must be set")
    }
}

impl Config {
    /// The settings from the values of `MACRONX_API_URL` and
    /// `MACRONX_API_TOKEN` (`None` where a variable is unset or not
    /// Unicode): the URL defaults to `http://localhost:5000`, the token is
    /// required.
    pub fn from_values(base_url: Option<String>, api_token: Option<String>) -> (r: Result<Config, ConfigError>)
        ensures
            api_token is None <==> r is Err,
            r matches Ok(c) ==> c.api_token@ == api_token->0@,
            r matches Ok(c) ==> c.base_url@ == (match base_url {
                Some(u) => u@,
                None => default_base_url(),
            }),
    {
        let token = match api_token {
            Some(t) => t,
            None => {
                return Err(ConfigError::MissingToken);
            },
        };
        let url = match base_url {
            Some(u) => u,
            None => owned("http://localhost:5000"),
        };
        Ok(Config { base_url: url, api_token: token })
    }
}

} // verus!
