//! The configuration of a test run, read from the environment.
use crate::init::url::{parse_url, url_parsed};
use vstd::prelude::*;

verus! {

/// The user, password and API endpoint (`TEST_USER`, `TEST_PASSWORD`,
/// `API_URL`) of a test run.
#[derive(Clone, Debug)]
pub struct Config {
    pub user: String,
    pub password: String,
    /// The serialization of the parsed API URL.
    pub api: String,
}

/// Why the configuration could not be read.
#[derive(Clone, Debug, PartialEq, Eq)]
pub enum ConfigError {
    /// The named environment variable is not set.
    MissingVariable(String),
    /// `API_URL` is not a URL.
    InvalidApiUrl,
}

impl Config {
    /// The configuration from the values of `TEST_USER`, `TEST_PASSWORD`
    /// and `API_URL` (`None` where a variable is not set). The variables are
    /// checked in that order; the API URL must parse.
    pub fn new(user: Option<String>, password: Option<String>, api: Option<String>) -> (r: Result<
        Config,
        ConfigError,
    >)
        ensures
            user is None ==> (r matches Err(ConfigError::MissingVariable(v)) && v@
                == "TEST_USER"@),
            user is Some && password is None ==> (r matches Err(ConfigError::MissingVariable(v))
                && v@ == "TEST_PASSWORD"@),
            user is Some && password is Some && api is None ==> (r matches Err(
                ConfigError::MissingVariable(v),
            ) && v@ == "API_URL"@),
            user is Some && password is Some && api is Some && url_parsed(api->0@) is None ==> r
                == Err::<Config, ConfigError>(ConfigError::InvalidApiUrl),
            r matches Ok(c) ==> {
                &&& user == Some(c.user)
                &&& password == Some(c.password)
                &&& api is Some && url_parsed(api->0@) == Some(c.api@)
            },
            user is Some && password is Some && api is Some && url_parsed(api->0@) is Some ==> r
                is Ok,
    {
        let user = match user {
            Some(u) => u,
            None => {
                return Err(ConfigError::MissingVariable(String::from_str("TEST_USER")));
            },
        };
        let password = match password {
            Some(p) => p,
            None => {
                return Err(ConfigError::MissingVariable(String::from_str("TEST_PASSWORD")));
            },
        };
        let api = match api {
            Some(a) => a,
            None => {
                return Err(ConfigError::MissingVariable(String::from_str("API_URL")));
            },
        };
        match parse_url(api.as_str()) {
            Some(u) => Ok(Config { user, password, api: u }),
            None => Err(ConfigError::InvalidApiUrl),
        }
    }
}

} // verus!
