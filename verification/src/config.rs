//! The settings of the process: read once at startup, then only read.

use vstd::prelude::*;

verus! {

/// The settings every component reads. All three are required.
#[derive(Debug, Clone, PartialEq, Eq)]
pub struct Config {
    /// Where the model provider's API lives, without a trailing path.
    pub api_base_url: String,
    /// The secret that authorises requests to the model provider.
    pub openai_api_key: String,
    /// The secret that bearer tokens are signed with.
    pub jwt_secret: String,
}

/// A required setting that was not given.
#[derive(Debug, Clone, Copy, PartialEq, Eq, Structural)]
pub enum MissingSetting {
    ApiBaseUrl,
    OpenaiApiKey,
    JwtSecret,
}

impl Config {
    /// Builds the settings from what the environment gave.
    ///
    /// Succeeds exactly if all three values are there, and then holds them unchanged. Otherwise
    /// names the first that is missing, in the order base URL, API key, signing secret.
    pub fn load(
        api_base_url: Option<String>,
        openai_api_key: Option<String>,
        jwt_secret: Option<String>,
    ) -> (loaded: Result<Config, MissingSetting>)
        ensures
            match loaded {
                Ok(config) => {
                    &&& api_base_url == Some(config.api_base_url)
                    &&& openai_api_key == Some(config.openai_api_key)
                    &&& jwt_secret == Some(config.jwt_secret)
                },
                Err(MissingSetting::ApiBaseUrl) => api_base_url is None,
                Err(MissingSetting::OpenaiApiKey) => api_base_url is Some && openai_api_key
                    is None,
                Err(MissingSetting::JwtSecret) => api_base_url is Some && openai_api_key is Some
                    && jwt_secret is None,
            },
    {
        match api_base_url {
            None => Err(MissingSetting::ApiBaseUrl),
            Some(api_base_url) => match openai_api_key {
                None => Err(MissingSetting::OpenaiApiKey),
                Some(openai_api_key) => match jwt_secret {
                    None => Err(MissingSetting::JwtSecret),
                    Some(jwt_secret) => Ok(Config { api_base_url, openai_api_key, jwt_secret }),
                },
            },
        }
    }
}

} // verus!
