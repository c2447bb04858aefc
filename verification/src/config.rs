//! The bot's configuration: two secrets, handed over once at start-up.

use vstd::prelude::*;

verus! {

/// What the bot needs to run.
#[derive(Clone, Debug)]
pub struct Config {
    /// The token that opens the chat platform's session.
    pub chat_token: String,
    /// The key that the statistics service asks for.
    pub api_key: String,
}

/// A secret that was not provided.
#[derive(Clone, Copy, Debug, PartialEq, Eq, Structural)]
pub enum ConfigError {
    MissingChatToken,
    MissingApiKey,
}

impl Config {
    /// Takes the two secrets as they were found. Both must be there; where
    /// both are missing, the chat token is the one reported.
    pub fn new(chat_token: Option<String>, api_key: Option<String>) -> (r: Result<
        Config,
        ConfigError,
    >)
        ensures
            match (chat_token, api_key) {
                (Some(token), Some(key)) => r is Ok && r->Ok_0.chat_token@ == token@
                    && r->Ok_0.api_key@ == key@,
                (None, _) => r == Err::<Config, ConfigError>(ConfigError::MissingChatToken),
                (Some(_), None) => r == Err::<Config, ConfigError>(ConfigError::MissingApiKey),
            },
    {
        match chat_token {
            None => Err(ConfigError::MissingChatToken),
            Some(token) => match api_key {
                None => Err(ConfigError::MissingApiKey),
                Some(key) => Ok(Config { chat_token: token, api_key: key }),
            },
        }
    }
}

} // verus!
