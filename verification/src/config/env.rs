use crate::utils::text::{trim, trimmed};
use vstd::prelude::*;

verus! {

/// What a run needs to know before its first call: the key, and the model to
/// ask where none is named.
pub struct Config {
    pub api_key: String,
    pub default_model: String,
}

/// Why there is no configuration.
#[derive(Debug, Clone, Copy, PartialEq, Eq, Structural)]
pub enum ConfigError {
    /// No key was supplied.
    NotSet,
    /// The key that was supplied is nothing but white space.
    Empty,
}

impl ConfigError {
    pub open spec fn message(self) -> Seq<char> {
        match self {
            ConfigError::NotSet => "OPENAI_API_KEY environment variable not set"@,
            ConfigError::Empty => "OPENAI_API_KEY environment variable is empty"@,
        }
    }

    /// The complaint, for a person to read.
    pub fn to_string(&self) -> (text: String)
        ensures
            text@ == self.message(),
    {
        match self {
            ConfigError::NotSet => "OPENAI_API_KEY environment variable not set".to_owned(),
            ConfigError::Empty => "OPENAI_API_KEY environment variable is empty".to_owned(),
        }
    }
}

impl Config {
    /// The configuration that goes with the value of the key variable, where
    /// `None` stands for a variable that is not set. A key is taken as it
    /// stands, white space at its ends included; one that is white space
    /// only is refused.
    pub fn from_key(value: Option<String>) -> (outcome: Result<Config, ConfigError>)
        ensures
            value is None ==> outcome == Err::<Config, ConfigError>(ConfigError::NotSet),
            value is Some && trimmed(value->0@).len() == 0 ==> outcome == Err::<
                Config,
                ConfigError,
            >(ConfigError::Empty),
            value is Some && trimmed(value->0@).len() > 0 ==> outcome is Ok && outcome->Ok_0.api_key
                == value->0 && outcome->Ok_0.default_model@ == "gpt-4o-mini"@,
    {
        let api_key = match value {
            Some(key) => key,
            None => { return Err(ConfigError::NotSet); },
        };
        if trim(api_key.as_str()).is_empty() {
            return Err(ConfigError::Empty);
        }
        Ok(Config { api_key, default_model: "gpt-4o-mini".to_owned() })
    }

    pub fn api_key(&self) -> (key: &str)
        ensures
            key@ == self.api_key@,
    {
        self.api_key.as_str()
    }

    pub fn default_model(&self) -> (model: &str)
        ensures
            model@ == self.default_model@,
    {
        self.default_model.as_str()
    }
}

} // verus!
