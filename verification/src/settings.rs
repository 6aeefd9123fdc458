//! The options that the process needs before any pipeline can run.

use vstd::prelude::*;
use vstd::string::StringExecFns;

verus! {

/// A required option, read from the environment.
#[derive(Clone, Copy, Debug, PartialEq, Eq, Structural)]
pub enum Setting {
    /// The API key of the model provider.
    OpenAiApiKey,
    /// The address of the vector store.
    QdrantUrl,
    /// The API key of the vector store.
    QdrantApiKey,
}

impl Setting {
    /// The name of the environment variable that holds the option.
    pub open spec fn name_of(self) -> Seq<char> {
        match self {
            Setting::OpenAiApiKey => "OPENAI_API_KEY"@,
            Setting::QdrantUrl => "QDRANT_URL"@,
            Setting::QdrantApiKey => "QDRANT_API_KEY"@,
        }
    }

    /// The name of the environment variable that holds the option.
    pub fn name(&self) -> (name: &'static str)
        ensures
            name@ == self.name_of(),
    {
        match self {
            Setting::OpenAiApiKey => "OPENAI_API_KEY",
            Setting::QdrantUrl => "QDRANT_URL",
            Setting::QdrantApiKey => "QDRANT_API_KEY",
        }
    }
}

/// A required option is not set. Start-up cannot go on.
#[derive(Clone, Copy, Debug, PartialEq, Eq, Structural)]
pub struct ConfigurationError {
    pub missing: Setting,
}

impl ConfigurationError {
    /// The diagnostic: the variable's name, and that it is not set.
    pub open spec fn message_of(self) -> Seq<char> {
        self.missing.name_of() + " is not set"@
    }

    /// The diagnostic: the variable's name, and that it is not set.
    pub fn message(&self) -> (text: String)
        ensures
            text@ == self.message_of(),
    {
        let mut text = String::from_str(self.missing.name());
        text.append(" is not set");
        text
    }
}

/// The options of a process that can start.
#[derive(Debug)]
pub struct Settings {
    pub openai_api_key: String,
    pub qdrant_url: String,
    pub qdrant_api_key: String,
}

/// The first option that is not set, in the order in which start-up needs
/// them: the store's key, the store's address, the provider's key.
pub open spec fn first_missing(
    openai_api_key: Option<String>,
    qdrant_url: Option<String>,
    qdrant_api_key: Option<String>,
) -> Option<Setting> {
    if qdrant_api_key is None {
        Some(Setting::QdrantApiKey)
    } else if qdrant_url is None {
        Some(Setting::QdrantUrl)
    } else if openai_api_key is None {
        Some(Setting::OpenAiApiKey)
    } else {
        None
    }
}

impl Settings {
    /// The settings from what the environment holds of each option.
    ///
    /// All three are required: the result is the error that names the first
    /// missing one, or the values as they are.
    pub fn resolve(
        openai_api_key: Option<String>,
        qdrant_url: Option<String>,
        qdrant_api_key: Option<String>,
    ) -> (resolved: Result<Settings, ConfigurationError>)
        ensures
            match first_missing(openai_api_key, qdrant_url, qdrant_api_key) {
                Some(missing) => resolved == Err::<Settings, ConfigurationError>(
                    ConfigurationError { missing },
                ),
                None => {
                    &&& resolved matches Ok(settings)
                    &&& Some(settings.openai_api_key) == openai_api_key
                    &&& Some(settings.qdrant_url) == qdrant_url
                    &&& Some(settings.qdrant_api_key) == qdrant_api_key
                },
            },
    {
        let qdrant_api_key = match qdrant_api_key {
            Some(value) => value,
            None => return Err(ConfigurationError { missing: Setting::QdrantApiKey }),
        };
        let qdrant_url = match qdrant_url {
            Some(value) => value,
            None => return Err(ConfigurationError { missing: Setting::QdrantUrl }),
        };
        let openai_api_key = match openai_api_key {
            Some(value) => value,
            None => return Err(ConfigurationError { missing: Setting::OpenAiApiKey }),
        };
        Ok(Settings { openai_api_key, qdrant_url, qdrant_api_key })
    }
}

} // verus!
