//! Building a client from settings: the provider is chosen by a `format`, and
//! the settings that the provider knows become its configuration.

use crate::clients::{
    missing_variable, string_of, AmazonBedrockClient, BedrockClientView, Client,
    CohereClient, JinaClient, LlamafileClient, MixedbreadClient, NomicClient, OllamaClient,
    OllamaClientView, OpenAiClient, RestClientView, AWS_ACCESS_KEY_ID_ENV,
    AWS_SECRET_ACCESS_KEY_ENV, AWS_SESSION_TOKEN_ENV, DEFAULT_AWS_REGION,
    DEFAULT_COHERE_API_KEY_ENV, DEFAULT_COHERE_URL, DEFAULT_JINA_API_KEY_ENV, DEFAULT_JINA_URL,
    DEFAULT_LLAMAFILE_URL, DEFAULT_MIXEDBREAD_API_KEY_ENV, DEFAULT_MIXEDBREAD_URL,
    DEFAULT_NOMIC_API_KEY_ENV, DEFAULT_NOMIC_URL, DEFAULT_OLLAMA_URL, DEFAULT_OPENAI_API_KEY_ENV,
    DEFAULT_OPENAI_URL,
};
use crate::environment::Environment;
use crate::errors::{ConfigError, ConfigErrorKind, ConfigErrorView};
use crate::text::same_text;
use vstd::prelude::*;
use vstd::string::*;

verus! {

/// The settings that a client can be built from. Each provider takes those it
/// knows and leaves the others unread.
#[derive(Debug)]
pub struct ClientSettings {
    pub model: Option<String>,
    pub url: Option<String>,
    pub key: Option<String>,
    pub region: Option<String>,
    pub aws_access_key_id: Option<String>,
    pub aws_secret_access_key: Option<String>,
    pub aws_session_token: Option<String>,
}

/// The mathematical form of [`ClientSettings`].
pub struct SettingsView {
    pub model: Option<Seq<char>>,
    pub url: Option<Seq<char>>,
    pub key: Option<Seq<char>>,
    pub region: Option<Seq<char>>,
    pub aws_access_key_id: Option<Seq<char>>,
    pub aws_secret_access_key: Option<Seq<char>>,
    pub aws_session_token: Option<Seq<char>>,
}

impl View for ClientSettings {
    type V = SettingsView;

    open spec fn view(&self) -> SettingsView {
        SettingsView {
            model: string_of(self.model),
            url: string_of(self.url),
            key: string_of(self.key),
            region: string_of(self.region),
            aws_access_key_id: string_of(self.aws_access_key_id),
            aws_secret_access_key: string_of(self.aws_secret_access_key),
            aws_session_token: string_of(self.aws_session_token),
        }
    }
}

impl ClientSettings {
    /// Settings in which nothing is set.
    pub fn new() -> (r: ClientSettings)
        ensures
            r@ == (SettingsView {
                model: None,
                url: None,
                key: None,
                region: None,
                aws_access_key_id: None,
                aws_secret_access_key: None,
                aws_session_token: None,
            }),
    {
        ClientSettings {
            model: None,
            url: None,
            key: None,
            region: None,
            aws_access_key_id: None,
            aws_secret_access_key: None,
            aws_session_token: None,
        }
    }
}

/// A value that was given, else the value of an environment variable.
pub open spec fn given_or_set(
    given: Option<Seq<char>>,
    environment: &Environment,
    variable: Seq<char>,
) -> Option<Seq<char>> {
    match given {
        Some(value) => Some(value),
        None => environment.value_of(variable),
    }
}

/// A value that was given, else another.
pub open spec fn given_or(given: Option<Seq<char>>, otherwise: Seq<char>) -> Seq<char> {
    match given {
        Some(value) => value,
        None => otherwise,
    }
}

/// The error that names a required option.
pub open spec fn missing_option(name: Seq<char>) -> ConfigErrorView {
    ConfigErrorView { kind: ConfigErrorKind::MissingOption, detail: name }
}

/// Whether building a client of a provider that takes a key came out as it
/// must: without a model, the error that asks for one; without a key in the
/// settings and in the environment, the error that names the variable; else
/// the client of that model, URL and key.
pub open spec fn rest_outcome(
    made: Option<RestClientView>,
    error: Option<ConfigErrorView>,
    settings: SettingsView,
    environment: &Environment,
    default_url: Seq<char>,
    variable: Seq<char>,
) -> bool {
    match settings.model {
        None => made is None && error == Some(missing_option("model"@)),
        Some(model) => match given_or_set(settings.key, environment, variable) {
            None => made is None && error == Some(missing_variable(variable)),
            Some(key) => error is None && made == Some(
                RestClientView { model, url: given_or(settings.url, default_url), key },
            ),
        },
    }
}

/// Whether building a client of Amazon Bedrock came out as it must: without a
/// model, the error that asks for one; without an access key identifier or a
/// secret access key in the settings and in the environment, the error that
/// names the variable, the identifier's first; else the client.
pub open spec fn bedrock_outcome(
    made: Option<BedrockClientView>,
    error: Option<ConfigErrorView>,
    settings: SettingsView,
    environment: &Environment,
) -> bool {
    match settings.model {
        None => made is None && error == Some(missing_option("model"@)),
        Some(model_id) => match given_or_set(
            settings.aws_access_key_id,
            environment,
            AWS_ACCESS_KEY_ID_ENV@,
        ) {
            None => made is None && error == Some(missing_variable(AWS_ACCESS_KEY_ID_ENV@)),
            Some(access_key_id) => match given_or_set(
                settings.aws_secret_access_key,
                environment,
                AWS_SECRET_ACCESS_KEY_ENV@,
            ) {
                None => made is None && error == Some(
                    missing_variable(AWS_SECRET_ACCESS_KEY_ENV@),
                ),
                Some(secret_access_key) => error is None && made == Some(
                    BedrockClientView {
                        model_id,
                        region: given_or(settings.region, DEFAULT_AWS_REGION@),
                        access_key_id,
                        secret_access_key,
                        session_token: match given_or_set(
                            settings.aws_session_token,
                            environment,
                            AWS_SESSION_TOKEN_ENV@,
                        ) {
                            Some(token) => token,
                            None => Seq::empty(),
                        },
                    },
                ),
            },
        },
    }
}

/// The error of a result, if it is one.
pub open spec fn error_of(r: Result<Client, ConfigError>) -> Option<ConfigErrorView> {
    match r {
        Ok(_) => None,
        Err(error) => Some(error@),
    }
}

/// Whether `r` is what building a client for a format from settings must give.
/// The formats are `openai`, `nomic`, `cohere`, `jina`, `mixedbread`,
/// `ollama`, `llamafile` and `bedrock`; for any other, `r` is the error of the
/// kind `unknown` that names the format.
pub open spec fn client_built(
    format: Seq<char>,
    settings: SettingsView,
    environment: &Environment,
    unknown: ConfigErrorKind,
    r: Result<Client, ConfigError>,
) -> bool {
    if format == "openai"@ {
        rest_outcome(
            match r {
                Ok(Client::OpenAI(c)) => Some(c@),
                _ => None,
            },
            error_of(r),
            settings,
            environment,
            DEFAULT_OPENAI_URL@,
            DEFAULT_OPENAI_API_KEY_ENV@,
        )
    } else if format == "nomic"@ {
        rest_outcome(
            match r {
                Ok(Client::Nomic(c)) => Some(c@),
                _ => None,
            },
            error_of(r),
            settings,
            environment,
            DEFAULT_NOMIC_URL@,
            DEFAULT_NOMIC_API_KEY_ENV@,
        )
    } else if format == "cohere"@ {
        rest_outcome(
            match r {
                Ok(Client::Cohere(c)) => Some(c@),
                _ => None,
            },
            error_of(r),
            settings,
            environment,
            DEFAULT_COHERE_URL@,
            DEFAULT_COHERE_API_KEY_ENV@,
        )
    } else if format == "jina"@ {
        rest_outcome(
            match r {
                Ok(Client::Jina(c)) => Some(c@),
                _ => None,
            },
            error_of(r),
            settings,
            environment,
            DEFAULT_JINA_URL@,
            DEFAULT_JINA_API_KEY_ENV@,
        )
    } else if format == "mixedbread"@ {
        rest_outcome(
            match r {
                Ok(Client::Mixedbread(c)) => Some(c@),
                _ => None,
            },
            error_of(r),
            settings,
            environment,
            DEFAULT_MIXEDBREAD_URL@,
            DEFAULT_MIXEDBREAD_API_KEY_ENV@,
        )
    } else if format == "ollama"@ {
        match settings.model {
            None => error_of(r) == Some(missing_option("model"@)),
            Some(model) => r matches Ok(Client::Ollama(c)) && c@ == (OllamaClientView {
                model,
                url: given_or(settings.url, DEFAULT_OLLAMA_URL@),
            }),
        }
    } else if format == "llamafile"@ {
        r matches Ok(Client::Llamafile(c)) && c@ == given_or(settings.url, DEFAULT_LLAMAFILE_URL@)
    } else if format == "bedrock"@ {
        bedrock_outcome(
            match r {
                Ok(Client::AmazonBedrock(c)) => Some(c@),
                _ => None,
            },
            error_of(r),
            settings,
            environment,
        )
    } else {
        error_of(r) == Some(ConfigErrorView { kind: unknown, detail: format })
    }
}

/// The model of the settings, or the error that asks for one.
fn required_model(model: &Option<String>) -> (r: Result<&str, ConfigError>)
    ensures
        match r {
            Ok(found) => string_of(*model) == Some(found@),
            Err(error) => model is None && error@ == missing_option("model"@),
        },
{
    match model {
        Some(model) => Ok(model.as_str()),
        None => Err(ConfigError::new(ConfigErrorKind::MissingOption, "model")),
    }
}

/// Builds the client of the provider that `format` names from the settings.
/// An unknown format gives the error of the kind `unknown`.
pub fn build_client(
    format: &str,
    settings: ClientSettings,
    environment: &Environment,
    unknown: ConfigErrorKind,
) -> (r: Result<Client, ConfigError>)
    ensures
        client_built(format@, settings@, environment, unknown, r),
{
    let ClientSettings {
        model,
        url,
        key,
        region,
        aws_access_key_id,
        aws_secret_access_key,
        aws_session_token,
    } = settings;
    if same_text(format, "openai") {
        let model = match required_model(&model) {
            Ok(model) => model,
            Err(error) => {
                return Err(error);
            },
        };
        match OpenAiClient::new(model, url, key, environment) {
            Ok(client) => Ok(Client::OpenAI(client)),
            Err(error) => Err(error),
        }
    } else if same_text(format, "nomic") {
        let model = match required_model(&model) {
            Ok(model) => model,
            Err(error) => {
                return Err(error);
            },
        };
        match NomicClient::new(model, url, key, environment) {
            Ok(client) => Ok(Client::Nomic(client)),
            Err(error) => Err(error),
        }
    } else if same_text(format, "cohere") {
        let model = match required_model(&model) {
            Ok(model) => model,
            Err(error) => {
                return Err(error);
            },
        };
        match CohereClient::new(model, url, key, environment) {
            Ok(client) => Ok(Client::Cohere(client)),
            Err(error) => Err(error),
        }
    } else if same_text(format, "jina") {
        let model = match required_model(&model) {
            Ok(model) => model,
            Err(error) => {
                return Err(error);
            },
        };
        match JinaClient::new(model, url, key, environment) {
            Ok(client) => Ok(Client::Jina(client)),
            Err(error) => Err(error),
        }
    } else if same_text(format, "mixedbread") {
        let model = match required_model(&model) {
            Ok(model) => model,
            Err(error) => {
                return Err(error);
            },
        };
        match MixedbreadClient::new(model, url, key, environment) {
            Ok(client) => Ok(Client::Mixedbread(client)),
            Err(error) => Err(error),
        }
    } else if same_text(format, "ollama") {
        let model = match required_model(&model) {
            Ok(model) => model,
            Err(error) => {
                return Err(error);
            },
        };
        Ok(Client::Ollama(OllamaClient::new(model, url)))
    } else if same_text(format, "llamafile") {
        Ok(Client::Llamafile(LlamafileClient::new(url)))
    } else if same_text(format, "bedrock") {
        let model = match required_model(&model) {
            Ok(model) => model,
            Err(error) => {
                return Err(error);
            },
        };
        match AmazonBedrockClient::new(
            model,
            region,
            aws_access_key_id,
            aws_secret_access_key,
            aws_session_token,
            environment,
        ) {
            Ok(client) => Ok(Client::AmazonBedrock(client)),
            Err(error) => Err(error),
        }
    } else {
        Err(ConfigError::new(unknown, format))
    }
}

} // verus!
