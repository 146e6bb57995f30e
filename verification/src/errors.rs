//! The errors of the gateway. Each error is a kind and a detail (a name, a
//! path, or the message of whatever failed below); `message` gives the text
//! that is shown to the caller.

use crate::text::{concat2, concat3};
use vstd::prelude::*;
use vstd::string::*;

verus! {

/// What was wrong with a client's configuration.
#[derive(Clone, Copy, Debug, PartialEq, Eq, Structural)]
pub enum ConfigErrorKind {
    /// No key was given and the environment variable named by the detail is
    /// not set.
    MissingVariable,
    /// The options were not given as key/value pairs.
    OddArguments,
    /// The options hold no `format` key.
    MissingFormat,
    /// The option named by the detail is required and was not given.
    MissingOption,
    /// The `format` named by the detail selects no provider.
    UnknownFormat,
    /// The provider tag in the detail names no provider.
    UnknownProvider,
    /// Neither a provider tag nor built options were given.
    OptionsRequired,
}

/// A client could not be configured. Raised when a client is built, never
/// when it is used.
#[derive(Clone, Debug, PartialEq, Eq)]
pub struct ConfigError {
    pub kind: ConfigErrorKind,
    pub detail: String,
}

/// The mathematical form of a [`ConfigError`].
pub struct ConfigErrorView {
    pub kind: ConfigErrorKind,
    pub detail: Seq<char>,
}

impl View for ConfigError {
    type V = ConfigErrorView;

    open spec fn view(&self) -> ConfigErrorView {
        ConfigErrorView { kind: self.kind, detail: self.detail@ }
    }
}

/// The text of a configuration error.
pub open spec fn config_message(kind: ConfigErrorKind, detail: Seq<char>) -> Seq<char> {
    match kind {
        ConfigErrorKind::MissingVariable => detail
            + " environment variable not defined. Alternatively, pass in an API key with rembed_client_options"@,
        ConfigErrorKind::OddArguments =>
            "Must have an even number of arguments to rembed_client_options, as key/value pairs."@,
        ConfigErrorKind::MissingFormat => "'format' key is required."@,
        ConfigErrorKind::MissingOption => "'"@ + detail + "' option is required"@,
        ConfigErrorKind::UnknownFormat => "Unknown format '"@ + detail + "'"@,
        ConfigErrorKind::UnknownProvider => "'"@ + detail + "' is not a valid rembed client."@,
        ConfigErrorKind::OptionsRequired => "client options required"@,
    }
}

impl ConfigError {
    /// An error of the given kind about `detail`.
    pub fn new(kind: ConfigErrorKind, detail: &str) -> (r: ConfigError)
        ensures
            r.kind == kind,
            r.detail@ == detail@,
    {
        ConfigError { kind, detail: String::from_str(detail) }
    }

    /// The text of the error.
    pub fn message(&self) -> (r: String)
        ensures
            r@ == config_message(self.kind, self.detail@),
    {
        match self.kind {
            ConfigErrorKind::MissingVariable => concat2(
                self.detail.as_str(),
                " environment variable not defined. Alternatively, pass in an API key with rembed_client_options",
            ),
            ConfigErrorKind::OddArguments => String::from_str(
                "Must have an even number of arguments to rembed_client_options, as key/value pairs.",
            ),
            ConfigErrorKind::MissingFormat => String::from_str("'format' key is required."),
            ConfigErrorKind::MissingOption => concat3(
                "'",
                self.detail.as_str(),
                "' option is required",
            ),
            ConfigErrorKind::UnknownFormat => concat3("Unknown format '", self.detail.as_str(), "'"),
            ConfigErrorKind::UnknownProvider => concat3(
                "'",
                self.detail.as_str(),
                "' is not a valid rembed client.",
            ),
            ConfigErrorKind::OptionsRequired => String::from_str("client options required"),
        }
    }
}

/// What went wrong in one call of a provider.
#[derive(Clone, Copy, Debug, PartialEq, Eq, Structural)]
pub enum ProviderErrorKind {
    /// The request could not be sent, or the server refused it. The detail is
    /// the transport's message.
    Network,
    /// The response could not be read as text. The detail is the transport's
    /// message.
    UnreadableBody,
    /// The response body is no JSON. The detail is the parser's message.
    InvalidJson,
    /// The body has no member of the name in the detail.
    MissingKey,
    /// Nothing stands at the path in the detail.
    MissingPath,
    /// What stands at the path in the detail is no array.
    NotAnArray,
    /// The array at the path in the detail holds something that is no number.
    NotANumber,
    /// The model identifier belongs to the model provider in the detail, for
    /// which no request shape is known.
    UnsupportedModelProvider,
    /// The inference options are no JSON. The detail is the parser's message.
    InvalidOptions,
    /// The moment of the request cannot be written as a timestamp.
    InvalidTime,
}

/// One call of a provider failed.
#[derive(Clone, Debug, PartialEq, Eq)]
pub struct ProviderError {
    pub kind: ProviderErrorKind,
    pub detail: String,
}

/// The mathematical form of a [`ProviderError`].
pub struct ProviderErrorView {
    pub kind: ProviderErrorKind,
    pub detail: Seq<char>,
}

impl View for ProviderError {
    type V = ProviderErrorView;

    open spec fn view(&self) -> ProviderErrorView {
        ProviderErrorView { kind: self.kind, detail: self.detail@ }
    }
}

/// The text of a provider error.
pub open spec fn provider_message(kind: ProviderErrorKind, detail: Seq<char>) -> Seq<char> {
    match kind {
        ProviderErrorKind::Network => "Error sending HTTP request: "@ + detail,
        ProviderErrorKind::UnreadableBody => "Error parsing HTTP response: "@ + detail,
        ProviderErrorKind::InvalidJson => "Error parsing HTTP response as JSON: "@ + detail,
        ProviderErrorKind::MissingKey => "expected '"@ + detail + "' key in response body"@,
        ProviderErrorKind::MissingPath => "expected '"@ + detail + "' path in response body"@,
        ProviderErrorKind::NotAnArray => "expected '"@ + detail + "' path to be an array"@,
        ProviderErrorKind::NotANumber => "expected '"@ + detail + "' array to contain floats"@,
        ProviderErrorKind::UnsupportedModelProvider => "Model provider '"@ + detail
            + "' is not supported!"@,
        ProviderErrorKind::InvalidOptions => "Error parsing inference options as JSON: "@ + detail,
        ProviderErrorKind::InvalidTime => "Error formatting the request time: "@ + detail,
    }
}

impl ProviderError {
    /// An error of the given kind about `detail`.
    pub fn new(kind: ProviderErrorKind, detail: &str) -> (r: ProviderError)
        ensures
            r.kind == kind,
            r.detail@ == detail@,
    {
        ProviderError { kind, detail: String::from_str(detail) }
    }

    /// The text of the error.
    pub fn message(&self) -> (r: String)
        ensures
            r@ == provider_message(self.kind, self.detail@),
    {
        let detail = self.detail.as_str();
        match self.kind {
            ProviderErrorKind::Network => concat2("Error sending HTTP request: ", detail),
            ProviderErrorKind::UnreadableBody => concat2("Error parsing HTTP response: ", detail),
            ProviderErrorKind::InvalidJson => concat2("Error parsing HTTP response as JSON: ", detail),
            ProviderErrorKind::MissingKey => concat3("expected '", detail, "' key in response body"),
            ProviderErrorKind::MissingPath => concat3(
                "expected '",
                detail,
                "' path in response body",
            ),
            ProviderErrorKind::NotAnArray => concat3("expected '", detail, "' path to be an array"),
            ProviderErrorKind::NotANumber => concat3(
                "expected '",
                detail,
                "' array to contain floats",
            ),
            ProviderErrorKind::UnsupportedModelProvider => concat3(
                "Model provider '",
                detail,
                "' is not supported!",
            ),
            ProviderErrorKind::InvalidOptions => concat2("Error parsing inference options as JSON: ", detail),
            ProviderErrorKind::InvalidTime => concat2("Error formatting the request time: ", detail),
        }
    }
}

} // verus!
