//! Embedding gateway: named, configurable clients for several embedding
//! providers, a registry that holds them, and the request signing that Amazon
//! Bedrock asks for.
//!
//! The crate sends nothing and reads no environment. The caller hands in the
//! environment as a list and the sending as a function, and gets the embedding
//! back as the bits of 64-bit floats, one per element, as the provider wrote
//! them. Narrowing them to 32 bits is arithmetic on floats and is the
//! caller's.

pub mod clients;
pub mod clients_vtab;
pub mod clock;
pub mod environment;
pub mod errors;
pub mod http;
pub mod json;
pub mod options;
pub mod order;
pub mod registry;
pub mod response;
pub mod sigv4;
pub mod text;
pub mod urlencoded;

use crate::clients::{client_inferred, text_of, Client};
use crate::environment::Environment;
use crate::errors::{ConfigError, ConfigErrorKind, ConfigErrorView, ProviderError};
use crate::http::{HttpOutcome, HttpRequest};
use crate::options::{build_client, client_built, ClientSettings, SettingsView};
use crate::registry::ClientRegistry;
use crate::text::{concat2, same_text};
use vstd::prelude::*;
use vstd::string::*;

verus! {

/// The tag that marks a blob as a vector of 32-bit floats for the host.
pub const FLOAT32_VECTOR_SUBTYPE: u8 = 223;

/// The version of the gateway as it is shown: `v` and the version number.
pub fn rembed_version(version: &str) -> (r: String)
    ensures
        r@ == "v"@ + version@,
{
    concat2("v", version)
}

/// The version and the source of the gateway, one line each.
pub fn rembed_debug(version: &str, source: &str) -> (r: String)
    ensures
        r@ == "Version: v"@ + version@ + "\nSource: "@ + source@ + "\n"@,
{
    let mut out = concat2("Version: v", version);
    out.append("\nSource: ");
    out.append(source);
    out.append("\n");
    out
}

/// The value of the last of the first `pairs` key/value pairs whose key is
/// `key`.
pub open spec fn option_value(values: Seq<String>, key: Seq<char>, pairs: int) -> Option<
    Seq<char>,
>
    decreases pairs,
{
    if pairs <= 0 {
        None
    } else if values[2 * (pairs - 1)]@ == key {
        Some(values[2 * (pairs - 1) + 1]@)
    } else {
        option_value(values, key, pairs - 1)
    }
}

/// The value that key/value pairs give to a key: that of the last pair with
/// the key.
pub open spec fn option_of(values: Seq<String>, key: Seq<char>) -> Option<Seq<char>> {
    option_value(values, key, values.len() as int / 2)
}

/// The settings that key/value pairs stand for.
pub open spec fn settings_of(values: Seq<String>) -> SettingsView {
    SettingsView {
        model: option_of(values, "model"@),
        url: option_of(values, "url"@),
        key: option_of(values, "key"@),
        region: option_of(values, "region"@),
        aws_access_key_id: option_of(values, "aws_access_key_id"@),
        aws_secret_access_key: option_of(values, "aws_secret_access_key"@),
        aws_session_token: option_of(values, "aws_session_token"@),
    }
}

/// Whether `r` is what building a client from key/value pairs must give: for
/// an odd number of values and for pairs without a `format`, the error that
/// says so; else what building the client of that format from the other pairs
/// gives.
pub open spec fn options_built(
    values: Seq<String>,
    environment: &Environment,
    r: Result<Client, ConfigError>,
) -> bool {
    if values.len() % 2 != 0 {
        r matches Err(error) && error@ == (ConfigErrorView {
            kind: ConfigErrorKind::OddArguments,
            detail: ""@,
        })
    } else {
        match option_of(values, "format"@) {
            None => r matches Err(error) && error@ == (ConfigErrorView {
                kind: ConfigErrorKind::MissingFormat,
                detail: ""@,
            }),
            Some(format) => client_built(
                format,
                settings_of(values),
                environment,
                ConfigErrorKind::UnknownFormat,
                r,
            ),
        }
    }
}

/// Finds the value that key/value pairs give to a key.
fn find_option(values: &Vec<String>, key: &str) -> (r: Option<String>)
    requires
        values@.len() % 2 == 0,
    ensures
        crate::clients::string_of(r) == option_of(values@, key@),
{
    let count: usize = values.len();
    let mut pairs: usize = count / 2;
    while pairs > 0
        invariant
            count == values@.len(),
            2 * pairs <= count,
            option_of(values@, key@) == option_value(values@, key@, pairs as int),
        decreases pairs,
    {
        let place: usize = 2 * (pairs - 1);
        if same_text(values[place].as_str(), key) {
            return Some(values[place + 1].clone());
        }
        pairs -= 1;
    }
    None
}

/// Builds a client from options given as key/value pairs. The pair with the
/// key `format` chooses the provider; the pairs `model`, `url`, `key`,
/// `region`, `aws_access_key_id`, `aws_secret_access_key` and
/// `aws_session_token` configure it, as far as the provider knows them.
pub fn rembed_client_options(values: &Vec<String>, environment: &Environment) -> (r: Result<
    Client,
    ConfigError,
>)
    ensures
        options_built(values@, environment, r),
{
    if values.len() % 2 != 0 {
        return Err(ConfigError::new(ConfigErrorKind::OddArguments, ""));
    }
    let format = match find_option(values, "format") {
        Some(format) => format,
        None => {
            return Err(ConfigError::new(ConfigErrorKind::MissingFormat, ""));
        },
    };
    let settings = ClientSettings {
        model: find_option(values, "model"),
        url: find_option(values, "url"),
        key: find_option(values, "key"),
        region: find_option(values, "region"),
        aws_access_key_id: find_option(values, "aws_access_key_id"),
        aws_secret_access_key: find_option(values, "aws_secret_access_key"),
        aws_session_token: find_option(values, "aws_session_token"),
    };
    build_client(format.as_str(), settings, environment, ConfigErrorKind::UnknownFormat)
}

/// Why no embedding was returned.
#[derive(Clone, Debug, PartialEq, Eq)]
pub enum RembedError {
    /// No client is registered under the name.
    UnknownClient(String),
    /// The client's provider failed.
    Provider(ProviderError),
}

impl RembedError {
    /// The text of the error.
    pub fn message(&self) -> (r: String)
        ensures
            r@ == match *self {
                RembedError::UnknownClient(name) => "Client with name "@ + name@
                    + " was not registered with rembed_clients."@,
                RembedError::Provider(error) => crate::errors::provider_message(
                    error.kind,
                    error.detail@,
                ),
            },
    {
        match self {
            RembedError::UnknownClient(name) => crate::text::concat3(
                "Client with name ",
                name.as_str(),
                " was not registered with rembed_clients.",
            ),
            RembedError::Provider(error) => error.message(),
        }
    }
}

/// Whether `r` is the error that names a client that is not registered.
pub open spec fn unknown_client(client_name: Seq<char>, r: Result<Vec<u64>, RembedError>) -> bool {
    r matches Err(RembedError::UnknownClient(name)) && name@ == client_name
}

/// Whether `r` hands on what the client gave: its embedding, or its error
/// unchanged.
pub open spec fn handed_on(
    inner: Result<Vec<u64>, ProviderError>,
    r: Result<Vec<u64>, RembedError>,
) -> bool {
    match inner {
        Ok(vector) => r == Ok::<Vec<u64>, RembedError>(vector),
        Err(error) => r == Err::<Vec<u64>, RembedError>(RembedError::Provider(error)),
    }
}

/// Asks the client that is registered under `client_name` for the embedding
/// of `input`, with the clock of Amazon Bedrock's request standing at
/// `seconds`. Where no client has that name, nothing is sent.
pub fn rembed_at<F: FnOnce(HttpRequest) -> HttpOutcome>(
    clients: &ClientRegistry,
    client_name: &str,
    input: &str,
    extra: Option<&str>,
    seconds: i64,
    send: F,
) -> (r: Result<Vec<u64>, RembedError>)
    requires
        forall|request: HttpRequest| call_requires(send, (request,)),
    ensures
        !clients@.contains_key(client_name@) ==> unknown_client(client_name@, r),
        clients@.contains_key(client_name@) ==> exists|inner: Result<Vec<u64>, ProviderError>|
            #![trigger handed_on(inner, r)]
            client_inferred(
                send,
                clients@[client_name@],
                input@,
                text_of(extra),
                seconds,
                inner,
            ) && handed_on(inner, r),
{
    match clients.get(client_name) {
        None => Err(RembedError::UnknownClient(String::from_str(client_name))),
        Some(client) => {
            let inner = client.infer_single_at(input, extra, seconds, send);
            let r = match inner {
                Ok(vector) => Ok(vector),
                Err(error) => Err(RembedError::Provider(error)),
            };
            assert(handed_on(inner, r));
            r
        },
    }
}

/// Asks the client that is registered under `client_name` for the embedding
/// of `input`. The extra argument goes to the providers that take one. Where
/// no client has that name, nothing is sent.
pub fn rembed<F: FnOnce(HttpRequest) -> HttpOutcome>(
    clients: &ClientRegistry,
    client_name: &str,
    input: &str,
    extra: Option<&str>,
    send: F,
) -> (r: Result<Vec<u64>, RembedError>)
    requires
        forall|request: HttpRequest| call_requires(send, (request,)),
    ensures
        !clients@.contains_key(client_name@) ==> unknown_client(client_name@, r),
        clients@.contains_key(client_name@) ==> exists|
            seconds: i64,
            inner: Result<Vec<u64>, ProviderError>,
        |
            #![trigger client_inferred(send, clients@[client_name@], input@, text_of(extra), seconds, inner)]
            client_inferred(
                send,
                clients@[client_name@],
                input@,
                text_of(extra),
                seconds,
                inner,
            ) && handed_on(inner, r),
{
    match clients.get(client_name) {
        None => Err(RembedError::UnknownClient(String::from_str(client_name))),
        Some(client) => {
            let inner = client.infer_single(input, extra, send);
            let r = match inner {
                Ok(vector) => Ok(vector),
                Err(error) => Err(RembedError::Provider(error)),
            };
            assert(handed_on(inner, r));
            r
        },
    }
}

} // verus!
