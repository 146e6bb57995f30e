//! The provider clients: one type for each provider, each with the
//! configuration of one authenticated request, the request it sends for an
//! input, and the reading of the response.
//!
//! A client sends nothing itself. `infer_single` takes the sending as a
//! function from the request to its outcome, so that the same verified steps
//! run against a server and against a canned answer.

pub mod bedrock;
pub mod cohere;
pub mod jina;
pub mod llamafile;
pub mod mixedbread;
pub mod nomic;
pub mod ollama;
pub mod openai;

pub use self::bedrock::{
    AWS_ACCESS_KEY_ID_ENV, AWS_SECRET_ACCESS_KEY_ENV, AWS_SERVICE, AWS_SESSION_TOKEN_ENV,
    AmazonBedrockClient, BedrockClientView, DEFAULT_AWS_REGION, HASH_ALGORITHM,
};
pub use self::cohere::{CohereClient, DEFAULT_COHERE_API_KEY_ENV, DEFAULT_COHERE_URL};
pub use self::jina::{DEFAULT_JINA_API_KEY_ENV, DEFAULT_JINA_URL, JinaClient};
pub use self::llamafile::{DEFAULT_LLAMAFILE_URL, LlamafileClient};
pub use self::mixedbread::{DEFAULT_MIXEDBREAD_API_KEY_ENV, DEFAULT_MIXEDBREAD_URL, MixedbreadClient};
pub use self::nomic::{DEFAULT_NOMIC_API_KEY_ENV, DEFAULT_NOMIC_URL, NomicClient};
pub use self::ollama::{DEFAULT_OLLAMA_URL, OllamaClient, OllamaClientView};
pub use self::openai::{DEFAULT_OPENAI_API_KEY_ENV, DEFAULT_OPENAI_URL, OpenAiClient};

use self::bedrock::bedrock_inferred;
use crate::clock::utc_now;
use crate::environment::{try_env_var, Environment};
use crate::errors::{
    ConfigError, ConfigErrorKind, ConfigErrorView, ProviderError, ProviderErrorKind,
    ProviderErrorView,
};
use crate::http::{
    header, header_view, Header, HeaderView, HttpOutcome, HttpOutcomeView, HttpRequest,
    HttpRequestView,
};
use crate::json::{parsed_json, written, Json, JsonView};
use crate::response::{dotted, label, read_vector, read_view, vector_read, Step};
use crate::text::{concat2, decimal};
use vstd::prelude::*;
use vstd::string::*;

verus! {

/// The error of a kind with a detail.
pub open spec fn failure(kind: ProviderErrorKind, detail: Seq<char>) -> Result<
    Seq<u64>,
    ProviderErrorView,
> {
    Err(ProviderErrorView { kind, detail })
}

/// What reading an outcome along a path gives: a failure of the transport is
/// passed on with its message, a body that is no JSON is refused with the
/// message of the parser, and a JSON body is read along the path.
pub open spec fn outcome_read(outcome: HttpOutcomeView, path: Seq<Step>) -> Result<
    Seq<u64>,
    ProviderErrorView,
> {
    match outcome {
        HttpOutcomeView::SendFailed(message) => failure(ProviderErrorKind::Network, message),
        HttpOutcomeView::ReadFailed(message) => failure(ProviderErrorKind::UnreadableBody, message),
        HttpOutcomeView::Body(text) => match parsed_json(text) {
            Ok(body) => vector_read(body, path),
            Err(message) => failure(ProviderErrorKind::InvalidJson, message),
        },
    }
}

/// Reads the embedding from the outcome of a request.
pub fn read_outcome(outcome: HttpOutcome, path: &Vec<Step>) -> (r: Result<
    Vec<u64>,
    ProviderError,
>)
    ensures
        read_view(r) == outcome_read(outcome@, path@),
{
    match outcome {
        HttpOutcome::SendFailed(message) => Err(
            ProviderError { kind: ProviderErrorKind::Network, detail: message },
        ),
        HttpOutcome::ReadFailed(message) => Err(
            ProviderError { kind: ProviderErrorKind::UnreadableBody, detail: message },
        ),
        HttpOutcome::Body(text) => match Json::parse(text.as_str()) {
            Ok(body) => read_vector(&body, path),
            Err(message) => Err(
                ProviderError { kind: ProviderErrorKind::InvalidJson, detail: message },
            ),
        },
    }
}

/// That `r` is what came of one exchange: `send` was handed a request of the
/// given form, and `r` is what reading its outcome along the path gives.
pub open spec fn inferred<F: FnOnce(HttpRequest) -> HttpOutcome>(
    send: F,
    request: HttpRequestView,
    path: Seq<Step>,
    r: Result<Vec<u64>, ProviderError>,
) -> bool {
    exists|sent: HttpRequest, outcome: HttpOutcome|
        sent@ == request && #[trigger] call_ensures(send, (sent,), outcome) && read_view(r)
            == outcome_read(outcome@, path)
}

/// Sends a request through `send` and reads the embedding from what comes
/// back.
pub fn exchange<F: FnOnce(HttpRequest) -> HttpOutcome>(
    request: HttpRequest,
    path: &Vec<Step>,
    send: F,
) -> (r: Result<Vec<u64>, ProviderError>)
    requires
        call_requires(send, (request,)),
    ensures
        inferred(send, request@, path@, r),
{
    let outcome = send(request);
    read_outcome(outcome, path)
}

/// The request of a provider that speaks JSON over HTTP: a `POST` to `url`
/// with the content type, an `Accept` header where the provider wants one, the
/// key as a bearer token where the provider wants one, and the body as text.
pub open spec fn post_json(
    url: Seq<char>,
    accept: bool,
    key: Option<Seq<char>>,
    body: JsonView,
) -> HttpRequestView {
    HttpRequestView { url, headers: json_headers(accept, key), body: written(body) }
}

/// The headers of such a request.
pub open spec fn json_headers(accept: bool, key: Option<Seq<char>>) -> Seq<HeaderView> {
    let content = seq![header_view("Content-Type"@, "application/json"@)];
    let accepted = if accept {
        content.push(header_view("Accept"@, "application/json"@))
    } else {
        content
    };
    match key {
        Some(key) => accepted.push(header_view("Authorization"@, "Bearer "@ + key)),
        None => accepted,
    }
}

/// The characters of a string slice that may be absent.
pub open spec fn text_of(text: Option<&str>) -> Option<Seq<char>> {
    match text {
        Some(text) => Some(text@),
        None => None,
    }
}

/// The characters of a string that may be absent.
pub open spec fn string_of(text: Option<String>) -> Option<Seq<char>> {
    match text {
        Some(text) => Some(text@),
        None => None,
    }
}

/// Makes the request of a provider that speaks JSON over HTTP.
pub fn post_json_request(url: &str, accept: bool, key: Option<&str>, body: &Json) -> (r:
    HttpRequest)
    ensures
        r@ == post_json(url@, accept, text_of(key), body@),
{
    let mut headers: Vec<Header> = Vec::new();
    headers.push(header("Content-Type", "application/json"));
    if accept {
        headers.push(header("Accept", "application/json"));
    }
    match key {
        Some(key) => {
            let bearer = concat2("Bearer ", key);
            headers.push(header("Authorization", bearer.as_str()));
        },
        None => {},
    }
    let request = HttpRequest { url: String::from_str(url), headers, body: body.to_text() };
    assert(request@.headers =~= json_headers(accept, text_of(key)));
    request
}

/// The body `{"input": input, "model": model}`.
pub open spec fn input_body(input: Seq<char>, model: Seq<char>) -> JsonView {
    JsonView::Object(Seq::empty()).with("input"@, JsonView::String(input)).with(
        "model"@,
        JsonView::String(model),
    )
}

/// The body `{"input": [input], "model": model}`.
pub open spec fn input_list_body(input: Seq<char>, model: Seq<char>) -> JsonView {
    JsonView::Object(Seq::empty()).with(
        "input"@,
        JsonView::Array(seq![JsonView::String(input)]),
    ).with("model"@, JsonView::String(model))
}

/// The body `{"texts": [input], "model": model}`, with the member
/// `"input_type"` after them where an input type is given.
pub open spec fn texts_body(
    input: Seq<char>,
    model: Seq<char>,
    input_type: Option<Seq<char>>,
) -> JsonView {
    let body = JsonView::Object(Seq::empty()).with(
        "texts"@,
        JsonView::Array(seq![JsonView::String(input)]),
    ).with("model"@, JsonView::String(model));
    match input_type {
        Some(input_type) => body.with("input_type"@, JsonView::String(input_type)),
        None => body,
    }
}

/// The body `{"prompt": input, "model": model}`.
pub open spec fn prompt_body(input: Seq<char>, model: Seq<char>) -> JsonView {
    JsonView::Object(Seq::empty()).with("prompt"@, JsonView::String(input)).with(
        "model"@,
        JsonView::String(model),
    )
}

/// The body `{"content": input}`.
pub open spec fn content_body(input: Seq<char>) -> JsonView {
    JsonView::Object(Seq::empty()).with("content"@, JsonView::String(input))
}

/// Makes the body `{"input": input, "model": model}`.
pub(crate) fn make_input_body(input: &str, model: &str) -> (r: Json)
    ensures
        r@ == input_body(input@, model@),
{
    let mut body = Json::object();
    body.add("input", Json::text(input));
    body.add("model", Json::text(model));
    body
}

/// Makes the body `{"input": [input], "model": model}`.
pub(crate) fn make_input_list_body(input: &str, model: &str) -> (r: Json)
    ensures
        r@ == input_list_body(input@, model@),
{
    let mut body = Json::object();
    body.add("input", Json::one_text(input));
    body.add("model", Json::text(model));
    body
}

/// Makes the body `{"texts": [input], "model": model}`, with the input type
/// where one is given.
pub(crate) fn make_texts_body(input: &str, model: &str, input_type: Option<&str>) -> (r: Json)
    ensures
        r@ == texts_body(input@, model@, text_of(input_type)),
{
    let mut body = Json::object();
    body.add("texts", Json::one_text(input));
    body.add("model", Json::text(model));
    match input_type {
        Some(input_type) => body.add("input_type", Json::text(input_type)),
        None => {},
    }
    body
}

/// The path `data.0.embedding`.
pub open spec fn data_embedding_path() -> Seq<Step> {
    seq![Step::Key("data"), Step::Index(0), Step::Key("embedding")]
}

/// The path `embeddings.0`.
pub open spec fn embeddings_path() -> Seq<Step> {
    seq![Step::Key("embeddings"), Step::Index(0)]
}

/// The path `embedding`.
pub open spec fn embedding_path() -> Seq<Step> {
    seq![Step::Key("embedding")]
}

/// The path `embeddings.0`, where `embeddings` must be an array.
pub open spec fn embeddings_first_path() -> Seq<Step> {
    seq![Step::Key("embeddings"), Step::First]
}

/// The paths as errors write them: `data`, `data.0` and `data.0.embedding`;
/// `embeddings` and `embeddings.0`; `embedding`.
pub proof fn lemma_path_texts()
    ensures
        dotted(data_embedding_path(), 1) == "data"@,
        dotted(data_embedding_path(), 2) == "data.0"@,
        dotted(data_embedding_path(), 3) == "data.0.embedding"@,
        dotted(embeddings_path(), 1) == "embeddings"@,
        dotted(embeddings_path(), 2) == "embeddings.0"@,
        dotted(embeddings_first_path(), 1) == "embeddings"@,
        dotted(embeddings_first_path(), 2) == "embeddings.0"@,
        dotted(embedding_path(), 1) == "embedding"@,
{
    reveal_strlit(".");
    reveal_strlit("data");
    reveal_strlit("data.0");
    reveal_strlit("data.0.embedding");
    reveal_strlit("embedding");
    reveal_strlit("embeddings");
    reveal_strlit("embeddings.0");
    reveal_with_fuel(dotted, 4);
    assert(decimal(0) =~= seq!['0']);
    assert(label(Step::Index(0)) == seq!['0']);
    assert(label(Step::First) == seq!['0']);
    assert(dotted(data_embedding_path(), 1) == "data"@);
    assert(dotted(data_embedding_path(), 2) =~= "data.0"@);
    assert(dotted(data_embedding_path(), 3) =~= "data.0.embedding"@);
    assert(dotted(embeddings_path(), 2) =~= "embeddings.0"@);
    assert(dotted(embeddings_first_path(), 2) =~= "embeddings.0"@);
}

/// Makes the path `data.0.embedding`.
pub fn make_data_embedding_path() -> (r: Vec<Step>)
    ensures
        r@ == data_embedding_path(),
{
    let mut path: Vec<Step> = Vec::new();
    path.push(Step::Key("data"));
    path.push(Step::Index(0));
    path.push(Step::Key("embedding"));
    assert(path@ =~= data_embedding_path());
    path
}

/// Makes the path `embeddings.0`.
pub fn make_embeddings_path() -> (r: Vec<Step>)
    ensures
        r@ == embeddings_path(),
{
    let mut path: Vec<Step> = Vec::new();
    path.push(Step::Key("embeddings"));
    path.push(Step::Index(0));
    assert(path@ =~= embeddings_path());
    path
}

/// Makes the path `embedding`.
pub fn make_embedding_path() -> (r: Vec<Step>)
    ensures
        r@ == embedding_path(),
{
    let mut path: Vec<Step> = Vec::new();
    path.push(Step::Key("embedding"));
    assert(path@ =~= embedding_path());
    path
}

/// Makes the path `embeddings.0`, where `embeddings` must be an array.
pub fn make_embeddings_first_path() -> (r: Vec<Step>)
    ensures
        r@ == embeddings_first_path(),
{
    let mut path: Vec<Step> = Vec::new();
    path.push(Step::Key("embeddings"));
    path.push(Step::First);
    assert(path@ =~= embeddings_first_path());
    path
}

/// The key of a client: the one that was given, else the value of the
/// provider's environment variable.
pub open spec fn resolved_key(
    key: Option<String>,
    environment: &Environment,
    variable: Seq<char>,
) -> Option<Seq<char>> {
    match key {
        Some(key) => Some(key@),
        None => environment.value_of(variable),
    }
}

/// The error for a key that was not given and is not in the environment.
pub open spec fn missing_variable(variable: Seq<char>) -> ConfigErrorView {
    ConfigErrorView { kind: ConfigErrorKind::MissingVariable, detail: variable }
}

/// Finds the key of a client.
pub fn resolve_key(key: Option<String>, environment: &Environment, variable: &str) -> (r: Result<
    String,
    ConfigError,
>)
    ensures
        match r {
            Ok(found) => resolved_key(key, environment, variable@) == Some(found@),
            Err(error) => resolved_key(key, environment, variable@) is None && error@
                == missing_variable(variable@),
        },
{
    match key {
        Some(key) => Ok(key),
        None => try_env_var(environment, variable),
    }
}

/// The URL of a client: the one that was given, else the provider's own.
pub open spec fn resolved_url(url: Option<String>, default_url: Seq<char>) -> Seq<char> {
    match url {
        Some(url) => url@,
        None => default_url,
    }
}

/// Finds the URL of a client.
pub fn resolve_url(url: Option<String>, default_url: &str) -> (r: String)
    ensures
        r@ == resolved_url(url, default_url@),
{
    match url {
        Some(url) => url,
        None => String::from_str(default_url),
    }
}

/// The configuration of a client of a provider that takes a key.
pub struct RestClientView {
    pub model: Seq<char>,
    pub url: Seq<char>,
    pub key: Seq<char>,
}

/// A configured client of one of the eight providers.
#[derive(Clone, Debug, PartialEq, Eq)]
pub enum Client {
    OpenAI(OpenAiClient),
    Nomic(NomicClient),
    Cohere(CohereClient),
    Ollama(OllamaClient),
    Llamafile(LlamafileClient),
    Jina(JinaClient),
    Mixedbread(MixedbreadClient),
    AmazonBedrock(AmazonBedrockClient),
}

/// That `r` is what came of asking a client of Amazon Bedrock with the
/// caller's extra argument, which is read as the JSON text of the inference
/// options: where it is no JSON, `r` is the error that says so and nothing was
/// sent.
pub open spec fn bedrock_inferred_with<F: FnOnce(HttpRequest) -> HttpOutcome>(
    send: F,
    client: BedrockClientView,
    input: Seq<char>,
    extra: Option<Seq<char>>,
    seconds: i64,
    r: Result<Vec<u64>, ProviderError>,
) -> bool {
    match extra {
        None => bedrock_inferred(send, client, input, JsonView::Object(Seq::empty()), seconds, r),
        Some(text) => match parsed_json(text) {
            Ok(options) => bedrock_inferred(send, client, input, options, seconds, r),
            Err(message) => read_view(r) == failure(ProviderErrorKind::InvalidOptions, message),
        },
    }
}

/// That `r` is what came of asking a client for the embedding of one input.
/// The extra argument goes to Nomic and Cohere as the input type and to Amazon
/// Bedrock as the inference options; the other providers do not see it. The
/// moment matters to Amazon Bedrock alone.
pub open spec fn client_inferred<F: FnOnce(HttpRequest) -> HttpOutcome>(
    send: F,
    client: Client,
    input: Seq<char>,
    extra: Option<Seq<char>>,
    seconds: i64,
    r: Result<Vec<u64>, ProviderError>,
) -> bool {
    match client {
        Client::OpenAI(c) => inferred(send, c.request_for(input), OpenAiClient::response_path(), r),
        Client::Nomic(c) => inferred(
            send,
            c.request_for(input, extra),
            NomicClient::response_path(),
            r,
        ),
        Client::Cohere(c) => inferred(
            send,
            c.request_for(input, extra),
            CohereClient::response_path(),
            r,
        ),
        Client::Ollama(c) => inferred(send, c.request_for(input), OllamaClient::response_path(), r),
        Client::Llamafile(c) => inferred(
            send,
            c.request_for(input),
            LlamafileClient::response_path(),
            r,
        ),
        Client::Jina(c) => inferred(send, c.request_for(input), JinaClient::response_path(), r),
        Client::Mixedbread(c) => inferred(
            send,
            c.request_for(input),
            MixedbreadClient::response_path(),
            r,
        ),
        Client::AmazonBedrock(c) => bedrock_inferred_with(send, c@, input, extra, seconds, r),
    }
}

impl Client {
    /// Asks the client for the embedding of one input, with the clock of
    /// Amazon Bedrock's request standing at `seconds`.
    pub fn infer_single_at<F: FnOnce(HttpRequest) -> HttpOutcome>(
        &self,
        input: &str,
        extra: Option<&str>,
        seconds: i64,
        send: F,
    ) -> (r: Result<Vec<u64>, ProviderError>)
        requires
            forall|request: HttpRequest| call_requires(send, (request,)),
        ensures
            client_inferred(send, *self, input@, text_of(extra), seconds, r),
    {
        match self {
            Client::OpenAI(client) => client.infer_single(input, send),
            Client::Nomic(client) => client.infer_single(input, extra, send),
            Client::Cohere(client) => client.infer_single(input, extra, send),
            Client::Ollama(client) => client.infer_single(input, send),
            Client::Llamafile(client) => client.infer_single(input, send),
            Client::Jina(client) => client.infer_single(input, send),
            Client::Mixedbread(client) => client.infer_single(input, send),
            Client::AmazonBedrock(client) => match extra {
                None => client.infer_single_at(input, None, seconds, send),
                Some(text) => match Json::parse(text) {
                    Ok(options) => client.infer_single_at(input, Some(options), seconds, send),
                    Err(message) => Err(
                        ProviderError { kind: ProviderErrorKind::InvalidOptions, detail: message },
                    ),
                },
            },
        }
    }

    /// Asks the client for the embedding of one input. A client of Amazon
    /// Bedrock reads the clock for its request.
    pub fn infer_single<F: FnOnce(HttpRequest) -> HttpOutcome>(
        &self,
        input: &str,
        extra: Option<&str>,
        send: F,
    ) -> (r: Result<Vec<u64>, ProviderError>)
        requires
            forall|request: HttpRequest| call_requires(send, (request,)),
        ensures
            exists|seconds: i64| #[trigger]
                client_inferred(send, *self, input@, text_of(extra), seconds, r),
    {
        match self {
            Client::AmazonBedrock(_) => {
                let seconds = utc_now();
                self.infer_single_at(input, extra, seconds, send)
            },
            _ => self.infer_single_at(input, extra, 0, send),
        }
    }
}

} // verus!
