//! The client of OpenAI: `{"input", "model"}` goes out, `data.0.embedding` comes
//! back.

use crate::clients::{
    data_embedding_path, exchange, inferred, input_body, make_data_embedding_path, make_input_body,
    missing_variable, post_json, post_json_request, resolve_key, resolve_url, resolved_key,
    resolved_url, RestClientView,
};
use crate::environment::Environment;
use crate::errors::{ConfigError, ProviderError};
use crate::http::{HttpOutcome, HttpRequest, HttpRequestView};
use crate::json::Json;
use crate::response::{read_vector, read_view, vector_read, Step};
use vstd::prelude::*;
use vstd::string::*;

verus! {

/// A client of OpenAI.
#[derive(Clone, Debug, PartialEq, Eq)]
pub struct OpenAiClient {
    model: String,
    url: String,
    key: String,
}

/// The URL of OpenAI where none is given.
pub const DEFAULT_OPENAI_URL: &'static str = "https://api.openai.com/v1/embeddings";

/// The environment variable that holds the key of OpenAI.
pub const DEFAULT_OPENAI_API_KEY_ENV: &'static str = "OPENAI_API_KEY";

impl View for OpenAiClient {
    type V = RestClientView;

    closed spec fn view(&self) -> RestClientView {
        RestClientView { model: self.model@, url: self.url@, key: self.key@ }
    }
}

impl OpenAiClient {
    /// The request for one input.
    pub open spec fn request_for(self, input: Seq<char>) -> HttpRequestView {
        post_json(self@.url, false, Some(self@.key), input_body(input, self@.model))
    }

    /// The path to the embedding in a response.
    pub open spec fn response_path() -> Seq<Step> {
        data_embedding_path()
    }

    /// A client for `model`. The URL is the given one, else the provider's
    /// own; the key is the given one, else the value of `OPENAI_API_KEY`,
    /// and where neither is there the error names that variable.
    pub fn new(
        model: &str,
        url: Option<String>,
        key: Option<String>,
        environment: &Environment,
    ) -> (r: Result<Self, ConfigError>)
        ensures
            match r {
                Ok(client) => resolved_key(key, environment, DEFAULT_OPENAI_API_KEY_ENV@) == Some(
                    client@.key,
                ) && client@.model == model@ && client@.url == resolved_url(
                    url,
                    DEFAULT_OPENAI_URL@,
                ),
                Err(error) => resolved_key(key, environment, DEFAULT_OPENAI_API_KEY_ENV@) is None
                    && error@ == missing_variable(DEFAULT_OPENAI_API_KEY_ENV@),
            },
    {
        match resolve_key(key, environment, DEFAULT_OPENAI_API_KEY_ENV) {
            Ok(key) => Ok(
                Self {
                    model: String::from_str(model),
                    url: resolve_url(url, DEFAULT_OPENAI_URL),
                    key,
                },
            ),
            Err(error) => Err(error),
        }
    }

    /// The model that the client asks for.
    pub fn model(&self) -> (r: &str)
        ensures
            r@ == self@.model,
    {
        self.model.as_str()
    }

    /// The URL that the client posts to.
    pub fn url(&self) -> (r: &str)
        ensures
            r@ == self@.url,
    {
        self.url.as_str()
    }

    /// The key that the client presents.
    pub fn key(&self) -> (r: &str)
        ensures
            r@ == self@.key,
    {
        self.key.as_str()
    }

    /// Makes the request for one input.
    pub fn request(&self, input: &str) -> (r: HttpRequest)
        ensures
            r@ == self.request_for(input@),
    {
        let body = make_input_body(input, self.model.as_str());
        post_json_request(self.url.as_str(), false, Some(self.key.as_str()), &body)
    }

    /// Reads the embedding from a response body: the numbers at
    /// `data.0.embedding`, each as the bits of its 64-bit float.
    pub fn parse_single_response(value: Json) -> (r: Result<Vec<u64>, ProviderError>)
        ensures
            read_view(r) == vector_read(value@, Self::response_path()),
    {
        let path = make_data_embedding_path();
        read_vector(&value, &path)
    }

    /// Infers the embedding of one input: makes the request, has `send` send
    /// it, and reads the embedding from what comes back.
    pub fn infer_single<F: FnOnce(HttpRequest) -> HttpOutcome>(
        &self,
        input: &str,
        send: F,
    ) -> (r: Result<Vec<u64>, ProviderError>)
        requires
            forall|request: HttpRequest| call_requires(send, (request,)),
        ensures
            inferred(send, self.request_for(input@), Self::response_path(), r),
    {
        let request = self.request(input);
        let path = make_data_embedding_path();
        exchange(request, &path, send)
    }
}

} // verus!
