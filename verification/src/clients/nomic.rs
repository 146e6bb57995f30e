//! The client of Nomic: `{"texts", "model"}` goes out, with the input type
//! where one is given, and `embeddings.0` comes back.

use crate::clients::{
    embeddings_path, exchange, inferred, make_embeddings_path, make_texts_body, missing_variable,
    post_json, post_json_request, resolve_key, resolve_url, resolved_key, resolved_url, text_of,
    texts_body, RestClientView,
};
use crate::environment::Environment;
use crate::errors::{ConfigError, ProviderError};
use crate::http::{HttpOutcome, HttpRequest, HttpRequestView};
use crate::json::Json;
use crate::response::{read_vector, read_view, vector_read, Step};
use vstd::prelude::*;
use vstd::string::*;

verus! {

/// A client of Nomic.
#[derive(Clone, Debug, PartialEq, Eq)]
pub struct NomicClient {
    model: String,
    url: String,
    key: String,
}

/// The URL of Nomic where none is given.
pub const DEFAULT_NOMIC_URL: &'static str = "https://api-atlas.nomic.ai/v1/embedding/text";

/// The environment variable that holds the key of Nomic.
pub const DEFAULT_NOMIC_API_KEY_ENV: &'static str = "NOMIC_API_KEY";

impl View for NomicClient {
    type V = RestClientView;

    closed spec fn view(&self) -> RestClientView {
        RestClientView { model: self.model@, url: self.url@, key: self.key@ }
    }
}

impl NomicClient {
    /// The request for one input.
    pub open spec fn request_for(self, input: Seq<char>, input_type: Option<Seq<char>>) -> HttpRequestView {
        post_json(self@.url, false, Some(self@.key), texts_body(input, self@.model, input_type))
    }

    /// The path to the embedding in a response.
    pub open spec fn response_path() -> Seq<Step> {
        embeddings_path()
    }

    /// A client for `model`. The URL is the given one, else the provider's
    /// own; the key is the given one, else the value of `NOMIC_API_KEY`,
    /// and where neither is there the error names that variable.
    pub fn new(
        model: &str,
        url: Option<String>,
        key: Option<String>,
        environment: &Environment,
    ) -> (r: Result<Self, ConfigError>)
        ensures
            match r {
                Ok(client) => resolved_key(key, environment, DEFAULT_NOMIC_API_KEY_ENV@) == Some(
                    client@.key,
                ) && client@.model == model@ && client@.url == resolved_url(
                    url,
                    DEFAULT_NOMIC_URL@,
                ),
                Err(error) => resolved_key(key, environment, DEFAULT_NOMIC_API_KEY_ENV@) is None
                    && error@ == missing_variable(DEFAULT_NOMIC_API_KEY_ENV@),
            },
    {
        match resolve_key(key, environment, DEFAULT_NOMIC_API_KEY_ENV) {
            Ok(key) => Ok(
                Self {
                    model: String::from_str(model),
                    url: resolve_url(url, DEFAULT_NOMIC_URL),
                    key,
                },
            ),
            Err(error) => Err(error),
        }
    }

    /// The model that the client asks for.
    pub fn model(&self) -> (r: &str)
        ensures
            r@ == self@.model,
    {
        self.model.as_str()
    }

    /// The URL that the client posts to.
    pub fn url(&self) -> (r: &str)
        ensures
            r@ == self@.url,
    {
        self.url.as_str()
    }

    /// The key that the client presents.
    pub fn key(&self) -> (r: &str)
        ensures
            r@ == self@.key,
    {
        self.key.as_str()
    }

    /// Makes the request for one input.
    pub fn request(&self, input: &str, input_type: Option<&str>) -> (r: HttpRequest)
        ensures
            r@ == self.request_for(input@, text_of(input_type)),
    {
        let body = make_texts_body(input, self.model.as_str(), input_type);
        post_json_request(self.url.as_str(), false, Some(self.key.as_str()), &body)
    }

    /// Reads the embedding from a response body: the numbers at
    /// `embeddings.0`, each as the bits of its 64-bit float.
    pub fn parse_single_response(value: Json) -> (r: Result<Vec<u64>, ProviderError>)
        ensures
            read_view(r) == vector_read(value@, Self::response_path()),
    {
        let path = make_embeddings_path();
        read_vector(&value, &path)
    }

    /// Infers the embedding of one input: makes the request, has `send` send
    /// it, and reads the embedding from what comes back.
    pub fn infer_single<F: FnOnce(HttpRequest) -> HttpOutcome>(
        &self,
        input: &str,
        input_type: Option<&str>,
        send: F,
    ) -> (r: Result<Vec<u64>, ProviderError>)
        requires
            forall|request: HttpRequest| call_requires(send, (request,)),
        ensures
            inferred(send, self.request_for(input@, text_of(input_type)), Self::response_path(), r),
    {
        let request = self.request(input, input_type);
        let path = make_embeddings_path();
        exchange(request, &path, send)
    }
}

} // verus!
