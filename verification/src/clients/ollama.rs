//! The client of a local Ollama server: `{"prompt", "model"}` goes out,
//! `embedding` comes back.

use crate::clients::{
    embedding_path, exchange, inferred, make_embedding_path, post_json, post_json_request,
    prompt_body, resolve_url, resolved_url,
};
use crate::errors::ProviderError;
use crate::http::{HttpOutcome, HttpRequest, HttpRequestView};
use crate::json::Json;
use crate::response::{read_vector, read_view, vector_read, Step};
use vstd::prelude::*;
use vstd::string::*;

verus! {

/// The configuration of a client of a local Ollama server.
pub struct OllamaClientView {
    pub model: Seq<char>,
    pub url: Seq<char>,
}

/// A client of a local Ollama server. It presents no key.
#[derive(Clone, Debug, PartialEq, Eq)]
pub struct OllamaClient {
    url: String,
    model: String,
}

/// The URL of an Ollama server where none is given.
pub const DEFAULT_OLLAMA_URL: &'static str = "http://localhost:11434/api/embeddings";

impl View for OllamaClient {
    type V = OllamaClientView;

    closed spec fn view(&self) -> OllamaClientView {
        OllamaClientView { model: self.model@, url: self.url@ }
    }
}

impl OllamaClient {
    /// The request for one input.
    pub open spec fn request_for(self, input: Seq<char>) -> HttpRequestView {
        post_json(self@.url, false, None, prompt_body(input, self@.model))
    }

    /// The path to the embedding in a response.
    pub open spec fn response_path() -> Seq<Step> {
        embedding_path()
    }

    /// A client for `model`, at the given URL or else at the server's usual
    /// one.
    pub fn new(model: &str, url: Option<String>) -> (r: Self)
        ensures
            r@.model == model@,
            r@.url == resolved_url(url, DEFAULT_OLLAMA_URL@),
    {
        Self { model: String::from_str(model), url: resolve_url(url, DEFAULT_OLLAMA_URL) }
    }

    /// The model that the client asks for.
    pub fn model(&self) -> (r: &str)
        ensures
            r@ == self@.model,
    {
        self.model.as_str()
    }

    /// The URL that the client posts to.
    pub fn url(&self) -> (r: &str)
        ensures
            r@ == self@.url,
    {
        self.url.as_str()
    }

    /// Makes the request for one input.
    pub fn request(&self, input: &str) -> (r: HttpRequest)
        ensures
            r@ == self.request_for(input@),
    {
        let mut body = Json::object();
        body.add("prompt", Json::text(input));
        body.add("model", Json::text(self.model.as_str()));
        post_json_request(self.url.as_str(), false, None, &body)
    }

    /// Reads the embedding from a response body: the numbers at `embedding`,
    /// each as the bits of its 64-bit float.
    pub fn parse_single_response(value: Json) -> (r: Result<Vec<u64>, ProviderError>)
        ensures
            read_view(r) == vector_read(value@, Self::response_path()),
    {
        let path = make_embedding_path();
        read_vector(&value, &path)
    }

    /// Infers the embedding of one input: makes the request, has `send` send
    /// it, and reads the embedding from what comes back.
    pub fn infer_single<F: FnOnce(HttpRequest) -> HttpOutcome>(&self, input: &str, send: F) -> (r:
        Result<Vec<u64>, ProviderError>)
        requires
            forall|request: HttpRequest| call_requires(send, (request,)),
        ensures
            inferred(send, self.request_for(input@), Self::response_path(), r),
    {
        let request = self.request(input);
        let path = make_embedding_path();
        exchange(request, &path, send)
    }
}

} // verus!
