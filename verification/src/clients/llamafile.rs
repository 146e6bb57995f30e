//! The client of a local llamafile server: `{"content"}` goes out, `embedding`
//! comes back.

use crate::clients::{
    content_body, embedding_path, exchange, inferred, make_embedding_path, post_json,
    post_json_request, resolve_url, resolved_url,
};
use crate::errors::ProviderError;
use crate::http::{HttpOutcome, HttpRequest, HttpRequestView};
use crate::json::Json;
use crate::response::Step;
use vstd::prelude::*;
use vstd::string::*;

verus! {
/// A client of a local llamafile server. It presents no key and names no
/// model.
#[derive(Clone, Debug, PartialEq, Eq)]
pub struct LlamafileClient {
    url: String,
}

/// The URL of a llamafile server where none is given.
pub const DEFAULT_LLAMAFILE_URL: &'static str = "http://localhost:8080/embedding";

impl View for LlamafileClient {
    type V = Seq<char>;

    /// The URL that the client posts to.
    closed spec fn view(&self) -> Seq<char> {
        self.url@
    }
}

impl LlamafileClient {
    /// The request for one input.
    pub open spec fn request_for(self, input: Seq<char>) -> HttpRequestView {
        post_json(self@, false, None, content_body(input))
    }

    /// The path to the embedding in a response, the one of an Ollama server.
    pub open spec fn response_path() -> Seq<Step> {
        embedding_path()
    }

    /// A client at the given URL, or else at the server's usual one.
    pub fn new(url: Option<String>) -> (r: Self)
        ensures
            r@ == resolved_url(url, DEFAULT_LLAMAFILE_URL@),
    {
        Self { url: resolve_url(url, DEFAULT_LLAMAFILE_URL) }
    }

    /// The URL that the client posts to.
    pub fn url(&self) -> (r: &str)
        ensures
            r@ == self@,
    {
        self.url.as_str()
    }

    /// Makes the request for one input.
    pub fn request(&self, input: &str) -> (r: HttpRequest)
        ensures
            r@ == self.request_for(input@),
    {
        let mut body = Json::object();
        body.add("content", Json::text(input));
        post_json_request(self.url.as_str(), false, None, &body)
    }

    /// Infers the embedding of one input: makes the request, has `send` send
    /// it, and reads the embedding from what comes back.
    pub fn infer_single<F: FnOnce(HttpRequest) -> HttpOutcome>(&self, input: &str, send: F) -> (r:
        Result<Vec<u64>, ProviderError>)
        requires
            forall|request: HttpRequest| call_requires(send, (request,)),
        ensures
            inferred(send, self.request_for(input@), Self::response_path(), r),
    {
        let request = self.request(input);
        let path = make_embedding_path();
        exchange(request, &path, send)
    }
}

} // verus!
