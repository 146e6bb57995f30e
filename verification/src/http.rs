//! The HTTP exchange as plain values: the request that a client wants sent,
//! and what came of sending it. Every request is a `POST`.

use vstd::prelude::*;
use vstd::string::*;

verus! {

/// One header of a request.
#[derive(Clone, Debug, PartialEq, Eq)]
pub struct Header {
    pub name: String,
    pub value: String,
}

/// The mathematical form of a [`Header`].
pub struct HeaderView {
    pub name: Seq<char>,
    pub value: Seq<char>,
}

impl View for Header {
    type V = HeaderView;

    open spec fn view(&self) -> HeaderView {
        HeaderView { name: self.name@, value: self.value@ }
    }
}

/// A `POST` request: where to, with which headers, and the body.
#[derive(Clone, Debug, PartialEq, Eq)]
pub struct HttpRequest {
    pub url: String,
    pub headers: Vec<Header>,
    pub body: String,
}

/// The mathematical form of an [`HttpRequest`].
pub struct HttpRequestView {
    pub url: Seq<char>,
    pub headers: Seq<HeaderView>,
    pub body: Seq<char>,
}

impl View for HttpRequest {
    type V = HttpRequestView;

    open spec fn view(&self) -> HttpRequestView {
        HttpRequestView {
            url: self.url@,
            headers: Seq::new(self.headers@.len(), |i: int| self.headers@[i]@),
            body: self.body@,
        }
    }
}

/// What came of sending a request.
#[derive(Clone, Debug, PartialEq, Eq)]
pub enum HttpOutcome {
    /// The server answered; this is the body of its answer.
    Body(String),
    /// The request could not be sent, or the server refused it.
    SendFailed(String),
    /// The server answered, and its answer could not be read.
    ReadFailed(String),
}

/// The mathematical form of an [`HttpOutcome`].
pub enum HttpOutcomeView {
    Body(Seq<char>),
    SendFailed(Seq<char>),
    ReadFailed(Seq<char>),
}

impl View for HttpOutcome {
    type V = HttpOutcomeView;

    open spec fn view(&self) -> HttpOutcomeView {
        match self {
            HttpOutcome::Body(text) => HttpOutcomeView::Body(text@),
            HttpOutcome::SendFailed(text) => HttpOutcomeView::SendFailed(text@),
            HttpOutcome::ReadFailed(text) => HttpOutcomeView::ReadFailed(text@),
        }
    }
}

/// The header `name: value`.
pub open spec fn header_view(name: Seq<char>, value: Seq<char>) -> HeaderView {
    HeaderView { name, value }
}

/// Makes the header `name: value`.
pub fn header(name: &str, value: &str) -> (r: Header)
    ensures
        r@ == header_view(name@, value@),
{
    Header { name: String::from_str(name), value: String::from_str(value) }
}

} // verus!
