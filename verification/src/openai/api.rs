//! The HTTP exchange with the backend, as far as it can be decided without
//! performing it: what is sent where, and what an answer means.
//!
//! The caller performs the exchange. It sends what `post` describes and
//! hands the status and body of the answer to `handle_response`, or to
//! `post_response` where it wants every failure of the exchange wrapped in
//! the same way. Either way an answer that the backend refused is a provider
//! error that carries the answer's body.

use vstd::prelude::*;
use crate::error::{result_view, Error, ErrorView};
use crate::openai::models::{ChatRequest, EmbedRequest};
use crate::text::join;

verus! {

/// An authenticated POST of a JSON body, ready to be sent.
#[derive(Clone, Debug)]
pub struct Post {
    /// Where the request goes.
    pub url: String,
    /// The value of the `Content-Type` header.
    pub content_type: String,
    /// The value of the `Authorization` header.
    pub authorization: String,
    /// The body, sent as it is.
    pub body: String,
}

/// A `Post` as plain values.
pub struct PostView {
    pub url: Seq<char>,
    pub content_type: Seq<char>,
    pub authorization: Seq<char>,
    pub body: Seq<char>,
}

impl View for Post {
    type V = PostView;

    open spec fn view(&self) -> PostView {
        PostView {
            url: self.url@,
            content_type: self.content_type@,
            authorization: self.authorization@,
            body: self.body@,
        }
    }
}

/// The address of an endpoint: the path behind the fixed base.
pub open spec fn endpoint(path: Seq<char>) -> Seq<char> {
    "https://api.openai.com/v1/"@ + path
}

/// The POST that carries `body` to the endpoint at `path` under `api_key`.
/// The credential stands in the header and nowhere else.
pub open spec fn post_of(path: Seq<char>, body: Seq<char>, api_key: Seq<char>) -> PostView {
    PostView {
        url: endpoint(path),
        content_type: "application/json"@,
        authorization: "Bearer "@ + api_key,
        body,
    }
}

/// What an answer means: with status 200 its body is the document to
/// decode, with any other status it is a provider error whose text is the
/// body.
pub open spec fn response_of(status: u16, body: Seq<char>) -> Result<Seq<char>, ErrorView> {
    if status == 200 {
        Ok(body)
    } else {
        Err(ErrorView::Provider(body))
    }
}

/// Whether `text` ends in `tail`.
pub open spec fn ends_in(text: Seq<char>, tail: Seq<char>) -> bool {
    tail.len() <= text.len() && text.subrange(text.len() - tail.len(), text.len() as int) == tail
}

/// The address of the endpoint at `path`.
pub fn url(path: &str) -> (address: String)
    ensures
        address@ == endpoint(path@),
{
    join("https://api.openai.com/v1/", path)
}

/// Describes the POST of `body` to the endpoint at `path`, authenticated by
/// `api_key` as a bearer token.
pub fn post(path: &str, body: &str, api_key: &str) -> (request: Post)
    ensures
        request@ == post_of(path@, body@, api_key@),
{
    Post {
        url: url(path),
        content_type: "application/json".to_owned(),
        authorization: join("Bearer ", api_key),
        body: body.to_owned(),
    }
}

/// Describes the POST of a chat request whose encoded form is `body`.
pub fn chat(request: &ChatRequest, body: &str) -> (outgoing: Post)
    ensures
        outgoing@ == post_of("chat/completions"@, body@, request.api_key@),
{
    post("chat/completions", body, request.api_key.as_str())
}

/// Describes the POST of an embedding request whose encoded form is `body`.
pub fn embed(request: &EmbedRequest, body: &str) -> (outgoing: Post)
    ensures
        outgoing@ == post_of("embeddings"@, body@, request.api_key@),
{
    post("embeddings", body, request.api_key.as_str())
}

/// Decides what an answer means. Only status 200 yields a document to
/// decode; any other answer is a provider error, and its body becomes the
/// error's text, word for word.
pub fn handle_response(status: u16, body: String) -> (r: Result<String, Error>)
    ensures
        result_view(r) == response_of(status, body@),
{
    if status != 200 {
        Err(Error::Provider(body))
    } else {
        Ok(body)
    }
}

/// What the caller of `post` gets for an answer: as `handle_response`
/// decides, with the error wrapped as a provider error.
pub fn post_response(status: u16, body: String) -> (r: Result<String, Error>)
    ensures
        result_view(r) == match response_of(status, body@) {
            Ok(text) => Ok(text),
            Err(e) => Err(e.wrapped()),
        },
{
    match handle_response(status, body) {
        Ok(text) => Ok(text),
        Err(e) => Err(e.into_provider()),
    }
}

/// An answer with any status but 200 is never a document to decode. It is a
/// provider error whose text is the answer's body, and the provider error
/// that `post_response` wraps it in still ends in the body, word for word,
/// as does the message of either.
pub proof fn lemma_failure_carries_body(status: u16, body: Seq<char>)
    requires
        status != 200,
    ensures
        response_of(status, body) == Err::<Seq<char>, ErrorView>(ErrorView::Provider(body)),
        ErrorView::Provider(body).wrapped() == ErrorView::Provider("Provider error: "@ + body),
        ends_in(ErrorView::Provider(body).text(), body),
        ends_in(ErrorView::Provider(body).wrapped().detail(), body),
        ends_in(ErrorView::Provider(body).wrapped().text(), body),
{
    let text = ErrorView::Provider(body).text();
    let wrapped = ErrorView::Provider(body).wrapped().text();
    assert(text.subrange(text.len() - body.len(), text.len() as int) =~= body);
    assert(wrapped.subrange(wrapped.len() - body.len(), wrapped.len() as int) =~= body);
}

} // verus!
