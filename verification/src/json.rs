//! The request pipeline for JSON endpoints, without the transport.
//!
//! One call passes through these stages, each a value that the next step
//! consumes, so that no stage is entered twice and nothing is retried:
//!
//! 1. idle: [`JsonClient::request`] describes the request;
//! 2. preparing: the caller asks the authentication strategy, while it holds
//!    the strategy exclusively, and hands what came of it to
//!    [`Request::authorize`];
//! 3. sending: the caller sends what `authorize` returned;
//! 4. classifying: [`classify`] says from the head of the answer how its
//!    body is to be read, and [`conclude`] turns the body that was read into
//!    the result of the call: success, or the failure with its kind.

use crate::auth::{AuthOutcome, AuthOutcomeView, TokenRequest};
use crate::error::{ClientError, ErrorKind};
use crate::text::{pairs_view, text_view};
use vstd::prelude::*;
use vstd::slice::slice_index_get;
use vstd::string::StringSliceAdditionalSpecFns;

verus! {

/// The HTTP methods of the pipeline.
#[derive(Clone, Copy, Debug, PartialEq, Eq, Structural)]
pub enum Method {
    Delete,
    Get,
    Head,
    Patch,
    Post,
    Put,
}

/// The body of a request that has none, and the query of one without parameters.
#[derive(Clone, Copy, Debug, PartialEq, Eq, Structural)]
pub struct Nothing;

/// Which authentication strategy prepares the calls of a client.
#[derive(Clone, Copy, Debug, PartialEq, Eq, Structural)]
pub enum Strategy {
    /// None: the endpoint needs no credentials.
    Open,
    /// The strategy of the vendor, which all clients of that vendor share.
    Vendor,
}

/// What the transport of a client is built with, once and for all its calls.
#[derive(Debug)]
pub struct Transport {
    /// The headers that every request carries, each a name and a value.
    pub headers: Vec<(String, String)>,
    pub user_agent: String,
    /// Whether compressed answers are asked for.
    pub gzip: bool,
}

/// What a `Transport` is, over sequences.
pub struct TransportView {
    pub headers: Seq<(Seq<char>, Seq<char>)>,
    pub user_agent: Seq<char>,
    pub gzip: bool,
}

impl View for Transport {
    type V = TransportView;

    open spec fn view(&self) -> TransportView {
        TransportView {
            headers: pairs_view(self.headers@),
            user_agent: self.user_agent@,
            gzip: self.gzip,
        }
    }
}

/// One request: where it goes, what it carries and, once the strategy has
/// been asked, the credential it goes out with.
#[derive(Debug)]
pub struct Request<Q, B> {
    /// The strategy that is to prepare the request.
    pub strategy: Strategy,
    pub method: Method,
    /// The base URL of the client followed by the path of the call.
    pub url: String,
    /// The query parameters, handed through to the transport.
    pub query: Q,
    /// The JSON body, handed through to the transport.
    pub body: B,
    /// The access token to send as a bearer credential, if any.
    pub bearer: Option<String>,
}

impl<Q, B> Request<Q, B> {
    /// This is the request, not yet prepared, for `method` on `path` below
    /// the base URL of `client`.
    pub open spec fn is_call(&self, client: JsonClient, method: Method, path: Seq<char>) -> bool {
        &&& self.strategy == client.strategy()
        &&& self.method == method
        &&& self.url@ == client.base() + path
        &&& self.bearer is None
    }

    /// The bearer credential as a sequence of characters.
    pub open spec fn bearer_view(&self) -> Option<Seq<char>> {
        text_view(self.bearer)
    }

    /// The request that goes out after the strategy has been asked: with the
    /// access token it said to attach, or as it was. A failure of the
    /// strategy ends the call with that failure, and nothing is sent.
    pub fn authorize(self, prepared: Result<AuthOutcome, ClientError>) -> (r: Result<
        Request<Q, B>,
        ClientError,
    >)
        ensures
            prepared matches Err(e) ==> r == Err::<Request<Q, B>, ClientError>(e),
            prepared matches Ok(outcome) ==> r matches Ok(request) && request.strategy
                == self.strategy && request.method == self.method && request.url == self.url
                && request.query == self.query && request.body == self.body
                && request.bearer_view() == match outcome@ {
                AuthOutcomeView::Bearer(token) => Some(token),
                AuthOutcomeView::Unmodified => self.bearer_view(),
            },
    {
        match prepared {
            Ok(AuthOutcome::Bearer(token)) => Ok(
                Request {
                    strategy: self.strategy,
                    method: self.method,
                    url: self.url,
                    query: self.query,
                    body: self.body,
                    bearer: Some(token),
                },
            ),
            Ok(AuthOutcome::Unmodified) => Ok(self),
            Err(e) => Err(e),
        }
    }
}

/// A client of one JSON endpoint: what its transport is built with, the
/// base URL that its calls start with and the strategy that prepares them.
#[derive(Debug)]
pub struct JsonClient {
    client: Transport,
    url: &'static str,
    auth: Strategy,
}

impl JsonClient {
    pub fn new(client: Transport, url: &'static str, auth: Strategy) -> (r: Self)
        ensures
            r.transport() == client,
            r.base() == url@,
            r.strategy() == auth,
    {
        JsonClient { client, url, auth }
    }

    /// What the transport is built with.
    pub closed spec fn transport(&self) -> Transport {
        self.client
    }

    /// The base URL.
    pub closed spec fn base(&self) -> Seq<char> {
        self.url@
    }

    /// The strategy that prepares the calls.
    pub closed spec fn strategy(&self) -> Strategy {
        self.auth
    }

    /// What the transport is built with.
    pub fn client(&self) -> (r: &Transport)
        ensures
            *r == self.transport(),
    {
        &self.client
    }

    /// The base URL.
    pub fn url(&self) -> (r: &'static str)
        ensures
            r@ == self.base(),
    {
        self.url
    }

    /// The strategy that prepares the calls.
    pub fn auth(&self) -> (r: Strategy)
        ensures
            r == self.strategy(),
    {
        self.auth
    }

    /// The request that performs the token exchange `exchange` on this
    /// endpoint: a POST to its path. The body lists the members of the JSON
    /// object that is to be sent.
    pub fn exchange(&self, exchange: TokenRequest) -> (r: Request<Nothing, Vec<(String, String)>>)
        ensures
            r.strategy == self.strategy(),
            r.method == Method::Post,
            r.url@ == self.base() + exchange@.path,
            pairs_view(r.body@) == exchange@.fields,
            r.bearer is None,
    {
        self.post(exchange.path.as_str(), Nothing, exchange.fields)
    }

    /// The request for `method` on the path `url` below the base URL, with
    /// no credential yet.
    pub fn request<Q, B>(&self, method: Method, url: &str, query: Q, body: B) -> (r: Request<
        Q,
        B,
    >)
        ensures
            r.strategy == self.strategy(),
            r.method == method,
            r.url@ == self.base() + url@,
            r.query == query,
            r.body == body,
            r.bearer is None,
    {
        Request {
            strategy: self.auth,
            method,
            url: String::from_str(self.url).concat(url),
            query,
            body,
            bearer: None,
        }
    }

    pub fn delete<Q, B>(&self, url: &str, query: Q, body: B) -> (r: Request<Q, B>)
        ensures
            r.strategy == self.strategy(),
            r.method == Method::Delete,
            r.url@ == self.base() + url@,
            r.query == query,
            r.body == body,
            r.bearer is None,
    {
        self.request(Method::Delete, url, query, body)
    }

    pub fn get<Q>(&self, url: &str, query: Q) -> (r: Request<Q, Nothing>)
        ensures
            r.strategy == self.strategy(),
            r.method == Method::Get,
            r.url@ == self.base() + url@,
            r.query == query,
            r.bearer is None,
    {
        self.request(Method::Get, url, query, Nothing)
    }

    pub fn head<Q>(&self, url: &str, query: Q) -> (r: Request<Q, Nothing>)
        ensures
            r.strategy == self.strategy(),
            r.method == Method::Head,
            r.url@ == self.base() + url@,
            r.query == query,
            r.bearer is None,
    {
        self.request(Method::Head, url, query, Nothing)
    }

    pub fn patch<Q, B>(&self, url: &str, query: Q, body: B) -> (r: Request<Q, B>)
        ensures
            r.strategy == self.strategy(),
            r.method == Method::Patch,
            r.url@ == self.base() + url@,
            r.query == query,
            r.body == body,
            r.bearer is None,
    {
        self.request(Method::Patch, url, query, body)
    }

    pub fn post<Q, B>(&self, url: &str, query: Q, body: B) -> (r: Request<Q, B>)
        ensures
            r.strategy == self.strategy(),
            r.method == Method::Post,
            r.url@ == self.base() + url@,
            r.query == query,
            r.body == body,
            r.bearer is None,
    {
        self.request(Method::Post, url, query, body)
    }

    pub fn put<Q, B>(&self, url: &str, query: Q, body: B) -> (r: Request<Q, B>)
        ensures
            r.strategy == self.strategy(),
            r.method == Method::Put,
            r.url@ == self.base() + url@,
            r.query == query,
            r.body == body,
            r.bearer is None,
    {
        self.request(Method::Put, url, query, body)
    }
}

/// The head of an answer, as far as the pipeline reads it.
#[derive(Debug)]
pub struct ResponseHead {
    /// The HTTP status code.
    pub status: u16,
    /// The bytes of the `content-type` header, if the answer has one.
    pub content_type: Option<Vec<u8>>,
}

/// How the body of an answer is to be read.
#[derive(Clone, Copy, Debug, PartialEq, Eq, Structural)]
pub enum BodyKind {
    /// The call succeeded: the body holds the value that the caller expects.
    Typed,
    /// The call failed and the body is a JSON document that says why.
    Json,
    /// The call failed and the body is to be taken as text.
    Text,
}

/// The status codes of success: 200 to 299.
pub open spec fn is_success(status: u16) -> bool {
    200 <= status < 300
}

/// The one content type that marks a JSON body: these bytes and no others,
/// without parameters.
pub open spec fn json_content_type() -> Seq<u8> {
    "application/json".spec_bytes()
}

/// How the body of an answer with this status and content type is read.
pub open spec fn body_kind(status: u16, content_type: Option<Seq<u8>>) -> BodyKind {
    if is_success(status) {
        BodyKind::Typed
    } else if content_type == Some(json_content_type()) {
        BodyKind::Json
    } else {
        BodyKind::Text
    }
}

/// The status codes with which a server reports a fault of its own: 500 to 599.
pub open spec fn is_server_error(status: u16) -> bool {
    500 <= status < 600
}

/// The bytes of the JSON content type: those of `application/json` in ASCII.
pub proof fn lemma_json_content_type()
    ensures
        json_content_type() == seq![
            0x61u8, 0x70, 0x70, 0x6c, 0x69, 0x63, 0x61, 0x74, 0x69, 0x6f, 0x6e, 0x2f, 0x6a, 0x73,
            0x6f, 0x6e,
        ],
{
    reveal_strlit("application/json");
    broadcast use vstd::string::is_ascii_spec_bytes;

    assert(vstd::string::is_ascii("application/json"));
    assert("application/json".spec_bytes() =~= seq![
        0x61u8, 0x70, 0x70, 0x6c, 0x69, 0x63, 0x61, 0x74, 0x69, 0x6f, 0x6e, 0x2f, 0x6a, 0x73, 0x6f,
        0x6e,
    ]);
}

/// A failed answer whose content type is anything but the JSON one, be it
/// plain text, a JSON type with parameters or none at all, is read as text:
/// no JSON document is looked for in it.
pub proof fn lemma_other_content_is_text(status: u16, content_type: Option<Seq<u8>>)
    requires
        !is_success(status),
        content_type != Some(json_content_type()),
    ensures
        body_kind(status, content_type) == BodyKind::Text,
{
}

/// A successful answer is read as the value that the caller expects,
/// whatever its content type says.
pub proof fn lemma_success_is_typed(status: u16, content_type: Option<Seq<u8>>)
    requires
        is_success(status),
    ensures
        body_kind(status, content_type) == BodyKind::Typed,
{
}

/// The view of an optional header value.
pub open spec fn header_view(value: Option<Vec<u8>>) -> Option<Seq<u8>> {
    match value {
        Some(bytes) => Some(bytes@),
        None => None,
    }
}

/// Whether two byte strings are the same.
pub fn bytes_equal(a: &[u8], b: &[u8]) -> (r: bool)
    ensures
        r == (a@ == b@),
{
    if a.len() != b.len() {
        return false;
    }
    let mut i: usize = 0;
    while i < a.len()
        invariant
            a@.len() == b@.len(),
            i <= a@.len(),
            forall|j: int| 0 <= j < i ==> a@[j] == b@[j],
        decreases a@.len() - i,
    {
        if *slice_index_get(a, i) != *slice_index_get(b, i) {
            return false;
        }
        i = i + 1;
    }
    assert(a@ =~= b@);
    true
}

/// Whether `status` reports success.
pub fn status_is_success(status: u16) -> (r: bool)
    ensures
        r == is_success(status),
{
    200 <= status && status < 300
}

/// Whether `status` reports a fault of the server.
pub fn status_is_server_error(status: u16) -> (r: bool)
    ensures
        r == is_server_error(status),
{
    500 <= status && status < 600
}

/// What follows the sending of a request: a transport that failed ends the
/// call; an answer says by its status and content type how its body is read.
pub fn classify(sent: Result<ResponseHead, reqwest::Error>) -> (r: Result<BodyKind, ClientError>)
    ensures
        sent matches Err(e) ==> r == Err::<BodyKind, ClientError>(ClientError::RequestError(e)),
        sent matches Ok(head) ==> r == Ok::<BodyKind, ClientError>(
            body_kind(head.status, header_view(head.content_type)),
        ),
{
    match sent {
        Err(e) => Err(ClientError::RequestError(e)),
        Ok(head) => {
            if status_is_success(head.status) {
                Ok(BodyKind::Typed)
            } else {
                let json = match &head.content_type {
                    Some(value) => bytes_equal(value.as_slice(), "application/json".as_bytes()),
                    None => false,
                };
                if json {
                    Ok(BodyKind::Json)
                } else {
                    Ok(BodyKind::Text)
                }
            }
        },
    }
}

/// The body of an answer as the transport read it, in the way that
/// [`classify`] asked for.
#[derive(Debug)]
pub enum Body<R> {
    Typed(Result<R, reqwest::Error>),
    Json(Result<serde_json::Value, reqwest::Error>),
    Text(Result<String, reqwest::Error>),
}

impl<R> Body<R> {
    /// The way in which the body was read.
    pub open spec fn spec_kind(&self) -> BodyKind {
        match *self {
            Body::Typed(_) => BodyKind::Typed,
            Body::Json(_) => BodyKind::Json,
            Body::Text(_) => BodyKind::Text,
        }
    }

    /// The way in which the body was read.
    #[verifier::when_used_as_spec(spec_kind)]
    pub fn kind(&self) -> (k: BodyKind)
        ensures
            k == self.spec_kind(),
    {
        match self {
            Body::Typed(_) => BodyKind::Typed,
            Body::Json(_) => BodyKind::Json,
            Body::Text(_) => BodyKind::Text,
        }
    }
}

/// The result of a call whose answer had the body `body`.
pub open spec fn concluded<R>(body: Body<R>) -> Result<R, ClientError> {
    match body {
        Body::Typed(Ok(value)) => Ok(value),
        Body::Typed(Err(e)) => Err(ClientError::RequestError(e)),
        Body::Json(Ok(document)) => Err(ClientError::JsonError(document)),
        Body::Json(Err(e)) => Err(ClientError::RequestError(e)),
        Body::Text(Ok(text)) => Err(ClientError::TextError(text)),
        Body::Text(Err(e)) => Err(ClientError::RequestError(e)),
    }
}

/// How a call ends: in success, or in a failure of some kind.
pub open spec fn end_of<R>(r: Result<R, ClientError>) -> Option<ErrorKind> {
    match r {
        Ok(_) => None,
        Err(e) => Some(e.spec_kind()),
    }
}

/// Only an answer that reports success ends in success, and a failed answer
/// ends in the failure that its content type announced: a body that was to
/// be read as text never ends in a JSON failure, nor the other way round.
/// Whatever the body, the call ends in a request failure where the body
/// could not be read.
pub proof fn lemma_ends<R>(body: Body<R>)
    ensures
        body.spec_kind() == BodyKind::Typed ==> end_of(concluded(body)) is None || end_of(
            concluded(body),
        ) == Some(ErrorKind::Request),
        body.spec_kind() == BodyKind::Json ==> end_of(concluded(body)) == Some(ErrorKind::Json)
            || end_of(concluded(body)) == Some(ErrorKind::Request),
        body.spec_kind() == BodyKind::Text ==> end_of(concluded(body)) == Some(ErrorKind::Text)
            || end_of(concluded(body)) == Some(ErrorKind::Request),
{
}

/// The result of the call: the value of a successful answer, the JSON
/// document or the text of a failed one, or the failure to read any of them.
pub fn conclude<R>(body: Body<R>) -> (r: Result<R, ClientError>)
    ensures
        r == concluded(body),
{
    match body {
        Body::Typed(Ok(value)) => Ok(value),
        Body::Typed(Err(e)) => Err(ClientError::RequestError(e)),
        Body::Json(Ok(document)) => Err(ClientError::JsonError(document)),
        Body::Json(Err(e)) => Err(ClientError::RequestError(e)),
        Body::Text(Ok(text)) => Err(ClientError::TextError(text)),
        Body::Text(Err(e)) => Err(ClientError::RequestError(e)),
    }
}

} // verus!
