//! The failures a client call can end in, shared by every layer.

use vstd::prelude::*;

verus! {

/// `reqwest::Error`: what the transport reports when a request could not be
/// sent or its answer could not be read or decoded. Carried as it is.
#[verifier::external_type_specification]
#[verifier::external_body]
pub struct ExReqwestError(reqwest::Error);

/// `serde_json::Value`: an untyped JSON document. Carried as it is.
#[verifier::external_type_specification]
#[verifier::external_body]
pub struct ExJsonValue(serde_json::Value);

/// `graphql_client::Error`: one entry of a GraphQL answer's `errors` array.
/// Carried as it is.
#[verifier::external_type_specification]
#[verifier::external_body]
pub struct ExGraphQLError(graphql_client::Error);

/// How a REST call failed.
#[derive(Debug)]
pub enum ClientError {
    /// The transport failed, or the body of a successful answer could not be decoded.
    RequestError(reqwest::Error),
    /// The server refused the request and said why in a JSON body.
    JsonError(serde_json::Value),
    /// The server refused the request with any other body, or a local
    /// precondition was not met and nothing was sent.
    TextError(String),
}

/// What a `ClientError` is, with its text as a sequence of characters.
pub enum ClientErrorView {
    RequestError(reqwest::Error),
    JsonError(serde_json::Value),
    TextError(Seq<char>),
}

impl View for ClientError {
    type V = ClientErrorView;

    open spec fn view(&self) -> ClientErrorView {
        match *self {
            ClientError::RequestError(e) => ClientErrorView::RequestError(e),
            ClientError::JsonError(v) => ClientErrorView::JsonError(v),
            ClientError::TextError(s) => ClientErrorView::TextError(s@),
        }
    }
}

/// The class of a failure, without what it carries.
#[derive(Clone, Copy, Debug, PartialEq, Eq, Structural)]
pub enum ErrorKind {
    /// Transport-level, decoding of a successful body included.
    Request,
    /// A structured error from the server.
    Json,
    /// An unstructured error from the server, or a local precondition.
    Text,
    /// The transport succeeded and the GraphQL answer lists errors.
    GraphQL,
}

impl ClientError {
    pub open spec fn spec_kind(&self) -> ErrorKind {
        match *self {
            ClientError::RequestError(_) => ErrorKind::Request,
            ClientError::JsonError(_) => ErrorKind::Json,
            ClientError::TextError(_) => ErrorKind::Text,
        }
    }

    /// The class this failure belongs to.
    #[verifier::when_used_as_spec(spec_kind)]
    pub fn kind(&self) -> (k: ErrorKind)
        ensures
            k == self.spec_kind(),
    {
        match self {
            ClientError::RequestError(_) => ErrorKind::Request,
            ClientError::JsonError(_) => ErrorKind::Json,
            ClientError::TextError(_) => ErrorKind::Text,
        }
    }
}

/// How a GraphQL call failed: as a REST call does, or with the errors that a
/// transported answer lists.
#[derive(Debug)]
pub enum GraphQLClientError {
    RequestError(reqwest::Error),
    JsonError(serde_json::Value),
    TextError(String),
    GraphQLError(Vec<graphql_client::Error>),
}

/// What a `GraphQLClientError` is, over sequences.
pub enum GraphQLClientErrorView {
    RequestError(reqwest::Error),
    JsonError(serde_json::Value),
    TextError(Seq<char>),
    GraphQLError(Seq<graphql_client::Error>),
}

impl View for GraphQLClientError {
    type V = GraphQLClientErrorView;

    open spec fn view(&self) -> GraphQLClientErrorView {
        match *self {
            GraphQLClientError::RequestError(e) => GraphQLClientErrorView::RequestError(e),
            GraphQLClientError::JsonError(v) => GraphQLClientErrorView::JsonError(v),
            GraphQLClientError::TextError(s) => GraphQLClientErrorView::TextError(s@),
            GraphQLClientError::GraphQLError(errors) => GraphQLClientErrorView::GraphQLError(
                errors@,
            ),
        }
    }
}

/// A REST failure seen from the GraphQL layer: the same failure, unchanged.
pub open spec fn lift(error: ClientErrorView) -> GraphQLClientErrorView {
    match error {
        ClientErrorView::RequestError(e) => GraphQLClientErrorView::RequestError(e),
        ClientErrorView::JsonError(v) => GraphQLClientErrorView::JsonError(v),
        ClientErrorView::TextError(s) => GraphQLClientErrorView::TextError(s),
    }
}

impl GraphQLClientError {
    pub open spec fn spec_kind(&self) -> ErrorKind {
        match *self {
            GraphQLClientError::RequestError(_) => ErrorKind::Request,
            GraphQLClientError::JsonError(_) => ErrorKind::Json,
            GraphQLClientError::TextError(_) => ErrorKind::Text,
            GraphQLClientError::GraphQLError(_) => ErrorKind::GraphQL,
        }
    }

    /// The class this failure belongs to.
    #[verifier::when_used_as_spec(spec_kind)]
    pub fn kind(&self) -> (k: ErrorKind)
        ensures
            k == self.spec_kind(),
    {
        match self {
            GraphQLClientError::RequestError(_) => ErrorKind::Request,
            GraphQLClientError::JsonError(_) => ErrorKind::Json,
            GraphQLClientError::TextError(_) => ErrorKind::Text,
            GraphQLClientError::GraphQLError(_) => ErrorKind::GraphQL,
        }
    }
}

impl From<ClientError> for GraphQLClientError {
    fn from(error: ClientError) -> (r: GraphQLClientError)
        ensures
            r@ == lift(error@),
    {
        match error {
            ClientError::RequestError(e) => GraphQLClientError::RequestError(e),
            ClientError::JsonError(e) => GraphQLClientError::JsonError(e),
            ClientError::TextError(e) => GraphQLClientError::TextError(e),
        }
    }
}

impl vstd::std_specs::convert::FromSpecImpl<ClientError> for GraphQLClientError {
    open spec fn obeys_from_spec() -> bool {
        true
    }

    open spec fn from_spec(error: ClientError) -> GraphQLClientError {
        match error {
            ClientError::RequestError(e) => GraphQLClientError::RequestError(e),
            ClientError::JsonError(e) => GraphQLClientError::JsonError(e),
            ClientError::TextError(e) => GraphQLClientError::TextError(e),
        }
    }
}

} // verus!
