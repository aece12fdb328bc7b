//! The GraphQL layer over the JSON pipeline: every query is a POST to the
//! endpoint itself, and an answer that was transported well is still
//! inspected for the errors it lists.

use crate::error::{lift, ClientError, GraphQLClientError, GraphQLClientErrorView};
use crate::json::{JsonClient, Method, Nothing, Request, Strategy, Transport};
use vstd::prelude::*;

verus! {

/// The envelope of a GraphQL answer, as far as the pipeline reads it.
#[derive(Debug)]
pub struct Envelope<D> {
    /// The absent, partial or complete data.
    pub data: Option<D>,
    /// The errors that the server lists, if it lists any.
    pub errors: Option<Vec<graphql_client::Error>>,
}

impl<D> Envelope<D> {
    /// The server lists at least one error.
    pub open spec fn has_errors(&self) -> bool {
        self.errors matches Some(errors) && errors@.len() > 0
    }
}

/// A client of one GraphQL endpoint.
#[derive(Debug)]
pub struct GraphQLClient {
    json_client: JsonClient,
}

impl GraphQLClient {
    pub fn new(client: Transport, url: &'static str, auth: Strategy) -> (r: Self)
        ensures
            r.json().transport() == client,
            r.json().base() == url@,
            r.json().strategy() == auth,
    {
        GraphQLClient { json_client: JsonClient::new(client, url, auth) }
    }

    /// The JSON client that carries the queries.
    pub closed spec fn json(&self) -> JsonClient {
        self.json_client
    }

    /// The JSON client that carries the queries.
    pub fn json_client(&self) -> (r: &JsonClient)
        ensures
            *r == self.json(),
    {
        &self.json_client
    }

    /// The request that carries the query `body`: a POST to the endpoint,
    /// without query parameters and with no credential yet.
    pub fn query<V>(&self, body: V) -> (r: Request<Nothing, V>)
        ensures
            r.strategy == self.json().strategy(),
            r.method == Method::Post,
            r.url@ == self.json().base(),
            r.body == body,
            r.bearer is None,
    {
        let r = self.json_client.post("", Nothing, body);
        proof {
            reveal_strlit("");
            assert(self.json().base() + ""@ =~= self.json().base());
        }
        r
    }

    /// The result of a query from what the JSON pipeline made of its answer.
    /// A failure of the pipeline stays what it was. An answer that lists
    /// errors is a failure that carries them, though it was transported
    /// well; any other answer is the result.
    pub fn inspect<D>(answer: Result<Envelope<D>, ClientError>) -> (r: Result<
        Envelope<D>,
        GraphQLClientError,
    >)
        ensures
            answer matches Err(e) ==> r matches Err(f) && f@ == lift(e@),
            answer matches Ok(envelope) ==> if envelope.has_errors() {
                r matches Err(f) && f@ == GraphQLClientErrorView::GraphQLError(
                    envelope.errors->0@,
                )
            } else {
                r == Ok::<Envelope<D>, GraphQLClientError>(envelope)
            },
    {
        match answer {
            Err(e) => Err(GraphQLClientError::from(e)),
            Ok(envelope) => {
                let listed = match &envelope.errors {
                    Some(errors) => errors.len() > 0,
                    None => false,
                };
                if listed {
                    match envelope.errors {
                        Some(errors) => Err(GraphQLClientError::GraphQLError(errors)),
                        None => Ok(Envelope { data: envelope.data, errors: None }),
                    }
                } else {
                    Ok(envelope)
                }
            },
        }
    }
}

} // verus!
