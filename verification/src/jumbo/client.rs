//! The calls of this vendor's APIs: where each goes and what it carries.
//! Sending them is the caller's part.

use crate::auth::TokenStateView;
use crate::client::Identifier;
use crate::error::ClientError;
use crate::graphql::GraphQLClient;
use crate::json::{JsonClient, Method, Nothing, Request, Strategy, Transport, TransportView};
use crate::jumbo::auth::{code_request, refresh_request, JumboAuth, JumboToken};
use crate::jumbo::receipt::{Receipt, ReceiptSummary};
use crate::text::{pair, pairs_view};
use vstd::prelude::*;

verus! {

pub const AUTH_API_URL: &'static str = "https://auth.jumbo.com";

pub const API_URL: &'static str = "https://mobileapi.jumbo.com";

pub const GRAPHQL_API_URL: &'static str = "https://www.jumbo.com/api/graphql";

pub const LOYALTY_API_URL: &'static str = "https://loyalty-app.jumbo.com/api";

pub const LOYALTY_GRAPHQL_API_URL: &'static str = "https://loyalty-app.jumbo.com/api/graphql";

pub const APP_NAME: &'static str = "Jumbo";

pub const APP_SOURCE: &'static str = "JUMBO-APP";

pub const APP_VERSION: &'static str = "11.1.0";

/// How the clients name themselves to the vendor: the app and its version.
pub open spec fn user_agent() -> Seq<char> {
    APP_NAME@ + "/"@ + APP_VERSION@
}

/// What the transport of the authentication endpoint is built with.
pub open spec fn auth_api_transport() -> TransportView {
    TransportView { headers: Seq::empty(), user_agent: user_agent(), gzip: true }
}

/// What the transports of the other endpoints are built with.
pub open spec fn api_transport() -> TransportView {
    TransportView { headers: seq![("x-source"@, APP_SOURCE@)], user_agent: user_agent(), gzip: true }
}

/// The path on which one receipt is found.
pub open spec fn receipt_path(receipt_id: Seq<char>) -> Seq<char> {
    "/receipt/"@ + receipt_id
}

fn new_user_agent() -> (r: String)
    ensures
        r@ == user_agent(),
{
    String::from_str(APP_NAME).concat("/").concat(APP_VERSION)
}

/// What the transport of the authentication endpoint is built with.
pub fn new_auth_api_client() -> (r: Transport)
    ensures
        r@ == auth_api_transport(),
{
    let headers: Vec<(String, String)> = Vec::new();
    let r = Transport { headers, user_agent: new_user_agent(), gzip: true };
    assert(r@.headers =~= auth_api_transport().headers);
    r
}

/// What the transport of the REST endpoints is built with.
pub fn new_api_client() -> (r: Transport)
    ensures
        r@ == api_transport(),
{
    let mut headers: Vec<(String, String)> = Vec::new();
    headers.push(pair("x-source", APP_SOURCE));
    let r = Transport { headers, user_agent: new_user_agent(), gzip: true };
    assert(r@.headers =~= api_transport().headers);
    r
}

/// What the transport of the GraphQL endpoints is built with.
pub fn new_graphql_api_client() -> (r: Transport)
    ensures
        r@ == api_transport(),
{
    let mut headers: Vec<(String, String)> = Vec::new();
    headers.push(pair("x-source", APP_SOURCE));
    let r = Transport { headers, user_agent: new_user_agent(), gzip: true };
    assert(r@.headers =~= api_transport().headers);
    r
}

/// The endpoints of this vendor. The catalogue is open to everyone; the
/// loyalty programme is prepared by the vendor's strategy; the token
/// exchanges go out on a client of their own, which no strategy prepares.
#[derive(Debug)]
pub struct JumboInternalClient {
    pub auth_client: JsonClient,
    pub graphql_client: GraphQLClient,
    pub json_client: JsonClient,
    pub loyalty_json_client: JsonClient,
    pub loyalty_graphql_client: GraphQLClient,
}

impl JumboInternalClient {
    /// Every endpoint is set up as this vendor's app sets it up.
    pub open spec fn configured(&self) -> bool {
        &&& self.auth_client.transport()@ == auth_api_transport()
        &&& self.auth_client.base() == AUTH_API_URL@
        &&& self.auth_client.strategy() == Strategy::Open
        &&& self.graphql_client.json().transport()@ == api_transport()
        &&& self.graphql_client.json().base() == GRAPHQL_API_URL@
        &&& self.graphql_client.json().strategy() == Strategy::Open
        &&& self.json_client.transport()@ == api_transport()
        &&& self.json_client.base() == API_URL@
        &&& self.json_client.strategy() == Strategy::Open
        &&& self.loyalty_json_client.transport()@ == api_transport()
        &&& self.loyalty_json_client.base() == LOYALTY_API_URL@
        &&& self.loyalty_json_client.strategy() == Strategy::Vendor
        &&& self.loyalty_graphql_client.json().transport()@ == api_transport()
        &&& self.loyalty_graphql_client.json().base() == LOYALTY_GRAPHQL_API_URL@
        &&& self.loyalty_graphql_client.json().strategy() == Strategy::Vendor
    }

    pub fn new() -> (r: Self)
        ensures
            r.configured(),
    {
        JumboInternalClient {
            auth_client: JsonClient::new(new_auth_api_client(), AUTH_API_URL, Strategy::Open),
            graphql_client: GraphQLClient::new(
                new_graphql_api_client(),
                GRAPHQL_API_URL,
                Strategy::Open,
            ),
            json_client: JsonClient::new(new_api_client(), API_URL, Strategy::Open),
            loyalty_json_client: JsonClient::new(
                new_api_client(),
                LOYALTY_API_URL,
                Strategy::Vendor,
            ),
            loyalty_graphql_client: GraphQLClient::new(
                new_graphql_api_client(),
                LOYALTY_GRAPHQL_API_URL,
                Strategy::Vendor,
            ),
        }
    }

    /// A copy of the tokens that `auth` holds.
    pub fn token(&self, auth: &JumboAuth) -> (token: JumboToken)
        ensures
            token@ == auth@,
    {
        auth.token()
    }

    /// Replaces the tokens that `auth` holds.
    pub fn set_token(&self, auth: &mut JumboAuth, token: JumboToken)
        ensures
            final(auth)@ == old(auth)@.replaced_by(token@),
    {
        auth.set_token(token)
    }

    /// The call that exchanges the authorization code `code`, with the
    /// verifier of its PKCE challenge, for tokens.
    pub fn auth_with_code(&self, auth: &JumboAuth, code: &str, code_verifier: &str) -> (r: Request<
        Nothing,
        Vec<(String, String)>,
    >)
        ensures
            r.is_call(self.auth_client, Method::Post, code_request(code@, code_verifier@).path),
            pairs_view(r.body@) == code_request(code@, code_verifier@).fields,
    {
        self.auth_client.exchange(
            auth.request_token(String::from_str(code), String::from_str(code_verifier)),
        )
    }

    /// Makes `refresh_token` the only token that `auth` holds and returns
    /// the call that exchanges it for new tokens.
    pub fn auth_with_refresh_token(&self, auth: &mut JumboAuth, refresh_token: &str) -> (r: Result<
        Request<Nothing, Vec<(String, String)>>,
        ClientError,
    >)
        ensures
            final(auth)@ == (TokenStateView {
                access_token: None,
                refresh_token: Some(refresh_token@),
            }),
            r matches Ok(request) && request.is_call(
                self.auth_client,
                Method::Post,
                refresh_request(refresh_token@).path,
            ) && pairs_view(request.body@) == refresh_request(refresh_token@).fields,
    {
        auth.set_token(
            JumboToken { access_token: None, refresh_token: Some(String::from_str(refresh_token)) },
        );
        match auth.refresh_token() {
            Ok(exchange) => Ok(self.auth_client.exchange(exchange)),
            Err(e) => Err(e),
        }
    }

    /// The call that carries the query for the profile of the member who is
    /// signed in.
    pub fn profile<V>(&self, body: V) -> (r: Request<Nothing, V>)
        ensures
            r.is_call(self.loyalty_graphql_client.json(), Method::Post, Seq::<char>::empty()),
            r.body == body,
    {
        let r = self.loyalty_graphql_client.query(body);
        assert(self.loyalty_graphql_client.json().base() + Seq::<char>::empty()
            =~= self.loyalty_graphql_client.json().base());
        r
    }

    /// The call that lists the product categories, thematic aisles included.
    pub fn product_categories(&self) -> (r: Request<Vec<(String, String)>, Nothing>)
        ensures
            r.is_call(self.json_client, Method::Get, "/v17/categories"@),
            pairs_view(r.query@) == seq![("withThematicAisles"@, "true"@)],
    {
        let mut parameters: Vec<(String, String)> = Vec::new();
        parameters.push(pair("withThematicAisles", "true"));
        assert(pairs_view(parameters@) =~= seq![("withThematicAisles"@, "true"@)]);
        self.json_client.get("/v17/categories", parameters)
    }

    /// The call that lists the sub-categories of a category.
    pub fn product_subcategories(&self, category_id: &str) -> (r: Request<
        Vec<(String, String)>,
        Nothing,
    >)
        ensures
            r.is_call(self.json_client, Method::Get, "/v17/categories"@),
            pairs_view(r.query@) == seq![("id"@, category_id@)],
    {
        let mut parameters: Vec<(String, String)> = Vec::new();
        parameters.push(pair("id", category_id));
        assert(pairs_view(parameters@) =~= seq![("id"@, category_id@)]);
        self.json_client.get("/v17/categories", parameters)
    }

    /// The call that carries the query for completions of a search.
    pub fn search_suggestions<V>(&self, body: V) -> (r: Request<Nothing, V>)
        ensures
            r.is_call(self.graphql_client.json(), Method::Post, Seq::<char>::empty()),
            r.body == body,
    {
        let r = self.graphql_client.query(body);
        assert(self.graphql_client.json().base() + Seq::<char>::empty()
            =~= self.graphql_client.json().base());
        r
    }

    /// The call that searches the products by `query`.
    pub fn search_products<Q>(&self, query: Q) -> (r: Request<Q, Nothing>)
        ensures
            r.is_call(self.json_client, Method::Get, "/v17/search"@),
            r.query == query,
    {
        self.json_client.get("/v17/search", query)
    }

    /// The call that lists the customer's receipts.
    pub fn receipts(&self) -> (r: Request<Nothing, Nothing>)
        ensures
            r.is_call(self.loyalty_json_client, Method::Get, "/receipt/customer/overviews"@),
    {
        self.loyalty_json_client.get("/receipt/customer/overviews", Nothing)
    }

    /// The call that fetches the receipt `receipt_id`.
    pub fn receipt(&self, receipt_id: &str) -> (r: Request<Nothing, Nothing>)
        ensures
            r.is_call(self.loyalty_json_client, Method::Get, receipt_path(receipt_id@)),
    {
        let path = String::from_str("/receipt/").concat(receipt_id);
        self.loyalty_json_client.get(path.as_str(), Nothing)
    }
}

impl Default for JumboInternalClient {
    fn default() -> (r: Self)
        ensures
            r.configured(),
    {
        Self::new()
    }
}

/// This vendor's client, presenting receipts as every vendor's are presented.
#[derive(Debug)]
pub struct JumboClient {
    pub internal: JumboInternalClient,
}

impl JumboClient {
    pub fn new() -> (r: Self)
        ensures
            r.internal.configured(),
    {
        JumboClient { internal: JumboInternalClient::new() }
    }

    /// The call that exchanges the authorization code `code`, with the
    /// verifier of its PKCE challenge, for tokens.
    pub fn auth_with_code(&self, auth: &JumboAuth, code: &str, code_verifier: &str) -> (r: Request<
        Nothing,
        Vec<(String, String)>,
    >)
        ensures
            r.is_call(
                self.internal.auth_client,
                Method::Post,
                code_request(code@, code_verifier@).path,
            ),
            pairs_view(r.body@) == code_request(code@, code_verifier@).fields,
    {
        self.internal.auth_with_code(auth, code, code_verifier)
    }

    /// Makes `refresh_token` the only token that `auth` holds and returns
    /// the call that exchanges it for new tokens.
    pub fn auth_with_refresh_token(&self, auth: &mut JumboAuth, refresh_token: &str) -> (r: Result<
        Request<Nothing, Vec<(String, String)>>,
        ClientError,
    >)
        ensures
            final(auth)@ == (TokenStateView {
                access_token: None,
                refresh_token: Some(refresh_token@),
            }),
            r matches Ok(request) && request.is_call(
                self.internal.auth_client,
                Method::Post,
                refresh_request(refresh_token@).path,
            ) && pairs_view(request.body@) == refresh_request(refresh_token@).fields,
    {
        self.internal.auth_with_refresh_token(auth, refresh_token)
    }

    /// A copy of the tokens that `auth` holds.
    pub fn token(&self, auth: &JumboAuth) -> (token: JumboToken)
        ensures
            token@ == auth@,
    {
        self.internal.token(auth)
    }

    /// Replaces the tokens that `auth` holds.
    pub fn set_token(&self, auth: &mut JumboAuth, token: JumboToken)
        ensures
            final(auth)@ == old(auth)@.replaced_by(token@),
    {
        self.internal.set_token(auth, token)
    }

    /// The customer's receipts as every vendor's are presented: one summary
    /// for each receipt of the answer, in the order of the answer, with the
    /// receipt's text and the moment the purchase ended.
    pub fn receipts(&self, answer: Result<Vec<ReceiptSummary>, ClientError>) -> (r: Result<
        Vec<crate::receipt::ReceiptSummary>,
        ClientError,
    >)
        ensures
            answer matches Err(e) ==> r == Err::<Vec<crate::receipt::ReceiptSummary>, ClientError>(
                e,
            ),
            answer matches Ok(items) ==> r matches Ok(summaries) && summaries@.len()
                == items@.len() && forall|i: int|
                0 <= i < items@.len() ==> (#[trigger] summaries@[i]).presents(
                    items@[i].transaction_id@,
                    items@[i].purchase_end_on,
                ),
    {
        match answer {
            Err(e) => Err(e),
            Ok(items) => {
                let mut summaries: Vec<crate::receipt::ReceiptSummary> = Vec::new();
                let mut i: usize = 0;
                while i < items.len()
                    invariant
                        i <= items@.len(),
                        summaries@.len() == i,
                        forall|j: int|
                            0 <= j < i ==> (#[trigger] summaries@[j]).presents(
                                items@[j].transaction_id@,
                                items@[j].purchase_end_on,
                            ),
                    decreases items@.len() - i,
                {
                    let item = &items[i];
                    summaries.push(
                        crate::receipt::ReceiptSummary {
                            id: item.identifier(),
                            created_at: item.purchase_end_on,
                        },
                    );
                    i = i + 1;
                }
                Ok(summaries)
            },
        }
    }

    /// The receipt as every vendor's are presented: its text, the moment the
    /// purchase ended, and no products.
    pub fn receipt(&self, answer: Result<Receipt, ClientError>) -> (r: Result<
        crate::receipt::Receipt,
        ClientError,
    >)
        ensures
            answer matches Err(e) ==> r == Err::<crate::receipt::Receipt, ClientError>(e),
            answer matches Ok(receipt) ==> r matches Ok(presented) && presented.id@ == receipt.id@
                && presented.created_at == receipt.purchase_end_on && presented.products@.len()
                == 0,
    {
        match answer {
            Err(e) => Err(e),
            Ok(receipt) => Ok(
                crate::receipt::Receipt {
                    id: receipt.identifier(),
                    created_at: receipt.purchase_end_on,
                    products: Vec::new(),
                },
            ),
        }
    }
}

impl Default for JumboClient {
    fn default() -> (r: Self)
        ensures
            r.internal.configured(),
    {
        Self::new()
    }
}

} // verus!
