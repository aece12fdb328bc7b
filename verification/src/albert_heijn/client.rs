//! The calls of this vendor's API: where each goes and what it carries.
//! Sending them is the caller's part.

use crate::albert_heijn::auth::{code_request, refresh_request, AlbertHeijnAuth, AlbertHeijnToken};
use crate::albert_heijn::receipt::{Receipt, ReceiptSummary};
use crate::auth::TokenStateView;
use crate::client::Identifier;
use crate::error::ClientError;
use crate::graphql::GraphQLClient;
use crate::json::{JsonClient, Method, Nothing, Request, Strategy, Transport, TransportView};
use crate::text::{decimal, pair, pairs_view, to_decimal};
use vstd::prelude::*;

verus! {

pub const API_URL: &'static str = "https://api.ah.nl";

pub const GRAPHQL_API_URL: &'static str = "https://api.ah.nl/graphql";

pub const APP_NAME: &'static str = "Appie";

pub const APP_NAME_GRAPHQL: &'static str = "appie-android";

pub const APP_VERSION: &'static str = "8.60.1";

pub const APP_LOCALE: &'static str = "nl_NL";

/// How the clients name themselves to the vendor: the app and its version.
pub open spec fn user_agent() -> Seq<char> {
    APP_NAME@ + "/"@ + APP_VERSION@
}

/// What the transport of the REST endpoint is built with.
pub open spec fn api_transport() -> TransportView {
    TransportView {
        headers: seq![
            ("x-application"@, "AHWEBSHOP"@),
            ("x-clientname"@, APP_NAME@),
            ("x-clientversion"@, APP_VERSION@),
        ],
        user_agent: user_agent(),
        gzip: true,
    }
}

/// What the transport of the GraphQL endpoint is built with.
pub open spec fn graphql_api_transport() -> TransportView {
    TransportView {
        headers: seq![
            ("x-client-name"@, APP_NAME_GRAPHQL@),
            ("x-client-version"@, APP_VERSION@),
            ("x-locale"@, APP_LOCALE@),
        ],
        user_agent: user_agent(),
        gzip: true,
    }
}

/// The path on which the sub-categories of a category are listed.
pub open spec fn subcategories_path(category_id: Seq<char>) -> Seq<char> {
    "/mobile-services/v1/product-shelves/categories/"@ + category_id + "/sub-categories"@
}

/// The path on which one receipt is found.
pub open spec fn receipt_path(receipt_id: Seq<char>) -> Seq<char> {
    "/mobile-services/v2/receipts/"@ + receipt_id
}

fn new_user_agent() -> (r: String)
    ensures
        r@ == user_agent(),
{
    String::from_str(APP_NAME).concat("/").concat(APP_VERSION)
}

/// What the transport of the REST endpoint is built with.
pub fn new_api_client() -> (r: Transport)
    ensures
        r@ == api_transport(),
{
    let mut headers: Vec<(String, String)> = Vec::new();
    headers.push(pair("x-application", "AHWEBSHOP"));
    headers.push(pair("x-clientname", APP_NAME));
    headers.push(pair("x-clientversion", APP_VERSION));
    let r = Transport { headers, user_agent: new_user_agent(), gzip: true };
    assert(r@.headers =~= api_transport().headers);
    r
}

/// What the transport of the GraphQL endpoint is built with.
pub fn new_graphql_api_client() -> (r: Transport)
    ensures
        r@ == graphql_api_transport(),
{
    let mut headers: Vec<(String, String)> = Vec::new();
    headers.push(pair("x-client-name", APP_NAME_GRAPHQL));
    headers.push(pair("x-client-version", APP_VERSION));
    headers.push(pair("x-locale", APP_LOCALE));
    let r = Transport { headers, user_agent: new_user_agent(), gzip: true };
    assert(r@.headers =~= graphql_api_transport().headers);
    r
}

/// The endpoints of this vendor. The token exchanges go out on their own
/// client, which no strategy prepares; every other call is prepared by the
/// vendor's strategy.
#[derive(Debug)]
pub struct AlbertHeijnInternalClient {
    pub auth_client: JsonClient,
    pub graphql_client: GraphQLClient,
    pub json_client: JsonClient,
}

impl AlbertHeijnInternalClient {
    /// Every endpoint is set up as this vendor's app sets it up.
    pub open spec fn configured(&self) -> bool {
        &&& self.auth_client.transport()@ == api_transport()
        &&& self.auth_client.base() == API_URL@
        &&& self.auth_client.strategy() == Strategy::Open
        &&& self.graphql_client.json().transport()@ == graphql_api_transport()
        &&& self.graphql_client.json().base() == GRAPHQL_API_URL@
        &&& self.graphql_client.json().strategy() == Strategy::Vendor
        &&& self.json_client.transport()@ == api_transport()
        &&& self.json_client.base() == API_URL@
        &&& self.json_client.strategy() == Strategy::Vendor
    }

    pub fn new() -> (r: Self)
        ensures
            r.configured(),
    {
        AlbertHeijnInternalClient {
            auth_client: JsonClient::new(new_api_client(), API_URL, Strategy::Open),
            graphql_client: GraphQLClient::new(
                new_graphql_api_client(),
                GRAPHQL_API_URL,
                Strategy::Vendor,
            ),
            json_client: JsonClient::new(new_api_client(), API_URL, Strategy::Vendor),
        }
    }

    /// A copy of the tokens that `auth` holds.
    pub fn token(&self, auth: &AlbertHeijnAuth) -> (token: AlbertHeijnToken)
        ensures
            token@ == auth@,
    {
        auth.token()
    }

    /// Replaces the tokens that `auth` holds.
    pub fn set_token(&self, auth: &mut AlbertHeijnAuth, token: AlbertHeijnToken)
        ensures
            final(auth)@ == old(auth)@.replaced_by(token@),
    {
        auth.set_token(token)
    }

    /// The call that exchanges the authorization code `code` for tokens.
    pub fn auth_with_code(&self, auth: &AlbertHeijnAuth, code: &str) -> (r: Request<
        Nothing,
        Vec<(String, String)>,
    >)
        ensures
            r.is_call(self.auth_client, Method::Post, code_request(code@).path),
            pairs_view(r.body@) == code_request(code@).fields,
    {
        self.auth_client.exchange(auth.request_token(String::from_str(code)))
    }

    /// Makes `refresh_token` the only token that `auth` holds and returns
    /// the call that exchanges it for new tokens.
    pub fn auth_with_refresh_token(&self, auth: &mut AlbertHeijnAuth, refresh_token: &str) -> (r:
        Result<Request<Nothing, Vec<(String, String)>>, ClientError>)
        ensures
            final(auth)@ == (TokenStateView {
                access_token: None,
                refresh_token: Some(refresh_token@),
            }),
            r matches Ok(request) && request.is_call(
                self.auth_client,
                Method::Post,
                refresh_request(refresh_token@).path,
            ) && pairs_view(request.body@) == refresh_request(refresh_token@).fields,
    {
        auth.set_token(
            AlbertHeijnToken {
                access_token: None,
                refresh_token: Some(String::from_str(refresh_token)),
            },
        );
        match auth.refresh_token() {
            Ok(exchange) => Ok(self.auth_client.exchange(exchange)),
            Err(e) => Err(e),
        }
    }

    /// The call that carries the query for the member who is signed in.
    pub fn member<V>(&self, body: V) -> (r: Request<Nothing, V>)
        ensures
            r.is_call(self.graphql_client.json(), Method::Post, Seq::<char>::empty()),
            r.body == body,
    {
        let r = self.graphql_client.query(body);
        assert(self.graphql_client.json().base() + Seq::<char>::empty()
            =~= self.graphql_client.json().base());
        r
    }

    /// The call that lists the product categories.
    pub fn product_categories(&self) -> (r: Request<Nothing, Nothing>)
        ensures
            r.is_call(
                self.json_client,
                Method::Get,
                "/mobile-services/v1/product-shelves/categories"@,
            ),
    {
        self.json_client.get("/mobile-services/v1/product-shelves/categories", Nothing)
    }

    /// The call that lists the sub-categories of a category.
    pub fn product_subcategories(&self, category_id: &str) -> (r: Request<Nothing, Nothing>)
        ensures
            r.is_call(self.json_client, Method::Get, subcategories_path(category_id@)),
    {
        let path = String::from_str("/mobile-services/v1/product-shelves/categories/").concat(
            category_id,
        ).concat("/sub-categories");
        self.json_client.get(path.as_str(), Nothing)
    }

    /// The call that asks for at most `amount` completions of `query`.
    pub fn product_search_suggestions(&self, query: &str, amount: u64) -> (r: Request<
        Vec<(String, String)>,
        Nothing,
    >)
        ensures
            r.is_call(
                self.json_client,
                Method::Get,
                "/mobile-services/product/search/v2/suggestions"@,
            ),
            pairs_view(r.query@) == seq![
                ("query"@, query@),
                ("amount"@, decimal(amount as nat)),
            ],
    {
        let mut parameters: Vec<(String, String)> = Vec::new();
        parameters.push(pair("query", query));
        parameters.push(pair("amount", to_decimal(amount).as_str()));
        assert(pairs_view(parameters@) =~= seq![
            ("query"@, query@),
            ("amount"@, decimal(amount as nat)),
        ]);
        self.json_client.get("/mobile-services/product/search/v2/suggestions", parameters)
    }

    /// The call that searches the products by `query`.
    pub fn search_products<Q>(&self, query: Q) -> (r: Request<Q, Nothing>)
        ensures
            r.is_call(self.json_client, Method::Get, "/mobile-services/product/search/v2"@),
            r.query == query,
    {
        self.json_client.get("/mobile-services/product/search/v2", query)
    }

    /// The call that lists the products of a category.
    pub fn search_products_by_category(&self, category_id: &str) -> (r: Request<
        Vec<(String, String)>,
        Nothing,
    >)
        ensures
            r.is_call(self.json_client, Method::Get, "/mobile-services/product/search/v2"@),
            pairs_view(r.query@) == seq![("taxonomyId"@, category_id@)],
    {
        let mut parameters: Vec<(String, String)> = Vec::new();
        parameters.push(pair("taxonomyId", category_id));
        assert(pairs_view(parameters@) =~= seq![("taxonomyId"@, category_id@)]);
        self.search_products(parameters)
    }

    /// The call that lists the customer's receipts.
    pub fn receipts(&self) -> (r: Request<Nothing, Nothing>)
        ensures
            r.is_call(self.json_client, Method::Get, "/mobile-services/v1/receipts"@),
    {
        self.json_client.get("/mobile-services/v1/receipts", Nothing)
    }

    /// The call that fetches the receipt `receipt_id`.
    pub fn receipt(&self, receipt_id: &str) -> (r: Request<Nothing, Nothing>)
        ensures
            r.is_call(self.json_client, Method::Get, receipt_path(receipt_id@)),
    {
        let path = String::from_str("/mobile-services/v2/receipts/").concat(receipt_id);
        self.json_client.get(path.as_str(), Nothing)
    }

    /// The receipt that was asked for by `receipt_id`, from the answer: the
    /// answer does not name the receipt, so the text it was asked for by is
    /// filled in.
    pub fn received_receipt(&self, answer: Result<Receipt, ClientError>, receipt_id: &str) -> (r:
        Result<Receipt, ClientError>)
        ensures
            answer matches Err(e) ==> r == Err::<Receipt, ClientError>(e),
            answer matches Ok(receipt) ==> r matches Ok(named) && named.transaction_id@
                == receipt_id@ && named.receipt_ui_items == receipt.receipt_ui_items
                && named.store_id == receipt.store_id && named.transaction_moment
                == receipt.transaction_moment,
    {
        match answer {
            Ok(receipt) => {
                let mut receipt = receipt;
                receipt.transaction_id = String::from_str(receipt_id);
                Ok(receipt)
            },
            Err(e) => Err(e),
        }
    }
}

impl Default for AlbertHeijnInternalClient {
    fn default() -> (r: Self)
        ensures
            r.configured(),
    {
        Self::new()
    }
}

/// This vendor's client, presenting receipts as every vendor's are presented.
#[derive(Debug)]
pub struct AlbertHeijnClient {
    pub internal: AlbertHeijnInternalClient,
}

impl AlbertHeijnClient {
    pub fn new() -> (r: Self)
        ensures
            r.internal.configured(),
    {
        AlbertHeijnClient { internal: AlbertHeijnInternalClient::new() }
    }

    /// The call that exchanges the authorization code `code` for tokens.
    pub fn auth_with_code(&self, auth: &AlbertHeijnAuth, code: &str) -> (r: Request<
        Nothing,
        Vec<(String, String)>,
    >)
        ensures
            r.is_call(self.internal.auth_client, Method::Post, code_request(code@).path),
            pairs_view(r.body@) == code_request(code@).fields,
    {
        self.internal.auth_with_code(auth, code)
    }

    /// Makes `refresh_token` the only token that `auth` holds and returns
    /// the call that exchanges it for new tokens.
    pub fn auth_with_refresh_token(&self, auth: &mut AlbertHeijnAuth, refresh_token: &str) -> (r:
        Result<Request<Nothing, Vec<(String, String)>>, ClientError>)
        ensures
            final(auth)@ == (TokenStateView {
                access_token: None,
                refresh_token: Some(refresh_token@),
            }),
            r matches Ok(request) && request.is_call(
                self.internal.auth_client,
                Method::Post,
                refresh_request(refresh_token@).path,
            ) && pairs_view(request.body@) == refresh_request(refresh_token@).fields,
    {
        self.internal.auth_with_refresh_token(auth, refresh_token)
    }

    /// A copy of the tokens that `auth` holds.
    pub fn token(&self, auth: &AlbertHeijnAuth) -> (token: AlbertHeijnToken)
        ensures
            token@ == auth@,
    {
        self.internal.token(auth)
    }

    /// Replaces the tokens that `auth` holds.
    pub fn set_token(&self, auth: &mut AlbertHeijnAuth, token: AlbertHeijnToken)
        ensures
            final(auth)@ == old(auth)@.replaced_by(token@),
    {
        self.internal.set_token(auth, token)
    }

    /// The customer's receipts as every vendor's are presented: one summary
    /// for each receipt of the answer, in the order of the answer, with the
    /// receipt's text and the moment it was made.
    pub fn receipts<A>(&self, answer: Result<Vec<ReceiptSummary<A>>, ClientError>) -> (r: Result<
        Vec<crate::receipt::ReceiptSummary>,
        ClientError,
    >)
        ensures
            answer matches Err(e) ==> r == Err::<Vec<crate::receipt::ReceiptSummary>, ClientError>(
                e,
            ),
            answer matches Ok(items) ==> r matches Ok(summaries) && summaries@.len()
                == items@.len() && forall|i: int|
                0 <= i < items@.len() ==> (#[trigger] summaries@[i]).presents(
                    items@[i].transaction_id@,
                    items@[i].transaction_moment,
                ),
    {
        match answer {
            Err(e) => Err(e),
            Ok(items) => {
                let mut summaries: Vec<crate::receipt::ReceiptSummary> = Vec::new();
                let mut i: usize = 0;
                while i < items.len()
                    invariant
                        i <= items@.len(),
                        summaries@.len() == i,
                        forall|j: int|
                            0 <= j < i ==> (#[trigger] summaries@[j]).presents(
                                items@[j].transaction_id@,
                                items@[j].transaction_moment,
                            ),
                    decreases items@.len() - i,
                {
                    let item = &items[i];
                    summaries.push(
                        crate::receipt::ReceiptSummary {
                            id: item.identifier(),
                            created_at: item.transaction_moment,
                        },
                    );
                    i = i + 1;
                }
                Ok(summaries)
            },
        }
    }

    /// The receipt as every vendor's are presented: its text, the moment it
    /// was made, and no products.
    pub fn receipt(&self, answer: Result<Receipt, ClientError>) -> (r: Result<
        crate::receipt::Receipt,
        ClientError,
    >)
        ensures
            answer matches Err(e) ==> r == Err::<crate::receipt::Receipt, ClientError>(e),
            answer matches Ok(receipt) ==> r matches Ok(presented) && presented.id@
                == receipt.transaction_id@ && presented.created_at == receipt.transaction_moment
                && presented.products@.len() == 0,
    {
        match answer {
            Err(e) => Err(e),
            Ok(receipt) => Ok(
                crate::receipt::Receipt {
                    id: receipt.identifier(),
                    created_at: receipt.transaction_moment,
                    products: Vec::new(),
                },
            ),
        }
    }
}

impl Default for AlbertHeijnClient {
    fn default() -> (r: Self)
        ensures
            r.internal.configured(),
    {
        Self::new()
    }
}

} // verus!
