//! The eager-refresh strategy: an access token that is held is attached
//! whatever its age; without one the strategy refreshes, and without a
//! refresh token it asks for an anonymous token.

use crate::auth::{
    access_view, missing_refresh_token, no_refresh_token, request_view, Auth,
    AuthOutcome, AuthOutcomeView, AuthStep, AuthStepView, Token, TokenRequest, TokenRequestView,
    TokenAuth, TokenStateView,
};
use crate::error::{ClientError, ClientErrorView};
use crate::text::{pair, text_view};
use crate::time::Timestamp;
use vstd::prelude::*;

verus! {

/// The client id that every token exchange names.
pub const OAUTH_CLIENT_ID: &'static str = "appie-android";

/// The exchange of an authorization code for tokens.
pub open spec fn code_request(code: Seq<char>) -> TokenRequestView {
    TokenRequestView {
        path: "/mobile-auth/v1/auth/token"@,
        fields: seq![("clientId"@, OAUTH_CLIENT_ID@), ("code"@, code)],
    }
}

/// The exchange that hands out tokens to a caller without credentials.
pub open spec fn anonymous_request() -> TokenRequestView {
    TokenRequestView {
        path: "/mobile-auth/v1/auth/token/anonymous"@,
        fields: seq![("clientId"@, OAUTH_CLIENT_ID@)],
    }
}

/// The exchange of a refresh token for new tokens.
pub open spec fn refresh_request(refresh_token: Seq<char>) -> TokenRequestView {
    TokenRequestView {
        path: "/mobile-auth/v1/auth/token/refresh"@,
        fields: seq![("clientId"@, OAUTH_CLIENT_ID@), ("refreshToken"@, refresh_token)],
    }
}

/// What the strategy decides in a given state. The clock plays no part.
pub open spec fn decide(state: TokenStateView) -> AuthStepView {
    match state.access_token {
        Some((token, _)) => AuthStepView::Ready(AuthOutcomeView::Bearer(token)),
        None => match state.refresh_token {
            Some(refresh_token) => AuthStepView::Exchange(refresh_request(refresh_token)),
            None => AuthStepView::Exchange(anonymous_request()),
        },
    }
}

/// Without an access token exactly one exchange is asked for: a refresh
/// where a refresh token is held, an anonymous token where none is.
pub proof fn lemma_missing_token_is_exchanged(auth: AlbertHeijnAuth, now: Timestamp)
    requires
        auth@.access_token is None,
    ensures
        auth@.refresh_token matches Some(refresh_token) ==> auth.plan(now) == Ok::<
            AuthStepView,
            ClientErrorView,
        >(AuthStepView::Exchange(refresh_request(refresh_token))),
        auth@.refresh_token is None ==> auth.plan(now) == Ok::<AuthStepView, ClientErrorView>(
            AuthStepView::Exchange(anonymous_request()),
        ),
{
}

/// Callers that take turns share one exchange: once the first caller's
/// exchange is answered, every later caller attaches the token of that
/// answer and asks for no exchange of its own.
pub proof fn lemma_one_exchange_serves_all(
    auth: AlbertHeijnAuth,
    answer: Token,
    answered_at: Timestamp,
    later: Timestamp,
)
    ensures
        auth.completed(answer, answered_at).plan(later) == Ok::<AuthStepView, ClientErrorView>(
            AuthStepView::Ready(AuthOutcomeView::Bearer(answer.access_token@)),
        ),
{
}

/// What a strategy holds once it has taken in an answer: the tokens of the
/// answer, the access token expiring `expires_in` seconds after `now`.
pub proof fn lemma_completed(auth: AlbertHeijnAuth, token: Token, now: Timestamp)
    ensures
        auth.completed(token, now)@ == TokenStateView::accepted(token@, now),
{
}

/// No exchange names a member of its body twice.
pub proof fn lemma_names_distinct(code: Seq<char>, refresh_token: Seq<char>)
    ensures
        code_request(code).names_distinct(),
        anonymous_request().names_distinct(),
        refresh_request(refresh_token).names_distinct(),
{
    reveal_strlit("clientId");
    reveal_strlit("code");
    reveal_strlit("refreshToken");
    assert("clientId"@.len() == 8 && "code"@.len() == 4 && "refreshToken"@.len() == 12);
    let by_code = code_request(code).fields;
    assert(by_code[0].0.len() != by_code[1].0.len());
    let by_refresh = refresh_request(refresh_token).fields;
    assert(by_refresh[0].0.len() != by_refresh[1].0.len());
}

/// The tokens of this vendor as they are kept between runs.
#[derive(Debug)]
pub struct AlbertHeijnToken {
    pub access_token: Option<(String, Timestamp)>,
    pub refresh_token: Option<String>,
}

impl View for AlbertHeijnToken {
    type V = TokenStateView;

    open spec fn view(&self) -> TokenStateView {
        TokenStateView {
            access_token: access_view(self.access_token),
            refresh_token: text_view(self.refresh_token),
        }
    }
}

/// The strategy and the tokens it owns.
#[derive(Debug)]
pub struct AlbertHeijnAuth {
    access_token: Option<(String, Timestamp)>,
    refresh_token: Option<String>,
}

impl View for AlbertHeijnAuth {
    type V = TokenStateView;

    closed spec fn view(&self) -> TokenStateView {
        TokenStateView {
            access_token: access_view(self.access_token),
            refresh_token: text_view(self.refresh_token),
        }
    }
}

impl AlbertHeijnAuth {
    /// A strategy that holds no tokens.
    pub fn new() -> (auth: Self)
        ensures
            auth@ == TokenStateView::empty(),
    {
        AlbertHeijnAuth { access_token: None, refresh_token: None }
    }

    /// A copy of the tokens held, to be kept between runs.
    pub fn token(&self) -> (token: AlbertHeijnToken)
        ensures
            token@ == self@,
    {
        let access_token = match &self.access_token {
            Some((token, expires_at)) => Some((token.clone(), *expires_at)),
            None => None,
        };
        let refresh_token = match &self.refresh_token {
            Some(token) => Some(token.clone()),
            None => None,
        };
        AlbertHeijnToken { access_token, refresh_token }
    }

    /// Replaces the tokens held by `token`, all of them.
    pub fn set_token(&mut self, token: AlbertHeijnToken)
        ensures
            final(self)@ == old(self)@.replaced_by(token@),
    {
        self.access_token = token.access_token;
        self.refresh_token = token.refresh_token;
    }

    /// Replaces the refresh token and leaves the access token alone.
    pub fn set_refresh_token(&mut self, refresh_token: String)
        ensures
            final(self)@ == old(self)@.with_refresh_token(refresh_token@),
    {
        self.refresh_token = Some(refresh_token);
    }

    /// Stores the tokens that an endpoint answered at `now` and returns the
    /// access token to attach.
    pub fn process_token(&mut self, token: Token, now: Timestamp) -> (access_token: String)
        requires
            now.can_shift(token.expires_in as int),
        ensures
            access_token@ == token.access_token@,
            final(self)@ == TokenStateView::accepted(token@, now),
            *final(self) == old(self).completed(token, now),
    {
        let access_token = token.access_token.clone();
        self.access_token = Some((token.access_token, now.plus_seconds(token.expires_in)));
        self.refresh_token = Some(token.refresh_token);
        access_token
    }

    /// The exchange of the authorization code `code` for tokens.
    pub fn request_token(&self, code: String) -> (request: TokenRequest)
        ensures
            request@ == code_request(code@),
    {
        let mut fields: Vec<(String, String)> = Vec::new();
        fields.push(pair("clientId", OAUTH_CLIENT_ID));
        fields.push(pair("code", code.as_str()));
        let request = TokenRequest {
            path: String::from_str("/mobile-auth/v1/auth/token"),
            fields,
        };
        assert(request@.fields =~= code_request(code@).fields);
        request
    }

    /// The exchange that hands out tokens without credentials.
    pub fn request_anonymous_token(&self) -> (request: TokenRequest)
        ensures
            request@ == anonymous_request(),
    {
        let mut fields: Vec<(String, String)> = Vec::new();
        fields.push(pair("clientId", OAUTH_CLIENT_ID));
        let request = TokenRequest {
            path: String::from_str("/mobile-auth/v1/auth/token/anonymous"),
            fields,
        };
        assert(request@.fields =~= anonymous_request().fields);
        request
    }

    /// The exchange of the refresh token held for new tokens. Without a
    /// refresh token there is nothing to send: the call fails.
    pub fn refresh_token(&self) -> (r: Result<TokenRequest, ClientError>)
        ensures
            request_view(r) == match self@.refresh_token {
                Some(refresh_token) => Ok::<TokenRequestView, ClientErrorView>(
                    refresh_request(refresh_token),
                ),
                None => Err(ClientErrorView::TextError(no_refresh_token())),
            },
    {
        match &self.refresh_token {
            Some(refresh_token) => {
                let mut fields: Vec<(String, String)> = Vec::new();
                fields.push(pair("clientId", OAUTH_CLIENT_ID));
                fields.push(pair("refreshToken", refresh_token.as_str()));
                let request = TokenRequest {
                    path: String::from_str("/mobile-auth/v1/auth/token/refresh"),
                    fields,
                };
                assert(request@.fields =~= refresh_request(refresh_token@).fields);
                Ok(request)
            },
            None => Err(missing_refresh_token()),
        }
    }
}

impl Auth for AlbertHeijnAuth {
    open spec fn plan(&self, now: Timestamp) -> Result<AuthStepView, ClientErrorView> {
        Ok(decide(self@))
    }

    fn request(&self, now: Timestamp) -> (r: Result<AuthStep, ClientError>) {
        match &self.access_token {
            Some((access_token, _expires_at)) => Ok(
                AuthStep::Ready(AuthOutcome::Bearer(access_token.clone())),
            ),
            None => {
                if self.refresh_token.is_some() {
                    match self.refresh_token() {
                        Ok(request) => Ok(AuthStep::Exchange(request)),
                        Err(e) => Err(e),
                    }
                } else {
                    Ok(AuthStep::Exchange(self.request_anonymous_token()))
                }
            },
        }
    }
}

impl TokenAuth for AlbertHeijnAuth {
    closed spec fn completed(&self, token: Token, now: Timestamp) -> Self {
        AlbertHeijnAuth {
            access_token: Some((token.access_token, now.shifted(token.expires_in as int))),
            refresh_token: Some(token.refresh_token),
        }
    }

    fn complete(&mut self, answer: Result<Token, ClientError>, now: Timestamp) -> (r: Result<
        AuthOutcome,
        ClientError,
    >)
        ensures
            answer matches Ok(token) ==> final(self)@ == TokenStateView::accepted(token@, now),
    {
        match answer {
            Ok(token) => Ok(AuthOutcome::Bearer(self.process_token(token, now))),
            Err(e) => Err(e),
        }
    }
}

/// An access token that is held is attached without any exchange, at every
/// `now`: before its expiry, at it and after it.
pub proof fn lemma_held_token_is_attached(auth: AlbertHeijnAuth, now: Timestamp)
    requires
        auth@.access_token is Some,
    ensures
        auth@.access_token matches Some((token, _)) && auth.plan(now) == Ok::<
            AuthStepView,
            ClientErrorView,
        >(AuthStepView::Ready(AuthOutcomeView::Bearer(token))),
{
}

/// The body with which the vendor's authorization server refuses a request.
#[derive(Debug)]
pub struct ErrorResponse {
    pub error: String,
    pub error_description: String,
}

impl ErrorResponse {
    /// The request was refused because its access token has expired: a
    /// refresh is what helps.
    pub open spec fn token_expired(&self) -> bool {
        self.error@ == "invalid_token"@ && self.error_description@ == "Access token expired"@
    }

    /// Whether the request was refused because its access token has expired.
    pub fn is_token_expired(&self) -> (r: bool)
        ensures
            r == self.token_expired(),
    {
        self.error == String::from_str("invalid_token") && self.error_description
            == String::from_str("Access token expired")
    }
}

} // verus!
