//! The expiry-checked strategy: an access token is attached while it has not
//! expired; an expired one, or a refresh token alone, leads to a refresh; a
//! caller without any token sends its requests unauthenticated.

use crate::auth::{
    access_view, missing_refresh_token, no_refresh_token, request_view, Auth,
    AuthOutcome, AuthOutcomeView, AuthStep, AuthStepView, Token, TokenRequest, TokenRequestView,
    TokenAuth, TokenStateView,
};
use crate::error::{ClientError, ClientErrorView};
use crate::text::{pair, text_view};
use crate::time::Timestamp;
use vstd::prelude::*;

verus! {

/// The client id that every token exchange names.
pub const OAUTH_CLIENT_ID: &'static str = "ZVa0cW0LadbDHINgrBLuEAp5amVBKQh1";

/// Where the vendor sends the user back to with an authorization code.
pub const OAUTH_REDIRECT_URI: &'static str = "https://loyalty-app.jumbo.com/home";

/// The exchange of an authorization code and its PKCE verifier for tokens.
pub open spec fn code_request(code: Seq<char>, code_verifier: Seq<char>) -> TokenRequestView {
    TokenRequestView {
        path: "/oauth/token"@,
        fields: seq![
            ("client_id"@, OAUTH_CLIENT_ID@),
            ("code"@, code),
            ("code_verifier"@, code_verifier),
            ("grant_type"@, "authorization_code"@),
            ("redirect_uri"@, OAUTH_REDIRECT_URI@),
        ],
    }
}

/// The exchange of a refresh token for new tokens.
pub open spec fn refresh_request(refresh_token: Seq<char>) -> TokenRequestView {
    TokenRequestView {
        path: "/oauth/token"@,
        fields: seq![
            ("client_id"@, OAUTH_CLIENT_ID@),
            ("grant_type"@, "refresh_token"@),
            ("refresh_token"@, refresh_token),
        ],
    }
}

/// What a refresh comes to: the exchange, or the failure of having no
/// refresh token.
pub open spec fn refresh_plan(refresh_token: Option<Seq<char>>) -> Result<
    TokenRequestView,
    ClientErrorView,
> {
    match refresh_token {
        Some(refresh_token) => Ok(refresh_request(refresh_token)),
        None => Err(ClientErrorView::TextError(no_refresh_token())),
    }
}

/// What the strategy decides in a given state at `now`.
pub open spec fn decide(state: TokenStateView, now: Timestamp) -> Result<
    AuthStepView,
    ClientErrorView,
> {
    match state.access_token {
        Some((token, expires_at)) => if expires_at.is_after(now) {
            Ok(AuthStepView::Ready(AuthOutcomeView::Bearer(token)))
        } else {
            match refresh_plan(state.refresh_token) {
                Ok(request) => Ok(AuthStepView::Exchange(request)),
                Err(e) => Err(e),
            }
        },
        None => match state.refresh_token {
            Some(refresh_token) => Ok(AuthStepView::Exchange(refresh_request(refresh_token))),
            None => Ok(AuthStepView::Ready(AuthOutcomeView::Unmodified)),
        },
    }
}

/// An access token that has not expired is attached without any exchange.
pub proof fn lemma_fresh_token_is_attached(auth: JumboAuth, now: Timestamp)
    requires
        auth@.fresh_at(now),
    ensures
        auth@.access_token matches Some((token, _)) && auth.plan(now) == Ok::<
            AuthStepView,
            ClientErrorView,
        >(AuthStepView::Ready(AuthOutcomeView::Bearer(token))),
{
}

/// An access token that has expired is never attached. Where a refresh
/// token is held, exactly one exchange is asked for, the refresh with that
/// token; where none is held, the request fails and nothing is asked for.
pub proof fn lemma_expired_token_is_refreshed(auth: JumboAuth, now: Timestamp)
    requires
        auth@.access_token is Some,
        !auth@.fresh_at(now),
    ensures
        !(auth.plan(now) matches Ok(step) && step is Ready),
        auth@.refresh_token matches Some(refresh_token) ==> auth.plan(now) == Ok::<
            AuthStepView,
            ClientErrorView,
        >(AuthStepView::Exchange(refresh_request(refresh_token))),
        auth@.refresh_token is None ==> auth.plan(now) == Err::<AuthStepView, ClientErrorView>(
            ClientErrorView::TextError(no_refresh_token()),
        ),
{
}

/// The answer of a refresh replaces the stale token: what the strategy holds
/// afterwards is the access token of the answer, whatever it held before.
pub proof fn lemma_refreshed_token_replaces_stale(
    auth: JumboAuth,
    answer: Token,
    answered_at: Timestamp,
)
    ensures
        auth.completed(answer, answered_at)@.access_token matches Some((token, _)) && token
            == answer.access_token@,
        auth.completed(answer, answered_at)@.refresh_token == Some(answer.refresh_token@),
{
}

/// Without any token the request goes out unauthenticated, and with a
/// refresh token alone the refresh is asked for.
pub proof fn lemma_missing_token(auth: JumboAuth, now: Timestamp)
    requires
        auth@.access_token is None,
    ensures
        auth@.refresh_token is None ==> auth.plan(now) == Ok::<AuthStepView, ClientErrorView>(
            AuthStepView::Ready(AuthOutcomeView::Unmodified),
        ),
        auth@.refresh_token matches Some(refresh_token) ==> auth.plan(now) == Ok::<
            AuthStepView,
            ClientErrorView,
        >(AuthStepView::Exchange(refresh_request(refresh_token))),
{
}

/// Callers that take turns share one refresh: once the first caller's
/// refresh is answered, a later caller that prepares its request before the
/// new token expires attaches that token and asks for no refresh of its own.
pub proof fn lemma_one_refresh_serves_all(
    auth: JumboAuth,
    answer: Token,
    answered_at: Timestamp,
    later: Timestamp,
)
    requires
        answered_at.can_shift(answer.expires_in as int),
        answered_at.shifted(answer.expires_in as int).is_after(later),
    ensures
        auth.completed(answer, answered_at).plan(later) == Ok::<AuthStepView, ClientErrorView>(
            AuthStepView::Ready(AuthOutcomeView::Bearer(answer.access_token@)),
        ),
{
}

/// What a strategy holds once it has taken in an answer: the tokens of the
/// answer, the access token expiring `expires_in` seconds after `now`.
pub proof fn lemma_completed(auth: JumboAuth, token: Token, now: Timestamp)
    ensures
        auth.completed(token, now)@ == TokenStateView::accepted(token@, now),
{
}

/// No exchange names a member of its body twice.
pub proof fn lemma_names_distinct(
    code: Seq<char>,
    code_verifier: Seq<char>,
    refresh_token: Seq<char>,
)
    ensures
        code_request(code, code_verifier).names_distinct(),
        refresh_request(refresh_token).names_distinct(),
{
    reveal_strlit("client_id");
    reveal_strlit("code");
    reveal_strlit("code_verifier");
    reveal_strlit("grant_type");
    reveal_strlit("redirect_uri");
    reveal_strlit("refresh_token");
    assert("client_id"@.len() == 9 && "code"@.len() == 4 && "code_verifier"@.len() == 13);
    assert("grant_type"@.len() == 10 && "redirect_uri"@.len() == 12);
    assert("refresh_token"@.len() == 13);
    let by_code = code_request(code, code_verifier).fields;
    assert forall|i: int, j: int| 0 <= i < j < by_code.len() implies (#[trigger] by_code[i]).0 != (
    #[trigger] by_code[j]).0 by {
        assert(by_code[i].0.len() != by_code[j].0.len());
    }
    let by_refresh = refresh_request(refresh_token).fields;
    assert forall|i: int, j: int| 0 <= i < j < by_refresh.len() implies (
    #[trigger] by_refresh[i]).0 != (#[trigger] by_refresh[j]).0 by {
        assert(by_refresh[i].0.len() != by_refresh[j].0.len());
    }
}

/// The tokens of this vendor as they are kept between runs.
#[derive(Debug)]
pub struct JumboToken {
    pub access_token: Option<(String, Timestamp)>,
    pub refresh_token: Option<String>,
}

impl View for JumboToken {
    type V = TokenStateView;

    open spec fn view(&self) -> TokenStateView {
        TokenStateView {
            access_token: access_view(self.access_token),
            refresh_token: text_view(self.refresh_token),
        }
    }
}

/// The strategy and the tokens it owns.
#[derive(Debug)]
pub struct JumboAuth {
    access_token: Option<(String, Timestamp)>,
    refresh_token: Option<String>,
}

impl View for JumboAuth {
    type V = TokenStateView;

    closed spec fn view(&self) -> TokenStateView {
        TokenStateView {
            access_token: access_view(self.access_token),
            refresh_token: text_view(self.refresh_token),
        }
    }
}

impl JumboAuth {
    /// A strategy that holds no tokens.
    pub fn new() -> (auth: Self)
        ensures
            auth@ == TokenStateView::empty(),
    {
        JumboAuth { access_token: None, refresh_token: None }
    }

    /// A copy of the tokens held, to be kept between runs.
    pub fn token(&self) -> (token: JumboToken)
        ensures
            token@ == self@,
    {
        let access_token = match &self.access_token {
            Some((token, expires_at)) => Some((token.clone(), *expires_at)),
            None => None,
        };
        let refresh_token = match &self.refresh_token {
            Some(token) => Some(token.clone()),
            None => None,
        };
        JumboToken { access_token, refresh_token }
    }

    /// Replaces the tokens held by `token`, all of them.
    pub fn set_token(&mut self, token: JumboToken)
        ensures
            final(self)@ == old(self)@.replaced_by(token@),
    {
        self.access_token = token.access_token;
        self.refresh_token = token.refresh_token;
    }

    /// Replaces the refresh token and leaves the access token alone.
    pub fn set_refresh_token(&mut self, refresh_token: String)
        ensures
            final(self)@ == old(self)@.with_refresh_token(refresh_token@),
    {
        self.refresh_token = Some(refresh_token);
    }

    /// Stores the tokens that an endpoint answered at `now` and returns the
    /// access token to attach.
    pub fn process_token(&mut self, token: Token, now: Timestamp) -> (access_token: String)
        requires
            now.can_shift(token.expires_in as int),
        ensures
            access_token@ == token.access_token@,
            final(self)@ == TokenStateView::accepted(token@, now),
            *final(self) == old(self).completed(token, now),
    {
        let access_token = token.access_token.clone();
        self.access_token = Some((token.access_token, now.plus_seconds(token.expires_in)));
        self.refresh_token = Some(token.refresh_token);
        access_token
    }

    /// The exchange of the authorization code `code`, with the verifier of
    /// its PKCE challenge, for tokens.
    pub fn request_token(&self, code: String, code_verifier: String) -> (request: TokenRequest)
        ensures
            request@ == code_request(code@, code_verifier@),
    {
        let mut fields: Vec<(String, String)> = Vec::new();
        fields.push(pair("client_id", OAUTH_CLIENT_ID));
        fields.push(pair("code", code.as_str()));
        fields.push(pair("code_verifier", code_verifier.as_str()));
        fields.push(pair("grant_type", "authorization_code"));
        fields.push(pair("redirect_uri", OAUTH_REDIRECT_URI));
        let request = TokenRequest { path: String::from_str("/oauth/token"), fields };
        assert(request@.fields =~= code_request(code@, code_verifier@).fields);
        request
    }

    /// The exchange of the refresh token held for new tokens. Without a
    /// refresh token there is nothing to send: the call fails.
    pub fn refresh_token(&self) -> (r: Result<TokenRequest, ClientError>)
        ensures
            request_view(r) == refresh_plan(self@.refresh_token),
    {
        match &self.refresh_token {
            Some(refresh_token) => {
                let mut fields: Vec<(String, String)> = Vec::new();
                fields.push(pair("client_id", OAUTH_CLIENT_ID));
                fields.push(pair("grant_type", "refresh_token"));
                fields.push(pair("refresh_token", refresh_token.as_str()));
                let request = TokenRequest { path: String::from_str("/oauth/token"), fields };
                assert(request@.fields =~= refresh_request(refresh_token@).fields);
                Ok(request)
            },
            None => Err(missing_refresh_token()),
        }
    }

    /// The refresh that `request` falls back on.
    fn refresh_step(&self) -> (r: Result<AuthStep, ClientError>)
        ensures
            crate::auth::step_view(r) == match refresh_plan(self@.refresh_token) {
                Ok(request) => Ok::<AuthStepView, ClientErrorView>(
                    AuthStepView::Exchange(request),
                ),
                Err(e) => Err(e),
            },
    {
        match self.refresh_token() {
            Ok(request) => Ok(AuthStep::Exchange(request)),
            Err(e) => Err(e),
        }
    }
}

impl Auth for JumboAuth {
    open spec fn plan(&self, now: Timestamp) -> Result<AuthStepView, ClientErrorView> {
        decide(self@, now)
    }

    fn request(&self, now: Timestamp) -> (r: Result<AuthStep, ClientError>) {
        match &self.access_token {
            Some((access_token, expires_at)) => {
                if expires_at.after(&now) {
                    Ok(AuthStep::Ready(AuthOutcome::Bearer(access_token.clone())))
                } else {
                    self.refresh_step()
                }
            },
            None => {
                if self.refresh_token.is_some() {
                    self.refresh_step()
                } else {
                    Ok(AuthStep::Ready(AuthOutcome::Unmodified))
                }
            },
        }
    }
}

impl TokenAuth for JumboAuth {
    closed spec fn completed(&self, token: Token, now: Timestamp) -> Self {
        JumboAuth {
            access_token: Some((token.access_token, now.shifted(token.expires_in as int))),
            refresh_token: Some(token.refresh_token),
        }
    }

    fn complete(&mut self, answer: Result<Token, ClientError>, now: Timestamp) -> (r: Result<
        AuthOutcome,
        ClientError,
    >)
        ensures
            answer matches Ok(token) ==> final(self)@ == TokenStateView::accepted(token@, now),
    {
        match answer {
            Ok(token) => Ok(AuthOutcome::Bearer(self.process_token(token, now))),
            Err(e) => Err(e),
        }
    }
}

} // verus!
