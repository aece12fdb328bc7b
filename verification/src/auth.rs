//! What every authentication strategy shares: the values it exchanges with
//! its caller and the capability it offers.
//!
//! A strategy never performs a network call itself. Asked to prepare a
//! request it answers with an [`AuthStep`]: either the request can go out as
//! decided, or a token exchange has to be performed first. The caller
//! performs the exchange and hands the answer to [`TokenAuth::complete`],
//! which stores the tokens and says what to attach.

use crate::error::{ClientError, ClientErrorView};
use crate::text::pairs_view;
use crate::time::{lemma_shifted, Timestamp, CLOCK_LIMIT};
use vstd::prelude::*;

verus! {

/// The longest life of an access token, in seconds, whose expiry can be held
/// whenever the system clock is read.
pub const EXPIRY_LIMIT: i64 = i64::MAX - CLOCK_LIMIT;

/// The text of the failure that a refresh without a refresh token ends in.
pub open spec fn no_refresh_token() -> Seq<char> {
    "No refresh token"@
}

/// The answer of a token endpoint, as far as a strategy reads it.
#[derive(Debug)]
pub struct Token {
    pub access_token: String,
    pub refresh_token: String,
    /// Seconds from the moment of the answer until the access token expires.
    pub expires_in: i64,
}

/// What a `Token` is, over sequences of characters and unbounded integers.
pub struct TokenView {
    pub access_token: Seq<char>,
    pub refresh_token: Seq<char>,
    pub expires_in: int,
}

impl View for Token {
    type V = TokenView;

    open spec fn view(&self) -> TokenView {
        TokenView {
            access_token: self.access_token@,
            refresh_token: self.refresh_token@,
            expires_in: self.expires_in as int,
        }
    }
}

/// The tokens a strategy holds: the model of every vendor's token record.
/// Both absent means anonymous.
pub struct TokenStateView {
    /// The access token and the instant at which it expires.
    pub access_token: Option<(Seq<char>, Timestamp)>,
    pub refresh_token: Option<Seq<char>>,
}

impl TokenStateView {
    /// No tokens at all.
    pub open spec fn empty() -> TokenStateView {
        TokenStateView { access_token: None, refresh_token: None }
    }

    /// The state after a token endpoint answered `token` at `now`: both
    /// tokens are replaced and the access token expires `expires_in` seconds
    /// after `now`.
    pub open spec fn accepted(token: TokenView, now: Timestamp) -> TokenStateView {
        TokenStateView {
            access_token: Some((token.access_token, now.shifted(token.expires_in))),
            refresh_token: Some(token.refresh_token),
        }
    }

    /// The state after the tokens held were replaced by `token`: a total
    /// overwrite, in which nothing of what was held is kept.
    pub open spec fn replaced_by(self, token: TokenStateView) -> TokenStateView {
        token
    }

    /// The same state with the refresh token replaced.
    pub open spec fn with_refresh_token(self, refresh_token: Seq<char>) -> TokenStateView {
        TokenStateView { access_token: self.access_token, refresh_token: Some(refresh_token) }
    }

    /// An access token is held and `now` has not reached its expiry.
    pub open spec fn fresh_at(self, now: Timestamp) -> bool {
        self.access_token matches Some((_, expires_at)) && expires_at.is_after(now)
    }
}

/// Restoring tokens and reading them back gives what was restored, field by
/// field and whatever was held before: a strategy's `set_token` leaves it in
/// the state `held.replaced_by(restored)`, and its `token` returns the state
/// it is in.
pub proof fn lemma_set_token_round_trip(held: TokenStateView, restored: TokenStateView)
    ensures
        held.replaced_by(restored) == restored,
        held.replaced_by(restored).access_token == restored.access_token,
        held.replaced_by(restored).refresh_token == restored.refresh_token,
{
}

/// The access token that is stored when an exchange is answered is the one
/// in the answer, and it expires `expires_in` seconds after the answer.
pub proof fn lemma_accepted_token(token: TokenView, now: Timestamp)
    requires
        now.can_shift(token.expires_in),
    ensures
        TokenStateView::accepted(token, now).access_token matches Some((access_token, expires_at))
            && access_token == token.access_token && expires_at.seconds() == now.seconds()
            + token.expires_in && expires_at.subsec() == now.subsec(),
        TokenStateView::accepted(token, now).refresh_token == Some(token.refresh_token),
{
    lemma_shifted(now, token.expires_in);
}

/// The view of an optional access token with its expiry.
pub open spec fn access_view(access_token: Option<(String, Timestamp)>) -> Option<
    (Seq<char>, Timestamp),
> {
    match access_token {
        Some((token, expires_at)) => Some((token@, expires_at)),
        None => None,
    }
}

/// A token exchange to perform: a POST to `path` on the vendor's
/// authentication endpoint whose JSON body is the object made of `fields`.
#[derive(Debug)]
pub struct TokenRequest {
    pub path: String,
    /// The members of the body, each a name and a text value.
    pub fields: Vec<(String, String)>,
}

/// What a `TokenRequest` is, over sequences.
pub struct TokenRequestView {
    pub path: Seq<char>,
    pub fields: Seq<(Seq<char>, Seq<char>)>,
}

impl TokenRequestView {
    /// No member of the body is named twice.
    pub open spec fn names_distinct(self) -> bool {
        forall|i: int, j: int|
            0 <= i < j < self.fields.len() ==> (#[trigger] self.fields[i]).0 != (
            #[trigger] self.fields[j]).0
    }
}

impl View for TokenRequest {
    type V = TokenRequestView;

    open spec fn view(&self) -> TokenRequestView {
        TokenRequestView { path: self.path@, fields: pairs_view(self.fields@) }
    }
}

/// How a prepared request goes out.
#[derive(Debug)]
pub enum AuthOutcome {
    /// With this access token attached as a bearer credential.
    Bearer(String),
    /// As it is.
    Unmodified,
}

/// What an `AuthOutcome` is, over sequences of characters.
pub enum AuthOutcomeView {
    Bearer(Seq<char>),
    Unmodified,
}

impl View for AuthOutcome {
    type V = AuthOutcomeView;

    open spec fn view(&self) -> AuthOutcomeView {
        match *self {
            AuthOutcome::Bearer(token) => AuthOutcomeView::Bearer(token@),
            AuthOutcome::Unmodified => AuthOutcomeView::Unmodified,
        }
    }
}

/// What a strategy decides when asked to prepare a request.
#[derive(Debug)]
pub enum AuthStep {
    /// No network call is needed: send the request this way.
    Ready(AuthOutcome),
    /// Perform this one exchange, hand its answer to [`TokenAuth::complete`]
    /// and send the request the way that call says.
    Exchange(TokenRequest),
}

/// What an `AuthStep` is, over sequences.
pub enum AuthStepView {
    Ready(AuthOutcomeView),
    Exchange(TokenRequestView),
}

impl View for AuthStep {
    type V = AuthStepView;

    open spec fn view(&self) -> AuthStepView {
        match *self {
            AuthStep::Ready(outcome) => AuthStepView::Ready(outcome@),
            AuthStep::Exchange(request) => AuthStepView::Exchange(request@),
        }
    }
}

/// The view of a decision or the failure it ended in.
pub open spec fn step_view(r: Result<AuthStep, ClientError>) -> Result<
    AuthStepView,
    ClientErrorView,
> {
    match r {
        Ok(step) => Ok(step@),
        Err(e) => Err(e@),
    }
}

/// The view of an exchange to perform or the failure that stands in its way.
pub open spec fn request_view(r: Result<TokenRequest, ClientError>) -> Result<
    TokenRequestView,
    ClientErrorView,
> {
    match r {
        Ok(request) => Ok(request@),
        Err(e) => Err(e@),
    }
}

/// The failure of a refresh that was asked for while no refresh token is held.
pub fn missing_refresh_token() -> (e: ClientError)
    ensures
        e@ == ClientErrorView::TextError(no_refresh_token()),
{
    ClientError::TextError(String::from_str("No refresh token"))
}

/// The capability of an authentication strategy: to decide how an outgoing
/// request is authenticated.
pub trait Auth: Sized {
    /// What the strategy decides for a request prepared at `now`.
    spec fn plan(&self, now: Timestamp) -> Result<AuthStepView, ClientErrorView>;

    /// Decides how a request prepared at `now` is authenticated. Nothing is
    /// changed: a token exchange that is asked for takes effect when its
    /// answer is taken in.
    fn request(&self, now: Timestamp) -> (r: Result<AuthStep, ClientError>)
        ensures
            step_view(r) == self.plan(now),
    ;

    /// Decides how a request prepared now is authenticated, by the system clock.
    fn prepare(&self) -> (r: Result<AuthStep, ClientError>)
        ensures
            exists|now: Timestamp| now.on_clock() && step_view(r) == #[trigger] self.plan(now),
    {
        let now = Timestamp::now();
        self.request(now)
    }
}

/// The capability of a strategy that holds tokens: to take in the answer of
/// a token exchange that it asked for.
pub trait TokenAuth: Auth {
    /// The strategy after it has taken in the answer `token` of a token
    /// exchange at `now`.
    spec fn completed(&self, token: Token, now: Timestamp) -> Self;

    /// Takes in the answer that a token exchange got at `now`. A failed
    /// exchange is handed back and leaves the strategy as it was; a
    /// successful one says to attach the new access token.
    fn complete(&mut self, answer: Result<Token, ClientError>, now: Timestamp) -> (r: Result<
        AuthOutcome,
        ClientError,
    >)
        requires
            answer matches Ok(token) ==> now.can_shift(token.expires_in as int),
        ensures
            answer matches Err(e) ==> r == Err::<AuthOutcome, ClientError>(e) && *final(self)
                == *old(self),
            answer matches Ok(token) ==> r matches Ok(outcome) && outcome@
                == AuthOutcomeView::Bearer(token.access_token@)
                && *final(self) == old(self).completed(token, now),
    ;

    /// Takes in the answer that a token exchange got just now, by the system
    /// clock. `None` says that the expiry of the new access token lies
    /// beyond what a `Timestamp` can hold: nothing was taken in then. That
    /// cannot happen to a token that expires within `EXPIRY_LIMIT` seconds.
    fn finish(&mut self, answer: Result<Token, ClientError>) -> (r: Option<
        Result<AuthOutcome, ClientError>,
    >)
        ensures
            answer matches Err(e) ==> r == Some(Err::<AuthOutcome, ClientError>(e))
                && *final(self) == *old(self),
            answer matches Ok(token) ==> match r {
                None => *final(self) == *old(self) && token.expires_in > EXPIRY_LIMIT,
                Some(done) => done matches Ok(outcome) && outcome@ == AuthOutcomeView::Bearer(
                    token.access_token@,
                ) && exists|now: Timestamp|
                    now.on_clock() && now.can_shift(token.expires_in as int)
                        && *final(self) == #[trigger] old(self).completed(token, now),
            },
    {
        let now = Timestamp::now();
        let fits = match &answer {
            Ok(token) => now.checked_plus_seconds(token.expires_in).is_some(),
            Err(_) => true,
        };
        if fits {
            Some(self.complete(answer, now))
        } else {
            None
        }
    }
}

/// The strategy of an endpoint that needs no credentials: every request goes
/// out as it is.
#[derive(Debug)]
pub struct NoAuth {}

impl NoAuth {
    pub fn new() -> (auth: Self)
        ensures
            auth == (NoAuth {  }),
    {
        NoAuth {  }
    }
}

impl Auth for NoAuth {
    open spec fn plan(&self, now: Timestamp) -> Result<AuthStepView, ClientErrorView> {
        Ok(AuthStepView::Ready(AuthOutcomeView::Unmodified))
    }

    fn request(&self, now: Timestamp) -> (r: Result<AuthStep, ClientError>) {
        Ok(AuthStep::Ready(AuthOutcome::Unmodified))
    }
}

impl Default for NoAuth {
    fn default() -> (auth: Self)
        ensures
            auth == (NoAuth {  }),
    {
        NoAuth::new()
    }
}

} // verus!
