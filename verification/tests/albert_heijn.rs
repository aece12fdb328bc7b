use supermarket::albert_heijn::auth::{AlbertHeijnAuth, AlbertHeijnToken, OAUTH_CLIENT_ID};
use supermarket::auth::{Auth, AuthOutcome, AuthStep, Token, TokenAuth, TokenRequest};
use supermarket::error::ClientError;
use supermarket::time::Timestamp;

fn held(access: Option<(&str, i64)>, refresh: Option<&str>) -> AlbertHeijnAuth {
    let mut auth = AlbertHeijnAuth::new();
    auth.set_token(AlbertHeijnToken {
        access_token: access.map(|(t, at)| (t.to_string(), Timestamp::from_secs(at))),
        refresh_token: refresh.map(|t| t.to_string()),
    });
    auth
}

fn fields(request: &TokenRequest) -> Vec<(&str, &str)> {
    request.fields.iter().map(|(n, v)| (n.as_str(), v.as_str())).collect()
}

#[test]
fn a_new_strategy_holds_no_tokens() {
    let token = AlbertHeijnAuth::new().token();
    assert_eq!(token.access_token, None);
    assert_eq!(token.refresh_token, None);
}

#[test]
fn set_token_then_token_gives_the_tokens_back() {
    let mut auth = held(Some(("old", 1)), Some("old-refresh"));
    auth.set_token(AlbertHeijnToken {
        access_token: Some((" Access Token ".to_string(), Timestamp::new(1_700_000_000, 123).unwrap())),
        refresh_token: Some("".to_string()),
    });
    let token = auth.token();
    assert_eq!(
        token.access_token,
        Some((" Access Token ".to_string(), Timestamp::new(1_700_000_000, 123).unwrap()))
    );
    assert_eq!(token.refresh_token, Some("".to_string()));
}

#[test]
fn set_token_overwrites_everything() {
    let mut auth = held(Some(("old", 1)), Some("old-refresh"));
    auth.set_token(AlbertHeijnToken { access_token: None, refresh_token: None });
    let token = auth.token();
    assert_eq!(token.access_token, None);
    assert_eq!(token.refresh_token, None);
}

#[test]
fn set_refresh_token_leaves_the_access_token_alone() {
    let mut auth = held(Some(("a", 10)), Some("r"));
    auth.set_refresh_token("r2".to_string());
    let token = auth.token();
    assert_eq!(token.access_token, Some(("a".to_string(), Timestamp::from_secs(10))));
    assert_eq!(token.refresh_token, Some("r2".to_string()));
}

#[test]
fn a_held_access_token_is_attached_even_when_expired() {
    let auth = held(Some(("stale", 100)), Some("r"));
    for now in [0, 100, 101, 1_000_000] {
        let step = auth.request(Timestamp::from_secs(now)).unwrap();
        assert!(matches!(step, AuthStep::Ready(AuthOutcome::Bearer(t)) if t == "stale"));
    }
    let step = auth.prepare().unwrap();
    assert!(matches!(step, AuthStep::Ready(AuthOutcome::Bearer(t)) if t == "stale"));
}

#[test]
fn a_refresh_token_alone_leads_to_a_refresh() {
    let auth = held(None, Some("r-1"));
    match auth.request(Timestamp::from_secs(0)).unwrap() {
        AuthStep::Exchange(request) => {
            assert_eq!(request.path, "/mobile-auth/v1/auth/token/refresh");
            assert_eq!(fields(&request), vec![("clientId", "appie-android"), ("refreshToken", "r-1")]);
        }
        other => panic!("{:?}", other),
    }
}

#[test]
fn no_tokens_lead_to_an_anonymous_token() {
    let auth = AlbertHeijnAuth::new();
    match auth.request(Timestamp::from_secs(0)).unwrap() {
        AuthStep::Exchange(request) => {
            assert_eq!(request.path, "/mobile-auth/v1/auth/token/anonymous");
            assert_eq!(fields(&request), vec![("clientId", OAUTH_CLIENT_ID)]);
        }
        other => panic!("{:?}", other),
    }
}

#[test]
fn request_token_exchanges_the_code() {
    let request = AlbertHeijnAuth::new().request_token("c0de".to_string());
    assert_eq!(request.path, "/mobile-auth/v1/auth/token");
    assert_eq!(fields(&request), vec![("clientId", "appie-android"), ("code", "c0de")]);
}

#[test]
fn request_anonymous_token_names_the_client_only() {
    let request = AlbertHeijnAuth::new().request_anonymous_token();
    assert_eq!(request.path, "/mobile-auth/v1/auth/token/anonymous");
    assert_eq!(fields(&request), vec![("clientId", "appie-android")]);
}

#[test]
fn refresh_token_without_a_refresh_token_fails_and_asks_for_nothing() {
    let auth = held(Some(("a", 10)), None);
    let r = auth.refresh_token();
    assert!(matches!(r, Err(ClientError::TextError(text)) if text == "No refresh token"));
}

#[test]
fn refresh_token_exchanges_the_refresh_token_held() {
    let auth = held(None, Some("r-9"));
    let request = auth.refresh_token().unwrap();
    assert_eq!(request.path, "/mobile-auth/v1/auth/token/refresh");
    assert_eq!(fields(&request), vec![("clientId", "appie-android"), ("refreshToken", "r-9")]);
}

#[test]
fn process_token_stores_both_tokens_and_the_expiry() {
    let mut auth = held(Some(("old", 1)), Some("old-refresh"));
    let now = Timestamp::new(1_000, 250).unwrap();
    let attached = auth.process_token(
        Token { access_token: "new".to_string(), refresh_token: "r2".to_string(), expires_in: 7_200 },
        now,
    );
    assert_eq!(attached, "new");
    let token = auth.token();
    assert_eq!(token.access_token, Some(("new".to_string(), Timestamp::new(8_200, 250).unwrap())));
    assert_eq!(token.refresh_token, Some("r2".to_string()));
}

#[test]
fn complete_stores_the_answer_and_attaches_the_new_token() {
    let mut auth = held(None, Some("r"));
    let outcome = auth
        .complete(
            Ok(Token { access_token: "new".to_string(), refresh_token: "r2".to_string(), expires_in: -5 }),
            Timestamp::from_secs(100),
        )
        .unwrap();
    assert!(matches!(outcome, AuthOutcome::Bearer(t) if t == "new"));
    let token = auth.token();
    assert_eq!(token.access_token, Some(("new".to_string(), Timestamp::from_secs(95))));
    assert_eq!(token.refresh_token, Some("r2".to_string()));
}

#[test]
fn a_failed_exchange_leaves_the_tokens_untouched() {
    let mut auth = held(Some(("a", 10)), Some("r"));
    let failed = auth.complete(Err(ClientError::TextError("Bad Gateway".to_string())), Timestamp::from_secs(100));
    assert!(matches!(failed, Err(ClientError::TextError(text)) if text == "Bad Gateway"));
    let token = auth.token();
    assert_eq!(token.access_token, Some(("a".to_string(), Timestamp::from_secs(10))));
    assert_eq!(token.refresh_token, Some("r".to_string()));
}

#[test]
fn callers_that_take_turns_share_one_exchange() {
    let mut auth = AlbertHeijnAuth::new();
    // the first caller finds no token and is told to exchange
    assert!(matches!(auth.request(Timestamp::from_secs(10)), Ok(AuthStep::Exchange(_))));
    let first = auth
        .complete(
            Ok(Token { access_token: "shared".to_string(), refresh_token: "r".to_string(), expires_in: 60 }),
            Timestamp::from_secs(11),
        )
        .unwrap();
    assert!(matches!(first, AuthOutcome::Bearer(t) if t == "shared"));
    // the second caller gets its turn afterwards and asks for no exchange
    let second = auth.request(Timestamp::from_secs(12)).unwrap();
    assert!(matches!(second, AuthStep::Ready(AuthOutcome::Bearer(t)) if t == "shared"));
}

#[test]
fn albert_heijn_finish_takes_an_answer_in_by_the_clock() {
    let mut auth = AlbertHeijnAuth::new();
    let around = Timestamp::now();
    let done = auth
        .finish(Ok(Token { access_token: "new".to_string(), refresh_token: "r".to_string(), expires_in: 60 }))
        .unwrap()
        .unwrap();
    assert!(matches!(done, AuthOutcome::Bearer(t) if t == "new"));
    let (access_token, expires_at) = auth.token().access_token.unwrap();
    assert_eq!(access_token, "new");
    assert!((expires_at.secs() - around.secs() - 60).abs() <= 60);
    let unheld = auth.finish(Ok(Token {
        access_token: "never".to_string(),
        refresh_token: "r".to_string(),
        expires_in: i64::MAX,
    }));
    assert!(unheld.is_none());
    assert_eq!(auth.token().access_token.unwrap().0, "new");
}
