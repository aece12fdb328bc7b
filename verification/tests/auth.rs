use supermarket::auth::{missing_refresh_token, Auth, AuthOutcome, AuthStep, NoAuth};
use supermarket::error::{ClientError, ErrorKind};
use supermarket::time::Timestamp;

#[test]
fn no_auth_sends_requests_unmodified() {
    let auth = NoAuth::new();
    let step = auth.request(Timestamp::from_secs(0)).unwrap();
    assert!(matches!(step, AuthStep::Ready(AuthOutcome::Unmodified)));
    let step = NoAuth::default().prepare().unwrap();
    assert!(matches!(step, AuthStep::Ready(AuthOutcome::Unmodified)));
}

#[test]
fn missing_refresh_token_is_a_text_failure() {
    let e = missing_refresh_token();
    assert_eq!(e.kind(), ErrorKind::Text);
    assert!(matches!(e, ClientError::TextError(text) if text == "No refresh token"));
}
