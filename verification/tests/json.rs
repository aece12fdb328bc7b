use supermarket::auth::AuthOutcome;
use supermarket::error::{ClientError, ErrorKind};
use supermarket::json::{
    bytes_equal, classify, conclude, Body, BodyKind, JsonClient, Method, Nothing, Request,
    ResponseHead, Strategy, Transport,
};

fn transport() -> Transport {
    Transport { headers: vec![], user_agent: "test/1".to_string(), gzip: false }
}

fn client() -> JsonClient {
    JsonClient::new(transport(), "https://api.example", Strategy::Vendor)
}

fn transport_failure() -> reqwest::Error {
    reqwest::Client::new().get("no scheme").build().unwrap_err()
}

fn head(status: u16, content_type: Option<&str>) -> ResponseHead {
    ResponseHead { status, content_type: content_type.map(|t| t.as_bytes().to_vec()) }
}

#[test]
fn a_client_keeps_what_it_was_made_with() {
    let c = client();
    assert_eq!(c.url(), "https://api.example");
    assert_eq!(c.auth(), Strategy::Vendor);
    assert_eq!(c.client().user_agent, "test/1");
    assert!(!c.client().gzip);
}

#[test]
fn request_joins_base_and_path_and_carries_query_and_body() {
    let r = client().request(Method::Patch, "/v1/items", 7u8, "body");
    assert_eq!(r.strategy, Strategy::Vendor);
    assert_eq!(r.method, Method::Patch);
    assert_eq!(r.url, "https://api.example/v1/items");
    assert_eq!(r.query, 7u8);
    assert_eq!(r.body, "body");
    assert_eq!(r.bearer, None);
}

#[test]
fn each_method_has_its_forwarder() {
    let c = client();
    assert_eq!(c.delete("/d", 1u8, 2u8).method, Method::Delete);
    assert_eq!(c.get("/g", 1u8).method, Method::Get);
    assert_eq!(c.head("/h", 1u8).method, Method::Head);
    assert_eq!(c.patch("/p", 1u8, 2u8).method, Method::Patch);
    assert_eq!(c.post("/p", 1u8, 2u8).method, Method::Post);
    assert_eq!(c.put("/p", 1u8, 2u8).method, Method::Put);
    assert_eq!(c.get("/g", 1u8).body, Nothing);
    assert_eq!(c.head("/h", 1u8).url, "https://api.example/h");
    assert_eq!(c.put("/p", 1u8, 2u8).body, 2u8);
}

#[test]
fn authorize_attaches_the_bearer_token() {
    let r = client().get("/g", Nothing).authorize(Ok(AuthOutcome::Bearer("t0ken".to_string()))).unwrap();
    assert_eq!(r.bearer, Some("t0ken".to_string()));
    assert_eq!(r.url, "https://api.example/g");
    assert_eq!(r.method, Method::Get);
}

#[test]
fn authorize_leaves_an_unmodified_request_as_it_is() {
    let r = client().get("/g", Nothing).authorize(Ok(AuthOutcome::Unmodified)).unwrap();
    assert_eq!(r.bearer, None);
    assert_eq!(r.url, "https://api.example/g");
}

#[test]
fn authorize_ends_the_call_with_the_failure_of_the_strategy() {
    let r = client().get("/g", Nothing).authorize(Err(ClientError::TextError("No refresh token".to_string())));
    assert!(matches!(r, Err(ClientError::TextError(text)) if text == "No refresh token"));
}

#[test]
fn success_is_any_status_from_200_to_299() {
    for status in [200u16, 201, 204, 299] {
        assert_eq!(classify(Ok(head(status, Some("text/plain")))).unwrap(), BodyKind::Typed);
        assert_eq!(classify(Ok(head(status, None))).unwrap(), BodyKind::Typed);
    }
    for status in [0u16, 100, 199, 300, 304, 400, 401, 500, u16::MAX] {
        assert_ne!(classify(Ok(head(status, None))).unwrap(), BodyKind::Typed);
    }
}

#[test]
fn a_failure_with_a_json_content_type_is_read_as_json() {
    assert_eq!(classify(Ok(head(400, Some("application/json")))).unwrap(), BodyKind::Json);
    assert_eq!(classify(Ok(head(500, Some("application/json")))).unwrap(), BodyKind::Json);
}

#[test]
fn only_the_exact_content_type_marks_json() {
    for other in
        ["application/json; charset=utf-8", "Application/JSON", "application/jso", "application/jsonx", "", "text/json"]
    {
        assert_eq!(classify(Ok(head(400, Some(other)))).unwrap(), BodyKind::Text);
    }
    assert_eq!(classify(Ok(head(400, None))).unwrap(), BodyKind::Text);
    let not_text = ResponseHead { status: 400, content_type: Some(vec![0xff, 0xfe]) };
    assert_eq!(classify(Ok(not_text)).unwrap(), BodyKind::Text);
}

#[test]
fn service_unavailable_as_plain_text_is_a_text_failure() {
    let kind = classify(Ok(head(503, Some("text/plain")))).unwrap();
    assert_eq!(kind, BodyKind::Text);
    let r = conclude::<u8>(Body::Text(Ok("Service Unavailable".to_string())));
    match r {
        Err(e) => {
            assert_eq!(e.kind(), ErrorKind::Text);
            assert!(matches!(e, ClientError::TextError(text) if text == "Service Unavailable"));
        }
        Ok(_) => panic!("a failed call cannot succeed"),
    }
}

#[test]
fn a_transport_that_failed_ends_the_call() {
    let r = classify(Err(transport_failure()));
    match r {
        Err(e) => {
            assert_eq!(e.kind(), ErrorKind::Request);
            assert!(matches!(e, ClientError::RequestError(inner) if inner.is_builder()));
        }
        Ok(_) => panic!("a failed transport cannot be classified"),
    }
}

#[test]
fn conclude_hands_the_value_of_a_successful_answer_on() {
    assert!(matches!(conclude(Body::Typed(Ok(41u8))), Ok(41u8)));
}

#[test]
fn conclude_turns_a_json_body_into_a_json_failure() {
    let document = serde_json::Value::Bool(true);
    let r = conclude::<u8>(Body::Json(Ok(document.clone())));
    match r {
        Err(e) => {
            assert_eq!(e.kind(), ErrorKind::Json);
            assert!(matches!(e, ClientError::JsonError(v) if v == document));
        }
        Ok(_) => panic!("a failed call cannot succeed"),
    }
}

#[test]
fn conclude_turns_a_body_that_could_not_be_read_into_a_request_failure() {
    assert!(matches!(conclude::<u8>(Body::Typed(Err(transport_failure()))), Err(ClientError::RequestError(_))));
    assert!(matches!(conclude::<u8>(Body::Json(Err(transport_failure()))), Err(ClientError::RequestError(_))));
    assert!(matches!(conclude::<u8>(Body::Text(Err(transport_failure()))), Err(ClientError::RequestError(_))));
}

#[test]
fn bytes_equal_compares_length_and_content() {
    assert!(bytes_equal(b"", b""));
    assert!(bytes_equal(b"abc", b"abc"));
    assert!(!bytes_equal(b"abc", b"abd"));
    assert!(!bytes_equal(b"abc", b"ab"));
    assert!(!bytes_equal(b"", b"a"));
}

#[test]
fn a_request_can_be_written_by_hand() {
    let r = Request {
        strategy: Strategy::Open,
        method: Method::Get,
        url: "https://x".to_string(),
        query: Nothing,
        body: Nothing,
        bearer: Some("kept".to_string()),
    };
    let r = r.authorize(Ok(AuthOutcome::Unmodified)).unwrap();
    assert_eq!(r.bearer, Some("kept".to_string()));
    assert_eq!(r.strategy, Strategy::Open);
}

#[test]
fn a_body_knows_how_it_was_read() {
    assert_eq!(Body::Typed(Ok(1u8)).kind(), BodyKind::Typed);
    assert_eq!(Body::<u8>::Json(Ok(serde_json::Value::Null)).kind(), BodyKind::Json);
    assert_eq!(Body::<u8>::Text(Ok(String::new())).kind(), BodyKind::Text);
    assert_eq!(Body::<u8>::Text(Err(transport_failure())).kind(), BodyKind::Text);
}
