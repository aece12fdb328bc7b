use supermarket::albert_heijn::auth::{AlbertHeijnAuth, AlbertHeijnToken, ErrorResponse};
use supermarket::albert_heijn::client::{AlbertHeijnClient, AlbertHeijnInternalClient};
use supermarket::albert_heijn::common::Address;
use supermarket::client::Identifier;
use supermarket::error::ClientError;
use supermarket::json::{status_is_server_error, status_is_success, Method, Nothing, Strategy};
use supermarket::jumbo::auth::{JumboAuth, JumboToken};
use supermarket::jumbo::client::{JumboClient, JumboInternalClient};
use supermarket::time::Timestamp;

fn names(pairs: &[(String, String)]) -> Vec<(&str, &str)> {
    pairs.iter().map(|(n, v)| (n.as_str(), v.as_str())).collect()
}

#[test]
fn albert_heijn_endpoints_are_set_up_as_the_app_sets_them_up() {
    let c = AlbertHeijnInternalClient::new();
    assert_eq!(c.json_client.url(), "https://api.ah.nl");
    assert_eq!(c.json_client.auth(), Strategy::Vendor);
    assert_eq!(c.json_client.client().user_agent, "Appie/8.60.1");
    assert!(c.json_client.client().gzip);
    assert_eq!(
        names(&c.json_client.client().headers),
        vec![("x-application", "AHWEBSHOP"), ("x-clientname", "Appie"), ("x-clientversion", "8.60.1")]
    );
    assert_eq!(c.auth_client.url(), "https://api.ah.nl");
    assert_eq!(c.auth_client.auth(), Strategy::Open);
    assert_eq!(c.graphql_client.json_client().url(), "https://api.ah.nl/graphql");
    assert_eq!(c.graphql_client.json_client().auth(), Strategy::Vendor);
    assert_eq!(
        names(&c.graphql_client.json_client().client().headers),
        vec![("x-client-name", "appie-android"), ("x-client-version", "8.60.1"), ("x-locale", "nl_NL")]
    );
    let d = AlbertHeijnClient::default();
    assert_eq!(d.internal.json_client.url(), "https://api.ah.nl");
}

#[test]
fn jumbo_endpoints_are_set_up_as_the_app_sets_them_up() {
    let c = JumboInternalClient::new();
    assert_eq!(c.auth_client.url(), "https://auth.jumbo.com");
    assert_eq!(c.auth_client.auth(), Strategy::Open);
    assert!(c.auth_client.client().headers.is_empty());
    assert_eq!(c.json_client.url(), "https://mobileapi.jumbo.com");
    assert_eq!(c.json_client.auth(), Strategy::Open);
    assert_eq!(names(&c.json_client.client().headers), vec![("x-source", "JUMBO-APP")]);
    assert_eq!(c.json_client.client().user_agent, "Jumbo/11.1.0");
    assert_eq!(c.graphql_client.json_client().url(), "https://www.jumbo.com/api/graphql");
    assert_eq!(c.graphql_client.json_client().auth(), Strategy::Open);
    assert_eq!(c.loyalty_json_client.url(), "https://loyalty-app.jumbo.com/api");
    assert_eq!(c.loyalty_json_client.auth(), Strategy::Vendor);
    assert_eq!(c.loyalty_graphql_client.json_client().url(), "https://loyalty-app.jumbo.com/api/graphql");
    assert_eq!(c.loyalty_graphql_client.json_client().auth(), Strategy::Vendor);
    let d = JumboClient::default();
    assert_eq!(d.internal.loyalty_json_client.url(), "https://loyalty-app.jumbo.com/api");
}

#[test]
fn albert_heijn_calls_go_where_the_api_has_them() {
    let c = AlbertHeijnInternalClient::new();
    let r = c.product_categories();
    assert_eq!((r.method, r.url.as_str()), (Method::Get, "https://api.ah.nl/mobile-services/v1/product-shelves/categories"));
    let r = c.product_subcategories("1234");
    assert_eq!(r.url, "https://api.ah.nl/mobile-services/v1/product-shelves/categories/1234/sub-categories");
    let r = c.product_search_suggestions("AARDBEI NED", 10);
    assert_eq!(r.url, "https://api.ah.nl/mobile-services/product/search/v2/suggestions");
    assert_eq!(names(&r.query), vec![("query", "AARDBEI NED"), ("amount", "10")]);
    let r = c.search_products(vec![("bonus", "Bonus")]);
    assert_eq!(r.url, "https://api.ah.nl/mobile-services/product/search/v2");
    assert_eq!(r.query, vec![("bonus", "Bonus")]);
    let r = c.search_products_by_category("77");
    assert_eq!(r.url, "https://api.ah.nl/mobile-services/product/search/v2");
    assert_eq!(names(&r.query), vec![("taxonomyId", "77")]);
    let r = c.receipts();
    assert_eq!(r.url, "https://api.ah.nl/mobile-services/v1/receipts");
    assert_eq!(r.strategy, Strategy::Vendor);
    let r = c.receipt("AH-1");
    assert_eq!((r.method, r.url.as_str()), (Method::Get, "https://api.ah.nl/mobile-services/v2/receipts/AH-1"));
    assert_eq!(r.bearer, None);
    let r = c.member("query");
    assert_eq!((r.method, r.url.as_str(), r.body), (Method::Post, "https://api.ah.nl/graphql", "query"));
}

#[test]
fn jumbo_calls_go_where_the_api_has_them() {
    let c = JumboInternalClient::new();
    let r = c.product_categories();
    assert_eq!((r.method, r.url.as_str()), (Method::Get, "https://mobileapi.jumbo.com/v17/categories"));
    assert_eq!(names(&r.query), vec![("withThematicAisles", "true")]);
    assert_eq!(r.strategy, Strategy::Open);
    let r = c.product_subcategories("fruit");
    assert_eq!(r.url, "https://mobileapi.jumbo.com/v17/categories");
    assert_eq!(names(&r.query), vec![("id", "fruit")]);
    let r = c.search_products(Nothing);
    assert_eq!(r.url, "https://mobileapi.jumbo.com/v17/search");
    let r = c.receipts();
    assert_eq!(r.url, "https://loyalty-app.jumbo.com/api/receipt/customer/overviews");
    assert_eq!(r.strategy, Strategy::Vendor);
    let r = c.receipt("tx-9");
    assert_eq!(r.url, "https://loyalty-app.jumbo.com/api/receipt/tx-9");
    let r = c.profile(1u8);
    assert_eq!((r.method, r.url.as_str(), r.body), (Method::Post, "https://loyalty-app.jumbo.com/api/graphql", 1u8));
    assert_eq!(r.strategy, Strategy::Vendor);
    let r = c.search_suggestions(2u8);
    assert_eq!((r.method, r.url.as_str(), r.body), (Method::Post, "https://www.jumbo.com/api/graphql", 2u8));
    assert_eq!(r.strategy, Strategy::Open);
}

#[test]
fn albert_heijn_signs_in_with_a_code() {
    let c = AlbertHeijnClient::new();
    let auth = AlbertHeijnAuth::new();
    let r = c.auth_with_code(&auth, "c0de");
    assert_eq!((r.method, r.url.as_str()), (Method::Post, "https://api.ah.nl/mobile-auth/v1/auth/token"));
    assert_eq!(names(&r.body), vec![("clientId", "appie-android"), ("code", "c0de")]);
    assert_eq!(r.strategy, Strategy::Open);
}

#[test]
fn albert_heijn_signs_in_with_a_refresh_token() {
    let c = AlbertHeijnClient::new();
    let mut auth = AlbertHeijnAuth::new();
    c.set_token(
        &mut auth,
        AlbertHeijnToken { access_token: Some(("old".to_string(), Timestamp::from_secs(1))), refresh_token: None },
    );
    let r = c.auth_with_refresh_token(&mut auth, "r-1").unwrap();
    assert_eq!(r.url, "https://api.ah.nl/mobile-auth/v1/auth/token/refresh");
    assert_eq!(names(&r.body), vec![("clientId", "appie-android"), ("refreshToken", "r-1")]);
    let token = c.token(&auth);
    assert_eq!(token.access_token, None);
    assert_eq!(token.refresh_token, Some("r-1".to_string()));
}

#[test]
fn jumbo_signs_in_with_a_code_and_its_verifier() {
    let c = JumboClient::new();
    let auth = JumboAuth::new();
    let r = c.auth_with_code(&auth, "c0de", "v3rifier");
    assert_eq!((r.method, r.url.as_str()), (Method::Post, "https://auth.jumbo.com/oauth/token"));
    assert_eq!(
        names(&r.body),
        vec![
            ("client_id", "ZVa0cW0LadbDHINgrBLuEAp5amVBKQh1"),
            ("code", "c0de"),
            ("code_verifier", "v3rifier"),
            ("grant_type", "authorization_code"),
            ("redirect_uri", "https://loyalty-app.jumbo.com/home"),
        ]
    );
}

#[test]
fn jumbo_signs_in_with_a_refresh_token() {
    let c = JumboClient::new();
    let mut auth = JumboAuth::new();
    c.set_token(
        &mut auth,
        JumboToken { access_token: Some(("old".to_string(), Timestamp::from_secs(1))), refresh_token: None },
    );
    let r = c.auth_with_refresh_token(&mut auth, "r-1").unwrap();
    assert_eq!(r.url, "https://auth.jumbo.com/oauth/token");
    assert_eq!(
        names(&r.body),
        vec![("client_id", "ZVa0cW0LadbDHINgrBLuEAp5amVBKQh1"), ("grant_type", "refresh_token"), ("refresh_token", "r-1")]
    );
    let token = c.token(&auth);
    assert_eq!(token.access_token, None);
    assert_eq!(token.refresh_token, Some("r-1".to_string()));
}

fn ah_summary(id: &str, at: i64) -> supermarket::albert_heijn::receipt::ReceiptSummary<u32> {
    supermarket::albert_heijn::receipt::ReceiptSummary {
        store_address: Address {
            city: "Zaandam".to_string(),
            country_code: "NL".to_string(),
            house_number: "1".to_string(),
            postal_code: "1506 MA".to_string(),
            street: "Provincialeweg".to_string(),
        },
        total: supermarket::albert_heijn::receipt::ReceiptTotal { amount: 1234 },
        total_discount: 100,
        transaction_id: id.to_string(),
        transaction_moment: Timestamp::from_secs(at),
    }
}

#[test]
fn albert_heijn_receipts_are_presented_in_order() {
    let c = AlbertHeijnClient::new();
    let presented = c.receipts(Ok(vec![ah_summary("b", 20), ah_summary("a", 10), ah_summary("b", 30)])).unwrap();
    let seen: Vec<(&str, Timestamp)> = presented.iter().map(|s| (s.id.as_str(), s.created_at)).collect();
    assert_eq!(
        seen,
        vec![("b", Timestamp::from_secs(20)), ("a", Timestamp::from_secs(10)), ("b", Timestamp::from_secs(30))]
    );
    assert_eq!(presented[1].identifier(), "a");
    assert!(c.receipts::<u32>(Ok(vec![])).unwrap().is_empty());
}

#[test]
fn albert_heijn_receipts_hand_a_failure_on() {
    let c = AlbertHeijnClient::new();
    let failed = c.receipts::<u32>(Err(ClientError::TextError("Unauthorized".to_string())));
    assert!(matches!(failed, Err(ClientError::TextError(t)) if t == "Unauthorized"));
    let failed = c.receipt(Err(ClientError::TextError("Not Found".to_string())));
    assert!(matches!(failed, Err(ClientError::TextError(t)) if t == "Not Found"));
}

#[test]
fn albert_heijn_receipt_is_named_by_what_it_was_asked_for() {
    let c = AlbertHeijnClient::new();
    let answer = supermarket::albert_heijn::receipt::Receipt {
        receipt_ui_items: vec![supermarket::albert_heijn::receipt::ReceiptUiItem::Spacer {}],
        store_id: 1008,
        transaction_id: String::new(),
        transaction_moment: Timestamp::from_secs(77),
    };
    let named = c.internal.received_receipt(Ok(answer), "AH-1").unwrap();
    assert_eq!(named.transaction_id, "AH-1");
    assert_eq!(named.store_id, 1008);
    assert_eq!(named.receipt_ui_items.len(), 1);
    assert_eq!(named.identifier(), "AH-1");
    let presented = c.receipt(Ok(named)).unwrap();
    assert_eq!(presented.id, "AH-1");
    assert_eq!(presented.created_at, Timestamp::from_secs(77));
    assert!(presented.products.is_empty());
    assert_eq!(presented.identifier(), "AH-1");
    let failed = c.internal.received_receipt(Err(ClientError::TextError("Not Found".to_string())), "AH-1");
    assert!(matches!(failed, Err(ClientError::TextError(t)) if t == "Not Found"));
}

fn jumbo_summary(id: &str, at: i64) -> supermarket::jumbo::receipt::ReceiptSummary {
    supermarket::jumbo::receipt::ReceiptSummary {
        point_balance: 12,
        purchase_end_on: Timestamp::from_secs(at),
        receipt_source: "POS".to_string(),
        store: supermarket::jumbo::receipt::ReceiptStore { id: 3001, name: "Jumbo Foodmarkt".to_string() },
        transaction_id: id.to_string(),
    }
}

#[test]
fn jumbo_receipts_are_presented_in_order() {
    let c = JumboClient::new();
    let presented = c.receipts(Ok(vec![jumbo_summary("x", 5), jumbo_summary("y", 4)])).unwrap();
    let seen: Vec<(&str, Timestamp)> = presented.iter().map(|s| (s.id.as_str(), s.created_at)).collect();
    assert_eq!(seen, vec![("x", Timestamp::from_secs(5)), ("y", Timestamp::from_secs(4))]);
    let failed = c.receipts(Err(ClientError::TextError("Unauthorized".to_string())));
    assert!(matches!(failed, Err(ClientError::TextError(t)) if t == "Unauthorized"));
}

#[test]
fn jumbo_receipt_is_presented_by_its_id_and_the_end_of_the_purchase() {
    let c = JumboClient::new();
    let answer = supermarket::jumbo::receipt::Receipt {
        customer_details: supermarket::jumbo::receipt::ReceiptCustomer {
            customer_id: "c-1".to_string(),
            loyalty_card: supermarket::jumbo::receipt::LoyaltyCard { number: "2620".to_string() },
        },
        id: "receipt-1".to_string(),
        purchase_end_on: Timestamp::from_secs(200),
        purchase_start_on: Timestamp::from_secs(100),
        receipt_source: "POS".to_string(),
        receipt_image: supermarket::jumbo::receipt::ReceiptImage::Json {
            image: supermarket::jumbo::receipt::ReceiptDocuments { documents: vec![] },
            receipt_points: supermarket::jumbo::receipt::ReceiptPoints {
                earned: 1,
                new_balance: 3,
                old_balance: 2,
                redeemed: None,
            },
        },
        store: supermarket::jumbo::receipt::ReceiptStore { id: 3001, name: "Jumbo".to_string() },
        transaction_id: "tx-1".to_string(),
    };
    assert_eq!(answer.identifier(), "receipt-1");
    assert_eq!(answer.store.identifier(), "3001");
    assert_eq!(answer.customer_details.identifier(), "c-1");
    assert_eq!(answer.customer_details.loyalty_card.identifier(), "2620");
    let presented = c.receipt(Ok(answer)).unwrap();
    assert_eq!(presented.id, "receipt-1");
    assert_eq!(presented.created_at, Timestamp::from_secs(200));
    assert!(presented.products.is_empty());
    assert_eq!(jumbo_summary("tx-2", 1).identifier(), "tx-2");
}

#[test]
fn categories_are_found_again_by_their_id() {
    let ah = supermarket::albert_heijn::product::ProductCategory {
        id: 6401,
        images: vec![],
        name: "Groente".to_string(),
        nix18: false,
        slugified_name: "groente".to_string(),
    };
    assert_eq!(ah.identifier(), "6401");
    let jumbo = supermarket::jumbo::product::ProductCategory {
        background_image_url: None,
        cat_id: "c".to_string(),
        cat_path: "p".to_string(),
        foreground_image_url: "f".to_string(),
        id: "SG1".to_string(),
        sub_categories_count: 3,
        thematic_aisle: false,
        title: "Fruit".to_string(),
    };
    assert_eq!(jumbo.identifier(), "SG1");
}

#[test]
fn an_expired_token_is_told_from_other_refusals() {
    let expired = ErrorResponse { error: "invalid_token".to_string(), error_description: "Access token expired".to_string() };
    assert!(expired.is_token_expired());
    let other = ErrorResponse { error: "invalid_token".to_string(), error_description: "Access token revoked".to_string() };
    assert!(!other.is_token_expired());
    let other = ErrorResponse { error: "invalid_grant".to_string(), error_description: "Access token expired".to_string() };
    assert!(!other.is_token_expired());
}

#[test]
fn status_classes_are_told_apart() {
    assert!(status_is_success(200) && status_is_success(299));
    assert!(!status_is_success(199) && !status_is_success(300));
    assert!(status_is_server_error(500) && status_is_server_error(599));
    assert!(!status_is_server_error(499) && !status_is_server_error(600));
}
