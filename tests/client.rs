use ccgt::amount::Amount;
use ccgt::bot::GridTradeBot;
use ccgt::codec::FieldValue;
use ccgt::nonce::ClockError;
use ccgt::request::{signed_request, CancelTarget, Method, OrderQuery, OrderSpec, RequestPayload, Side};

fn dogetwd_order() -> OrderSpec {
    OrderSpec {
        market: "dogetwd".to_string(),
        side: Side::Buy,
        volume: Amount::new(1_000_000, 1).unwrap(),
        price: Amount::whole(1),
        client_oid: None,
        stop_price: None,
        ord_type: "limit".to_string(),
        group_id: None,
    }
}

fn query_of(url: &str) -> String {
    url.split_once('?').unwrap().1.to_string()
}

#[test]
fn submit_order_builds_signed_request() {
    let mut bot = GridTradeBot::new("test-access".to_string(), "test-secret".to_string());
    assert_eq!(bot.last_nonce(), None);
    let req = bot.submit_order(1_700_000_000_000, dogetwd_order()).unwrap();
    assert_eq!(req.method, Method::Post);
    assert_eq!(
        req.url,
        "https://max-api.maicoin.com/api/v2/orders?nonce=1700000000000&market=dogetwd&side=buy\
         &volume=100000.0&price=1&ord_type=limit&path=/api/v2/orders"
    );
    assert_eq!(req.access_key, "test-access");
    assert_eq!(
        req.payload,
        "eyJub25jZSI6IjE3MDAwMDAwMDAwMDAiLCJtYXJrZXQiOiJkb2dldHdkIiwic2lkZSI6ImJ1eSIsInZvbHVtZSI6IjEwMDAwMC4wIiwicHJpY2UiOiIxIiwib3JkX3R5cGUiOiJsaW1pdCIsInBhdGgiOiIvYXBpL3YyL29yZGVycyJ9"
    );
    assert_eq!(req.signature, "c09256cfd26fc7b4fec7309444d7beefd0d45dcca17a60e3cba8d7e79d722557");
    assert_eq!(req.headers()[2].1.len(), 64);
    assert_eq!(bot.last_nonce(), Some(1_700_000_000_000));
}

#[test]
fn submit_order_includes_present_optional_fields() {
    let mut bot = GridTradeBot::new("k".to_string(), "s".to_string());
    let mut order = dogetwd_order();
    order.side = Side::Sell;
    order.client_oid = Some("oid-1".to_string());
    order.stop_price = Some(Amount::new(95, 2).unwrap());
    order.group_id = Some(7);
    let req = bot.submit_order(10, order).unwrap();
    assert_eq!(
        query_of(&req.url),
        "nonce=10&market=dogetwd&side=sell&volume=100000.0&price=1&client_oid=oid-1\
         &stop_price=0.95&ord_type=limit&group_id=7&path=/api/v2/orders"
    );
}

#[test]
fn accounts_request_matches_known_signature() {
    let mut bot = GridTradeBot::new("test-access".to_string(), "test-secret".to_string());
    let req = bot.accounts_request(5).unwrap();
    assert_eq!(req.method, Method::Get);
    assert_eq!(req.url, "https://max-api.maicoin.com/api/v2/members/accounts?nonce=5&path=/api/v2/members/accounts");
    assert_eq!(req.payload, "eyJub25jZSI6IjUiLCJwYXRoIjoiL2FwaS92Mi9tZW1iZXJzL2FjY291bnRzIn0=");
    assert_eq!(req.signature, "b74cb8d694a425c73edda0cb54acee0ef5ba45e0e18ea19684f1ece45c6e875c");
}

#[test]
fn back_to_back_requests_carry_increasing_nonces() {
    let mut bot = GridTradeBot::new("k".to_string(), "s".to_string());
    let first = bot.accounts_request(1_700_000_000_000).unwrap();
    let second = bot.get_vip_level(1_700_000_000_000).unwrap();
    assert!(query_of(&first.url).starts_with("nonce=1700000000000&"));
    assert!(query_of(&second.url).starts_with("nonce=1700000000001&"));
    assert_ne!(first.payload, second.payload);
    assert_ne!(first.signature, second.signature);
    assert_eq!(bot.last_nonce(), Some(1_700_000_000_001));
}

#[test]
fn delete_order_lists_id_then_client_oid() {
    let mut bot = GridTradeBot::new("k".to_string(), "s".to_string());
    let target = CancelTarget { id: Some(543210), client_oid: Some("max_rs_api_case_create_order".to_string()) };
    let req = bot.delete_order(3, target).unwrap();
    assert_eq!(req.method, Method::Post);
    assert_eq!(
        req.url,
        "https://max-api.maicoin.com/api/v2/order/delete?nonce=3&id=543210\
         &client_oid=max_rs_api_case_create_order&path=/api/v2/order/delete"
    );
    let by_id = bot.delete_order(3, CancelTarget { id: Some(9), client_oid: None }).unwrap();
    assert_eq!(query_of(&by_id.url), "nonce=4&id=9&path=/api/v2/order/delete");
}

#[test]
fn get_orders_lists_filters_in_declared_order() {
    let mut bot = GridTradeBot::new("k".to_string(), "s".to_string());
    let q = OrderQuery {
        market: "dogetwd".to_string(),
        state: "wait".to_string(),
        order_by: Some("asc".to_string()),
        group_id: None,
        pagination: Some(true),
        page: Some(1),
        limit: Some(100),
        offset: Some(0),
    };
    let req = bot.get_orders(8, q).unwrap();
    assert_eq!(req.method, Method::Get);
    assert_eq!(
        query_of(&req.url),
        "nonce=8&market=dogetwd&state=wait&order_by=asc&pagination=true&page=1&limit=100&offset=0&path=/api/v2/orders"
    );
}

#[test]
fn exhausted_nonce_source_refuses_to_sign() {
    let mut bot = GridTradeBot::new("k".to_string(), "s".to_string());
    let _ = bot.accounts_request(u128::MAX).unwrap();
    assert_eq!(bot.accounts_request(0).unwrap_err(), ClockError::Exhausted);
    assert_eq!(bot.last_nonce(), Some(u128::MAX));
}

#[test]
fn signed_request_headers_in_order() {
    let req = signed_request("ak", "sk", Method::Get, "/api/v2/x", "nonce=1", "cGF5bG9hZA==");
    assert_eq!(req.url, "https://max-api.maicoin.com/api/v2/x?nonce=1");
    let hs = req.headers();
    assert_eq!(hs.len(), 4);
    assert_eq!(hs[0], ("X-MAX-ACCESSKEY".to_string(), "ak".to_string()));
    assert_eq!(hs[1], ("X-MAX-PAYLOAD".to_string(), "cGF5bG9hZA==".to_string()));
    assert_eq!(hs[2].0, "X-MAX-SIGNATURE");
    assert_eq!(hs[2].1, ccgt::signer::sign(b"sk", b"cGF5bG9hZA=="));
    assert_eq!(hs[3], ("Content-Type".to_string(), "application/json".to_string()));
}

#[test]
fn build_auth_client_signs_the_payload_with_the_secret() {
    let bot = GridTradeBot::new("test-access".to_string(), "test-secret".to_string());
    let req = bot.build_auth_client(
        Method::Get,
        "/api/v2/members/accounts",
        "nonce=5&path=/api/v2/members/accounts",
        "eyJub25jZSI6IjUiLCJwYXRoIjoiL2FwaS92Mi9tZW1iZXJzL2FjY291bnRzIn0=",
    );
    assert_eq!(req.signature, "b74cb8d694a425c73edda0cb54acee0ef5ba45e0e18ea19684f1ece45c6e875c");
}

#[test]
fn option_to_string_renders_absent_as_empty() {
    let bot = GridTradeBot::new("k".to_string(), "s".to_string());
    assert_eq!(bot.option_to_string(&None), "");
    assert_eq!(bot.option_to_string(&Some(FieldValue::Count(12))), "12");
    assert_eq!(bot.option_to_string(&Some(FieldValue::Text("asc".to_string()))), "asc");
}

#[test]
fn payload_paths_and_methods() {
    assert_eq!(RequestPayload::VipLevel.api_path(), "/api/v2/members/vip_level");
    assert_eq!(RequestPayload::Accounts.method(), Method::Get);
    let fields = RequestPayload::Accounts.fields(42);
    assert_eq!(fields.len(), 2);
    assert_eq!(fields[0].key, "nonce");
    assert_eq!(fields[1].key, "path");
}
