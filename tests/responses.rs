use ccgt::bot::GridTradeBot;
use ccgt::market::{server_time_reply, server_time_url, ticker_reply, ticker_url, vip_level_reply};
use ccgt::orders::{order_reply, orders_reply, ReplyError};
use ccgt::response::{decode_accounts, JsonValue};

fn s(t: &str) -> JsonValue {
    JsonValue::Str(t.to_string())
}

fn obj(members: Vec<(&str, JsonValue)>) -> JsonValue {
    JsonValue::Object(members.into_iter().map(|(k, v)| (k.to_string(), v)).collect())
}

fn account(currency: &str, balance: &str) -> JsonValue {
    obj(vec![
        ("currency", s(currency)),
        ("balance", s(balance)),
        ("locked", s("0.0")),
        ("staked", JsonValue::Null),
        ("type", s("exchange")),
        ("fiat_currency", s("twd")),
        ("fiat_balance", s("12.5")),
    ])
}

fn order(id: i64, market: &str) -> JsonValue {
    obj(vec![
        ("id", JsonValue::Int(id)),
        ("side", s("buy")),
        ("ord_type", s("limit")),
        ("price", s("1.0")),
        ("state", s("wait")),
        ("market", s(market)),
        ("volume", s("100000.0")),
        ("remaining_volume", s("100000.0")),
        ("client_oid", JsonValue::Null),
    ])
}

#[test]
fn sync_accounts_replaces_cache_in_response_order() {
    let mut bot = GridTradeBot::new("k".to_string(), "s".to_string());
    let reply = JsonValue::Array(vec![account("twd", "100"), account("doge", "2.5"), account("btc", "0")]);
    let warnings = bot.sync_accounts(&reply).unwrap();
    assert!(warnings.is_empty());
    let cached = bot.accounts();
    assert_eq!(cached.len(), 3);
    assert_eq!(cached[0].currency, "twd");
    assert_eq!(cached[1].currency, "doge");
    assert_eq!(cached[1].balance, "2.5");
    assert_eq!(cached[2].currency, "btc");
    assert_eq!(cached[0].staked, "");
    assert_eq!(cached[0].kind, "exchange");
    assert_eq!(cached[0].fiat_balance, "12.5");

    let second = JsonValue::Array(vec![account("eth", "1")]);
    bot.sync_accounts(&second).unwrap();
    assert_eq!(bot.accounts().len(), 1);
    assert_eq!(bot.accounts()[0].currency, "eth");
}

#[test]
fn sync_accounts_skips_one_malformed_element() {
    let mut bot = GridTradeBot::new("k".to_string(), "s".to_string());
    let malformed = obj(vec![("currency", s("usdt")), ("balance", JsonValue::Bool(true)), ("locked", s("0"))]);
    let reply = JsonValue::Array(vec![account("twd", "100"), malformed, account("doge", "3")]);
    let warnings = bot.sync_accounts(&reply).unwrap();
    assert_eq!(warnings, vec![1]);
    let cached = bot.accounts();
    assert_eq!(cached.len(), 2);
    assert_eq!(cached[0].currency, "twd");
    assert_eq!(cached[1].currency, "doge");
}

#[test]
fn sync_accounts_error_reply_keeps_cache() {
    let mut bot = GridTradeBot::new("k".to_string(), "s".to_string());
    bot.sync_accounts(&JsonValue::Array(vec![account("twd", "1")])).unwrap();
    let err = obj(vec![("error", obj(vec![("code", JsonValue::Int(2006)), ("message", s("The nonce has already been used"))]))]);
    match bot.sync_accounts(&err) {
        Err(ReplyError::Api(e)) => {
            assert_eq!(e.code, Some("2006".to_string()));
            assert_eq!(e.message, "The nonce has already been used");
        }
        other => panic!("unexpected {:?}", other),
    }
    assert!(matches!(bot.sync_accounts(&s("oops")), Err(ReplyError::Decode)));
    assert_eq!(bot.accounts().len(), 1);
    assert_eq!(bot.accounts()[0].currency, "twd");
}

#[test]
fn sync_accounts_empty_array_empties_cache() {
    let mut bot = GridTradeBot::new("k".to_string(), "s".to_string());
    bot.sync_accounts(&JsonValue::Array(vec![account("twd", "1")])).unwrap();
    bot.sync_accounts(&JsonValue::Array(Vec::new())).unwrap();
    assert!(bot.accounts().is_empty());
}

#[test]
fn decode_accounts_reports_every_malformed_position() {
    let items = vec![s("x"), account("twd", "1"), JsonValue::Null, obj(vec![("currency", s("a"))])];
    let (accounts, warnings) = decode_accounts(&items);
    assert_eq!(accounts.len(), 1);
    assert_eq!(warnings, vec![0, 2, 3]);
}

#[test]
fn submit_rejected_with_insufficient_balance() {
    let reply = obj(vec![("error", obj(vec![("message", s("insufficient balance"))]))]);
    match order_reply(&reply) {
        Err(ReplyError::Api(e)) => {
            assert_eq!(e.message, "insufficient balance");
            assert_eq!(e.code, None);
        }
        other => panic!("expected an API error, got {:?}", other),
    }
}

#[test]
fn order_reply_decodes_the_order() {
    let o = order_reply(&order(543210, "dogetwd")).unwrap();
    assert_eq!(o.id, "543210");
    assert_eq!(o.market, "dogetwd");
    assert_eq!(o.price, Some("1.0".to_string()));
    assert_eq!(o.client_oid, None);
    assert!(matches!(order_reply(&obj(vec![("id", JsonValue::Int(1))])), Err(ReplyError::Decode)));
    let null_error = obj(vec![("error", JsonValue::Null), ("id", JsonValue::Int(-3)), ("market", s("m")), ("side", s("sell")), ("volume", s("1"))]);
    assert_eq!(order_reply(&null_error).unwrap().id, "-3");
}

#[test]
fn orders_reply_keeps_server_order() {
    let reply = JsonValue::Array(vec![order(3, "dogetwd"), JsonValue::Bool(false), order(1, "btctwd")]);
    let (orders, warnings) = orders_reply(&reply).unwrap();
    assert_eq!(orders.len(), 2);
    assert_eq!(orders[0].id, "3");
    assert_eq!(orders[1].market, "btctwd");
    assert_eq!(warnings, vec![1]);
    assert!(matches!(orders_reply(&obj(vec![])), Err(ReplyError::Decode)));
    let err = obj(vec![("error", s("bad"))]);
    match orders_reply(&err) {
        Err(ReplyError::Api(e)) => assert_eq!(e.message, "bad"),
        other => panic!("unexpected {:?}", other),
    }
}

#[test]
fn server_time_decodes_i32_integers() {
    assert_eq!(server_time_reply(&JsonValue::Int(1_700_000_000)), Some(1_700_000_000));
    assert_eq!(server_time_reply(&JsonValue::Int(3_000_000_000)), None);
    assert_eq!(server_time_reply(&s("1")), None);
    assert_eq!(server_time_url(), "https://max-api.maicoin.com/api/v2/timestamp");
}

#[test]
fn ticker_decodes_prices() {
    let reply = obj(vec![
        ("at", JsonValue::Int(1_700_000_000)),
        ("buy", s("1.91")),
        ("sell", s("1.93")),
        ("last", s("1.92")),
        ("vol", JsonValue::Number("12345.5".to_string())),
    ]);
    let t = ticker_reply(&reply).unwrap();
    assert_eq!(t.at, "1700000000");
    assert_eq!(t.last, "1.92");
    assert_eq!(t.buy, Some("1.91".to_string()));
    assert_eq!(t.open, None);
    assert_eq!(t.vol, Some("12345.5".to_string()));
    assert!(matches!(ticker_reply(&JsonValue::Array(vec![])), Err(ReplyError::Decode)));
    assert!(matches!(ticker_reply(&obj(vec![])), Err(ReplyError::Decode)));
    let no_last = obj(vec![("at", JsonValue::Int(1)), ("last", JsonValue::Null)]);
    assert!(matches!(ticker_reply(&no_last), Err(ReplyError::Decode)));
    assert_eq!(ticker_url("dogetwd"), "https://max-api.maicoin.com/api/v2/tickers/dogetwd");
}

#[test]
fn vip_level_reads_current_fees() {
    let reply = obj(vec![
        (
            "current_vip_level",
            obj(vec![
                ("level", JsonValue::Int(0)),
                ("maker_fee", JsonValue::Number("0.00045".to_string())),
                ("taker_fee", JsonValue::Number("0.0015".to_string())),
            ]),
        ),
        ("next_vip_level", JsonValue::Null),
    ]);
    let v = vip_level_reply(&reply).unwrap();
    assert_eq!(v.level, Some("0".to_string()));
    assert_eq!(v.maker_fee, "0.00045");
    assert_eq!(v.taker_fee, "0.0015");
    assert!(matches!(vip_level_reply(&obj(vec![])), Err(ReplyError::Decode)));
}
