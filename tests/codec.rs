use ccgt::amount::Amount;
use ccgt::codec::{encode, flag_string, json_value, Field, FieldValue};
use ccgt::text::decimal_string;

fn field(key: &str, value: FieldValue) -> Field {
    Field { key: key.to_string(), value }
}

#[test]
fn encode_renders_json_and_query_in_field_order() {
    let fields = vec![
        field("nonce", FieldValue::Text("1".to_string())),
        field("market", FieldValue::Text("dogetwd".to_string())),
        field("volume", FieldValue::Decimal(Amount::new(1_000_000, 1).unwrap())),
        field("pagination", FieldValue::Flag(true)),
        field("page", FieldValue::Count(1)),
    ];
    let e = encode(&fields);
    assert_eq!(
        e.json,
        r#"{"nonce":"1","market":"dogetwd","volume":"100000.0","pagination":true,"page":1}"#
    );
    assert_eq!(e.query, "nonce=1&market=dogetwd&volume=100000.0&pagination=true&page=1");
}

#[test]
fn encode_field_counts_agree() {
    let fields = vec![
        field("b", FieldValue::Count(2)),
        field("a", FieldValue::Flag(false)),
        field("c", FieldValue::Text(String::new())),
    ];
    let e = encode(&fields);
    assert_eq!(e.json, r#"{"b":2,"a":false,"c":""}"#);
    assert_eq!(e.query, "b=2&a=false&c=");
    let json_members = e.json.trim_start_matches('{').trim_end_matches('}').split(',').count();
    let query_pairs = e.query.split('&').count();
    assert_eq!(json_members, query_pairs);
}

#[test]
fn encode_payload_is_base64_of_json() {
    let fields = vec![field("a", FieldValue::Count(1))];
    let e = encode(&fields);
    assert_eq!(e.json, r#"{"a":1}"#);
    assert_eq!(e.payload, "eyJhIjoxfQ==");
}

#[test]
fn encode_empty_field_list() {
    let e = encode(&Vec::new());
    assert_eq!(e.json, "{}");
    assert_eq!(e.query, "");
    assert_eq!(e.payload, "e30=");
}

#[test]
fn encode_escapes_json_strings() {
    let fields = vec![field("note", FieldValue::Text("say \"hi\"\\".to_string()))];
    let e = encode(&fields);
    assert_eq!(e.json, r#"{"note":"say \"hi\"\\"}"#);
    assert_eq!(e.query, "note=say \"hi\"\\");
}

#[test]
fn encode_escapes_control_characters() {
    let fields = vec![field("t", FieldValue::Text("a\nb\tc\u{1}\u{1f}/\u{7f}\u{e9}".to_string()))];
    let e = encode(&fields);
    assert_eq!(e.json, "{\"t\":\"a\\nb\\tc\\u0001\\u001f/\u{7f}\u{e9}\"}");
}

#[test]
fn json_value_renders_each_kind() {
    assert_eq!(json_value(&FieldValue::Count(42)), "42");
    assert_eq!(json_value(&FieldValue::Flag(false)), "false");
    assert_eq!(json_value(&FieldValue::Text("x".to_string())), "\"x\"");
    let a = Amount::new(-5, 2).unwrap();
    assert_eq!(json_value(&FieldValue::Decimal(a)), "\"-0.05\"");
}

#[test]
fn decimal_and_flag_text() {
    assert_eq!(decimal_string(0), "0");
    assert_eq!(decimal_string(1_700_000_000_000), "1700000000000");
    assert_eq!(decimal_string(u128::MAX), "340282366920938463463374607431768211455");
    assert_eq!(flag_string(true), "true");
}

#[test]
fn amount_bounds_and_text() {
    assert!(Amount::new(1, 28).is_some());
    assert!(Amount::new(1, 29).is_none());
    assert!(Amount::new(79228162514264337593543950335, 0).is_some());
    assert!(Amount::new(79228162514264337593543950336, 0).is_none());
    assert!(Amount::new(-79228162514264337593543950336, 0).is_none());
    assert_eq!(Amount::new(1_000_000, 1).unwrap().text(), "100000.0");
    assert_eq!(Amount::whole(1).text(), "1");
    let a = Amount::new(12345, 3).unwrap();
    assert_eq!(a.mantissa(), 12345);
    assert_eq!(a.scale(), 3);
    assert_eq!(a.text(), "12.345");
}
