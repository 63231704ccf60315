use ccrs::exchange_client::common::{next_client_order_id_state, Common};
use ccrs::exchanges::bitstamp::common::BitstampClient;
use ccrs::exchanges::gateio_perpetual_futures::common::GateioPerpetualFuturesClient;
use ccrs::json::{str_object, JsonNumber, JsonValue};
use ccrs::text::{decimal_unit_text, decimal_zero_text, i64_to_string, parse_i64, parse_u64, u64_to_string};

#[test]
fn first_id_of_a_second_has_sequence_zero() {
    let client = BitstampClient::default();
    let (state, id) = client.generate_next_client_order_id_from(0, 1_700_000_000);
    assert_eq!(id, "1700000000000");
    assert_eq!(state, (1_700_000_000u64 << 32) | 0);
}

#[test]
fn ids_count_up_within_a_second() {
    let client = BitstampClient::default();
    let (state, first) = client.generate_next_client_order_id_from(0, 1_700_000_000);
    let (state, second) = client.generate_next_client_order_id_from(state, 1_700_000_000);
    let (_, third) = client.generate_next_client_order_id_from(state, 1_700_000_000);
    assert_eq!(first, "1700000000000");
    assert_eq!(second, "1700000000001");
    assert_eq!(third, "1700000000002");
}

#[test]
fn ids_start_again_at_a_new_second() {
    let client = BitstampClient::default();
    let (state, _) = client.generate_next_client_order_id_from(0, 1_700_000_000);
    let (state, _) = client.generate_next_client_order_id_from(state, 1_700_000_000);
    let (state, id) = client.generate_next_client_order_id_from(state, 1_700_000_001);
    assert_eq!(id, "1700000001000");
    assert_eq!(state >> 32, 1_700_000_001);
    assert_eq!(state & 0xffff_ffff, 0);
}

#[test]
fn sequence_keeps_more_than_three_digits() {
    let client = BitstampClient::default();
    assert_eq!(client.client_order_id_at(12, 1234), "121234");
    assert_eq!(client.client_order_id_at(12, 45), "12045");
}

#[test]
fn gate_ids_carry_their_prefix() {
    let client = GateioPerpetualFuturesClient::builder().build();
    let (_, id) = client.generate_next_client_order_id_from(0, 5);
    assert_eq!(id, "t-5000");
    let mut text = "abc".to_string();
    client.prefix_client_order_id(&mut text);
    assert_eq!(text, "t-abc");
}

#[test]
fn state_packs_seconds_and_sequence() {
    let (state, seconds, sequence) = next_client_order_id_state((7u64 << 32) | 9, 7);
    assert_eq!((seconds, sequence), (7, 10));
    assert_eq!(state, (7u64 << 32) | 10);
}

#[test]
fn integers_written_and_read_back() {
    assert_eq!(u64_to_string(0), "0");
    assert_eq!(u64_to_string(u64::MAX), "18446744073709551615");
    assert_eq!(i64_to_string(i64::MIN), "-9223372036854775808");
    assert_eq!(i64_to_string(-42), "-42");
    assert_eq!(parse_i64("-9223372036854775808"), Some(i64::MIN));
    assert_eq!(parse_i64("9223372036854775808"), None);
    assert_eq!(parse_i64("+7"), Some(7));
    assert_eq!(parse_i64("4x"), None);
    assert_eq!(parse_i64(""), None);
    assert_eq!(parse_u64("18446744073709551615"), Some(u64::MAX));
    assert_eq!(parse_u64("-1"), None);
    for n in [0i64, 1, -1, 123456789, i64::MAX, i64::MIN] {
        assert_eq!(parse_i64(&i64_to_string(n)), Some(n));
    }
}

#[test]
fn decimal_units_and_zeros() {
    assert_eq!(decimal_unit_text(0), "1");
    assert_eq!(decimal_unit_text(3), "0.001");
    assert_eq!(decimal_zero_text(0), "0");
    assert_eq!(decimal_zero_text(2), "0.00");
}

#[test]
fn json_text_escapes_strings() {
    let value = JsonValue::Object(vec![
        ("a".to_string(), JsonValue::Str("x\"y\n".to_string())),
        (
            "n".to_string(),
            JsonValue::Number(JsonNumber { text: "-3".to_string(), as_u64: None, as_i64: Some(-3), float_text: Some("-3".to_string()) }),
        ),
        ("l".to_string(), JsonValue::Array(vec![JsonValue::Bool(true), JsonValue::Null])),
    ]);
    assert_eq!(value.to_text(), "{\"a\":\"x\\\"y\\n\",\"n\":-3,\"l\":[true,null]}");
    let pairs = vec![("k".to_string(), "v".to_string()), ("q".to_string(), "1".to_string())];
    assert_eq!(str_object(&pairs).to_text(), "{\"k\":\"v\",\"q\":\"1\"}");
}
