use ccrs::exchange_client::common::Response;
use ccrs::exchanges::bitget::common::BitgetClient;
use ccrs::exchanges::bitstamp::common::BitstampClient;
use ccrs::exchanges::bybit::common::BybitClient;
use ccrs::exchanges::coinbase::common::CoinbaseClient;
use ccrs::exchanges::gateio_perpetual_futures::common::GateioPerpetualFuturesClient;
use ccrs::json::{JsonNumber, JsonValue};
use ccrs::networking::websocket::WebSocketText;

fn s(v: &str) -> JsonValue {
    JsonValue::Str(v.to_string())
}

fn integer(v: i64) -> JsonValue {
    JsonValue::Number(JsonNumber {
        text: v.to_string(),
        as_u64: if v >= 0 { Some(v as u64) } else { None },
        as_i64: Some(v),
        float_text: Some(v.to_string()),
    })
}

fn obj(members: Vec<(&str, JsonValue)>) -> JsonValue {
    JsonValue::Object(members.into_iter().map(|(k, v)| (k.to_string(), v)).collect())
}

fn message(json: JsonValue) -> WebSocketText {
    WebSocketText::from_text("wss://example.test".to_string(), json.to_text(), Some(json))
}

#[test]
fn bitstamp_heartbeat_and_subscription_answers() {
    let client = BitstampClient::default();
    let heartbeat = client.handle_websocket_text(message(obj(vec![("event", s("bts:heartbeat"))])), false);
    assert!(matches!(heartbeat, Some(Response::Heartbeat(h)) if h.id.is_none()));
    let subscribed = client.handle_websocket_text(message(obj(vec![
        ("event", s("bts:subscription_succeeded")),
        ("channel", s("live_trades_btcusd")),
    ])), false);
    match subscribed {
        Some(Response::Subscribe(r)) => assert_eq!(r.symbols, vec!["btcusd".to_string()]),
        _ => panic!("expected a subscribe response"),
    }
}

#[test]
fn bitstamp_error_event_carries_message() {
    let client = BitstampClient::default();
    let answer = client.handle_websocket_text(message(obj(vec![
        ("event", s("bts:error")),
        ("data", obj(vec![("message", s("Incorrect JSON format."))])),
    ])), false);
    match answer {
        Some(Response::WebSocketErrorResponse(t)) => {
            assert_eq!(t.error_message.as_deref(), Some("Incorrect JSON format."));
            assert_eq!(t.payload_summary.get("event"), Some("bts:error"));
        }
        _ => panic!("expected an error response"),
    }
}

#[test]
fn bitstamp_data_of_unknown_channel_is_refused() {
    let client = BitstampClient::default();
    let answer = client.handle_websocket_text(message(obj(vec![("event", s("data")), ("channel", s("other_btcusd"))])), false);
    assert!(answer.is_none());
}

#[test]
fn bitstamp_book_update() {
    let client = BitstampClient::default();
    let level = |p: &str, q: &str| JsonValue::Array(vec![s(p), s(q)]);
    let answer = client.handle_websocket_text(message(obj(vec![
        ("event", s("data")),
        ("channel", s("order_book_btcusd")),
        (
            "data",
            obj(vec![
                ("timestamp", s("1700000000")),
                ("bids", JsonValue::Array(vec![level("100.5", "2")])),
                ("asks", JsonValue::Array(vec![level("101", "3")])),
            ]),
        ),
    ])), false);
    match answer {
        Some(Response::TopOfBookSubscription(d)) => {
            assert_eq!(d.data.len(), 1);
            assert_eq!(d.data[0].symbol, "btcusd");
            assert_eq!(d.data[0].bid_price, "100.5");
            assert_eq!(d.data[0].ask_size, "3");
        }
        _ => panic!("expected a book update"),
    }
}

#[test]
fn bitget_pong_is_a_heartbeat() {
    let client = BitgetClient::builder().build();
    let text = WebSocketText::from_text(String::new(), "pong".to_string(), None);
    assert!(matches!(client.handle_websocket_text(text), Some(Response::Heartbeat(_))));
}

#[test]
fn bitget_error_event() {
    let client = BitgetClient::builder().build();
    let answer = client.handle_websocket_text(message(obj(vec![
        ("event", s("error")),
        ("code", integer(30001)),
        ("msg", s("channel does not exist")),
    ])));
    match answer {
        Some(Response::WebSocketErrorResponse(t)) => {
            assert_eq!(t.error_code.as_deref(), Some("30001"));
            assert_eq!(t.error_message.as_deref(), Some("channel does not exist"));
        }
        _ => panic!("expected an error response"),
    }
}

#[test]
fn bybit_pong_carries_its_id() {
    let client = BybitClient::builder().build();
    let answer = client.handle_websocket_text(message(obj(vec![
        ("success", JsonValue::Bool(true)),
        ("op", s("pong")),
        ("req_id", s("17")),
    ])));
    match answer {
        Some(Response::Heartbeat(h)) => assert_eq!(h.id, Some(17)),
        _ => panic!("expected a heartbeat"),
    }
}

#[test]
fn bybit_success_without_operation_is_refused() {
    let client = BybitClient::builder().build();
    let answer = client.handle_websocket_text(message(obj(vec![("success", JsonValue::Bool(true))])));
    assert!(answer.is_none());
}

#[test]
fn bybit_failure_is_an_error() {
    let client = BybitClient::builder().build();
    let answer = client.handle_websocket_text(message(obj(vec![
        ("success", JsonValue::Bool(false)),
        ("op", s("subscribe")),
        ("ret_msg", s("error:handler not found")),
    ])));
    match answer {
        Some(Response::WebSocketErrorResponse(t)) => {
            assert_eq!(t.error_message.as_deref(), Some("error:handler not found"));
        }
        _ => panic!("expected an error response"),
    }
}

#[test]
fn coinbase_subscriptions_and_errors() {
    let client = CoinbaseClient::builder().build();
    let subscribed = client.handle_websocket_text(message(obj(vec![("type", s("subscriptions"))])));
    assert!(matches!(subscribed, Some(Response::Subscribe(_))));
    let error = client.handle_websocket_text(message(obj(vec![
        ("type", s("error")),
        ("message", s("Failed to subscribe")),
        ("reason", s("BTC-XYZ is not a valid product")),
    ])));
    match error {
        Some(Response::WebSocketErrorResponse(t)) => {
            assert_eq!(t.error_message.as_deref(), Some("Failed to subscribe"));
            assert_eq!(t.error_code.as_deref(), Some("BTC-XYZ is not a valid product"));
        }
        _ => panic!("expected an error response"),
    }
}

#[test]
fn coinbase_ticker_is_a_book_update() {
    let client = CoinbaseClient::builder().build();
    let answer = client.handle_websocket_text(message(obj(vec![
        ("type", s("ticker")),
        ("product_id", s("BTC-USD")),
        ("best_bid", s("100")),
        ("best_bid_size", s("1")),
        ("best_ask", s("101")),
        ("best_ask_size", s("2")),
        ("time", s("2024-01-01T00:00:00.000000Z")),
    ])));
    match answer {
        Some(Response::TopOfBookSubscription(d)) => {
            assert_eq!(d.data[0].symbol, "BTC-USD");
            assert_eq!(d.data[0].ask_price, "101");
            assert_eq!(d.data[0].timestamp.seconds, 1_704_067_200);
        }
        _ => panic!("expected a book update"),
    }
}

#[test]
fn gate_pong_carries_its_id() {
    let client = GateioPerpetualFuturesClient::builder().build();
    let answer = client.handle_websocket_text(message(obj(vec![
        ("channel", s("futures.pong")),
        ("event", s("")),
        ("id", integer(3)),
    ])));
    match answer {
        Some(Response::Heartbeat(h)) => assert_eq!(h.id, Some(3)),
        _ => panic!("expected a heartbeat"),
    }
}

#[test]
fn gate_update_of_unknown_channel_is_refused() {
    let client = GateioPerpetualFuturesClient::builder().build();
    let answer = client.handle_websocket_text(message(obj(vec![
        ("channel", s("futures.candlesticks")),
        ("event", s("update")),
    ])));
    assert!(answer.is_none());
}
