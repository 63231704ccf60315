use ccrs::exchange_client::common::Response;
use ccrs::exchanges::bitstamp::common::BitstampClient;
use ccrs::json::{JsonNumber, JsonValue};
use ccrs::networking::websocket::WebSocketText;
use ccrs::types::{ExchangeInstrumentType, OrderSide, OrderStatus};

fn s(v: &str) -> JsonValue {
    JsonValue::Str(v.to_string())
}

fn integer(v: i64) -> JsonValue {
    JsonValue::Number(JsonNumber {
        text: v.to_string(),
        as_u64: if v >= 0 { Some(v as u64) } else { None },
        as_i64: Some(v),
        float_text: Some(v.to_string()),
    })
}

fn float(text: &str) -> JsonValue {
    JsonValue::Number(JsonNumber { text: text.to_string(), as_u64: None, as_i64: None, float_text: None })
}

fn obj(members: Vec<(&str, JsonValue)>) -> JsonValue {
    JsonValue::Object(members.into_iter().map(|(k, v)| (k.to_string(), v)).collect())
}

fn set(value: &mut JsonValue, key: &str, new_value: JsonValue) {
    if let JsonValue::Object(members) = value {
        for member in members.iter_mut() {
            if member.0 == key {
                member.1 = new_value;
                return;
            }
        }
        members.push((key.to_string(), new_value));
    }
}

fn data_mut(value: &mut JsonValue) -> &mut JsonValue {
    match value {
        JsonValue::Object(members) => {
            &mut members.iter_mut().find(|m| m.0 == "data").unwrap().1
        }
        _ => panic!("not an object"),
    }
}

fn sample_order_created_json() -> JsonValue {
    obj(vec![
        ("channel", s("private-my_orders_btcusd-123456")),
        (
            "data",
            obj(vec![
                ("amount", float("0.5")),
                ("amount_at_create", s("0.50000000")),
                ("amount_str", s("0.50000000")),
                ("amount_traded", s("0.00000000")),
                ("client_order_id", s("my-order-001")),
                ("datetime", s("1712131200")),
                ("id", integer(1500000001)),
                ("id_str", s("1500000001")),
                ("is_liquidation", JsonValue::Bool(false)),
                ("microtimestamp", s("1712131200000000")),
                ("order_subtype", integer(0)),
                ("order_type", integer(0)),
                ("price", float("61200.0")),
                ("price_str", s("61200.00")),
                ("trade_account_id", integer(0)),
            ]),
        ),
        ("event", s("order_created")),
        ("event_id", s("019f4ac8-5e3a-11ef-af00-3e9012000020")),
        ("order_source", s("orderbook")),
        ("pre_event_id", s("019f4ac8-5e39-11ef-af00-3e9012000019")),
        ("trade_account_id", integer(0)),
    ])
}

fn sample_trade_json() -> JsonValue {
    obj(vec![
        ("channel", s("private-my_trades_btcusd-123456")),
        (
            "data",
            obj(vec![
                ("amount", float("0.1")),
                ("client_order_id", s("my-order-001")),
                ("fee", s("0.00")),
                ("id", integer(296050733)),
                ("id_str", s("296050733")),
                ("is_liquidation", JsonValue::Null),
                ("microtimestamp", s("1712131200500000")),
                ("order_id", integer(1500000001)),
                ("position_id", JsonValue::Null),
                ("price", float("61200.0")),
                ("side", s("buy")),
                ("trade_account_id", integer(0)),
                ("trade_type", s("ORDERBOOK")),
                ("trade_uti", s("BSTP-20240403-296050733")),
            ]),
        ),
        ("event", s("trade")),
    ])
}

fn websocket_text_with_json(json_payload: JsonValue) -> WebSocketText {
    WebSocketText::from_text(String::new(), String::new(), Some(json_payload))
}

fn bitstamp_client() -> BitstampClient {
    BitstampClient::default()
}

fn websocket_text_with_summary_populated(client: &BitstampClient, json_payload: JsonValue) -> WebSocketText {
    let mut websocket_text = websocket_text_with_json(json_payload);
    client.populate_websocket_text_payload_summary(&mut websocket_text);
    websocket_text
}

#[test]
fn test_populate_websocket_text_payload_summary() {
    let client = bitstamp_client();
    let mut websocket_text = websocket_text_with_json(sample_order_created_json());

    client.populate_websocket_text_payload_summary(&mut websocket_text);

    assert_eq!(websocket_text.payload_summary.get("event"), Some("order_created"));
    assert_eq!(
        websocket_text.payload_summary.get("channel"),
        Some("private-my_orders_btcusd-123456")
    );
}

#[test]
fn test_populate_websocket_text_payload_summary_no_json_payload_is_noop() {
    let client = bitstamp_client();
    let mut websocket_text = WebSocketText::from_text(String::new(), String::new(), None);

    client.populate_websocket_text_payload_summary(&mut websocket_text);

    assert!(websocket_text.payload_summary.is_empty());
}

#[test]
fn test_is_websocket_text_subscription_data_true_for_order_created() {
    let client = bitstamp_client();
    let websocket_text = websocket_text_with_summary_populated(&client, sample_order_created_json());

    assert!(client.is_websocket_text_subscription_data(&websocket_text));
}

#[test]
fn test_is_websocket_text_subscription_data_false_for_non_subscription_event() {
    let client = bitstamp_client();
    let mut json_payload = sample_order_created_json();
    set(&mut json_payload, "event", s("bts:subscription_succeeded"));
    let websocket_text = websocket_text_with_summary_populated(&client, json_payload);

    assert!(!client.is_websocket_text_subscription_data(&websocket_text));
}

#[test]
fn test_is_websocket_text_order_subscription_data_true_for_order_channel() {
    let client = bitstamp_client();
    let websocket_text = websocket_text_with_summary_populated(&client, sample_order_created_json());

    assert!(client.is_websocket_text_order_subscription_data(&websocket_text));
}

#[test]
fn test_is_websocket_text_order_subscription_data_false_for_other_channel() {
    let client = bitstamp_client();
    let mut json_payload = sample_order_created_json();
    set(&mut json_payload, "channel", s("live_trades_btcusd"));
    let websocket_text = websocket_text_with_summary_populated(&client, json_payload);

    assert!(!client.is_websocket_text_order_subscription_data(&websocket_text));
}

#[test]
fn test_create_subscribe_order_websocket_subscription_data() {
    let client = bitstamp_client();
    let websocket_text = websocket_text_with_summary_populated(&client, sample_order_created_json());

    let response = client.create_subscribe_order_websocket_subscription_data(&websocket_text, amount_is_zero(&client, &websocket_text));

    match response {
        Response::OrderSubscription(order_subscription_data) => {
            assert_eq!(order_subscription_data.data.len(), 1);
            let order = &order_subscription_data.data[0];

            assert_eq!(order.exchange_instrument_type, ExchangeInstrumentType::Bitstamp);
            assert_eq!(order.symbol, "btcusd");
            assert_eq!(order.order_id, "1500000001");
            assert_eq!(order.client_order_id, "my-order-001");
            assert_eq!(order.price, "61200.0");
            assert_eq!(order.quantity, "0.5");
            assert_eq!(order.remaining_quantity, "0.5");
            assert_eq!(order.status, OrderStatus::Open);
        }
        _ => panic!("expected Response::OrderSubscription"),
    }
}

#[test]
fn test_create_subscribe_order_websocket_subscription_data_deleted_zero_amount_is_filled() {
    let client = bitstamp_client();
    let mut json_payload = sample_order_created_json();
    set(&mut json_payload, "event", s("order_deleted"));
    set(data_mut(&mut json_payload), "amount", integer(0));
    set(data_mut(&mut json_payload), "amount_str", s("0.00000000"));
    let websocket_text = websocket_text_with_summary_populated(&client, json_payload);

    let response = client.create_subscribe_order_websocket_subscription_data(&websocket_text, amount_is_zero(&client, &websocket_text));

    match response {
        Response::OrderSubscription(order_subscription_data) => {
            assert_eq!(order_subscription_data.data[0].status, OrderStatus::Filled);
        }
        _ => panic!("expected Response::OrderSubscription"),
    }
}

#[test]
fn test_create_subscribe_order_websocket_subscription_data_deleted_nonzero_amount_is_canceled() {
    let client = bitstamp_client();
    let mut json_payload = sample_order_created_json();
    set(&mut json_payload, "event", s("order_deleted"));
    let websocket_text = websocket_text_with_summary_populated(&client, json_payload);

    let response = client.create_subscribe_order_websocket_subscription_data(&websocket_text, amount_is_zero(&client, &websocket_text));

    match response {
        Response::OrderSubscription(order_subscription_data) => {
            assert_eq!(order_subscription_data.data[0].status, OrderStatus::Canceled);
        }
        _ => panic!("expected Response::OrderSubscription"),
    }
}

#[test]
fn test_populate_websocket_text_payload_summary_for_trade_event() {
    let client = bitstamp_client();
    let mut websocket_text = websocket_text_with_json(sample_trade_json());

    client.populate_websocket_text_payload_summary(&mut websocket_text);

    assert_eq!(websocket_text.payload_summary.get("event"), Some("trade"));
    assert_eq!(
        websocket_text.payload_summary.get("channel"),
        Some("private-my_trades_btcusd-123456")
    );
}

#[test]
fn test_is_websocket_text_subscription_data_true_for_trade_event() {
    let client = bitstamp_client();
    let websocket_text = websocket_text_with_summary_populated(&client, sample_trade_json());

    assert!(client.is_websocket_text_subscription_data(&websocket_text));
}

#[test]
fn test_is_websocket_text_fill_subscription_data_true_for_trade_channel() {
    let client = bitstamp_client();
    let websocket_text = websocket_text_with_summary_populated(&client, sample_trade_json());

    assert!(client.is_websocket_text_fill_subscription_data(&websocket_text));
}

#[test]
fn test_is_websocket_text_fill_subscription_data_false_for_order_channel() {
    let client = bitstamp_client();
    let mut json_payload = sample_trade_json();
    set(&mut json_payload, "channel", s("private-my_orders_btcusd-123456"));
    let websocket_text = websocket_text_with_summary_populated(&client, json_payload);

    assert!(!client.is_websocket_text_fill_subscription_data(&websocket_text));
}

#[test]
fn test_create_subscribe_fill_websocket_subscription_data() {
    let client = bitstamp_client();
    let websocket_text = websocket_text_with_summary_populated(&client, sample_trade_json());

    let response = client.create_subscribe_fill_websocket_subscription_data(&websocket_text);

    match response {
        Response::FillSubscription(fill_subscription_data) => {
            assert_eq!(fill_subscription_data.data.len(), 1);
            let fill = &fill_subscription_data.data[0];
            assert_eq!(fill.exchange_instrument_type, ExchangeInstrumentType::Bitstamp);
            assert_eq!(fill.symbol, "btcusd");
            assert_eq!(fill.order_id, "1500000001");
            assert_eq!(fill.client_order_id, "my-order-001");
            assert_eq!(fill.price, "61200.0");
            assert_eq!(fill.quantity, "0.1");
            assert!(!fill.is_maker);
            assert_eq!(fill.side, OrderSide::Unknown);
            // The quote quantity is a float product: the library leaves it empty and the
            // application layer fills in price times quantity.
            assert_eq!(fill.quote_quantity, "");
            let price: f64 = fill.price.parse().unwrap();
            let quantity: f64 = fill.quantity.parse().unwrap();
            assert_eq!((price * quantity).to_string(), "6120");
        }
        _ => panic!("expected Response::FillSubscription"),
    }
}

/// What the original reads as "nothing left": the amount parsed as a float equals zero.
fn amount_is_zero(client: &BitstampClient, websocket_text: &WebSocketText) -> bool {
    client.order_amount_text(websocket_text).parse::<f64>().map_or(false, |a| a == 0.0)
}

#[test]
fn bitstamp_deleted_order_with_underflowing_amount_is_filled() {
    let client = bitstamp_client();
    let mut json_payload = sample_order_created_json();
    set(&mut json_payload, "event", s("order_deleted"));
    set(data_mut(&mut json_payload), "amount", s("1e-400"));
    let websocket_text = websocket_text_with_summary_populated(&client, json_payload);
    assert!(amount_is_zero(&client, &websocket_text));
    let response = client.create_subscribe_order_websocket_subscription_data(&websocket_text, amount_is_zero(&client, &websocket_text));
    match response {
        Response::OrderSubscription(order_subscription_data) => {
            assert_eq!(order_subscription_data.data[0].status, OrderStatus::Filled);
            assert_eq!(order_subscription_data.data[0].remaining_quantity, "1e-400");
        }
        _ => panic!("expected Response::OrderSubscription"),
    }
}
