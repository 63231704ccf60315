use base64::Engine;
use ccrs::exchange_client::common::{Common, PlaceOrderRequest, Response, SubscribeTradeRequest};
use ccrs::exchanges::binance_spot::common::{BinanceSpotClient, BinanceSpotCredential};
use ccrs::exchanges::binance_usds_margined_futures::common::{
    BinanceUsdsMarginedFuturesClient, BinanceUsdsMarginedFuturesCredential,
};
use ccrs::json::{JsonNumber, JsonValue};
use ccrs::networking::http::{HttpMethod, HttpRequest, HttpResponse};
use ccrs::networking::websocket::WebSocketText;
use ccrs::types::{OrderSide, OrderStatus, OrderType, PositionSide, TakerSide};

fn s(v: &str) -> JsonValue {
    JsonValue::Str(v.to_string())
}

fn integer(v: i64) -> JsonValue {
    JsonValue::Number(JsonNumber {
        text: v.to_string(),
        as_u64: if v >= 0 { Some(v as u64) } else { None },
        as_i64: Some(v),
        float_text: Some(v.to_string()),
    })
}

fn obj(members: Vec<(&str, JsonValue)>) -> JsonValue {
    JsonValue::Object(members.into_iter().map(|(k, v)| (k.to_string(), v)).collect())
}

fn message(json: JsonValue) -> WebSocketText {
    WebSocketText::from_text("wss://example.test".to_string(), json.to_text(), Some(json))
}

fn secret() -> Vec<u8> {
    vec![7u8; 32]
}

fn verifies(message: &str, signature_b64: &str) -> bool {
    let key = ed25519_dalek::SigningKey::from_bytes(&[7u8; 32]);
    let bytes = base64::engine::general_purpose::STANDARD.decode(signature_b64).unwrap();
    let array: [u8; 64] = bytes.try_into().unwrap();
    let signature = ed25519_dalek::Signature::from_bytes(&array);
    ed25519_dalek::Verifier::verify(&key.verifying_key(), message.as_bytes(), &signature).is_ok()
}

fn spot_with_credential() -> BinanceSpotClient {
    BinanceSpotClient::builder()
        .credential(Some(BinanceSpotCredential { api_key: "key-1".to_string(), secret_key: secret() }))
        .build()
}

fn futures_with_credential() -> BinanceUsdsMarginedFuturesClient {
    BinanceUsdsMarginedFuturesClient::builder()
        .credential(Some(BinanceUsdsMarginedFuturesCredential { api_key: "key-1".to_string(), secret_key: secret() }))
        .build()
}

#[test]
fn binance_spot_builder_defaults() {
    let client = BinanceSpotClient::builder().build();
    assert_eq!(client.rest_api_base_url, "https://api.binance.com");
    assert_eq!(client.websocket_market_data_api_url, "wss://stream.binance.com:443/stream");
    assert_eq!(client.websocket_account_data_api_url, "wss://ws-api.binance.com/ws-api/v3");
    assert_eq!(client.recv_window, 5000);
    let client = BinanceSpotClient::builder().recv_window(10).build();
    assert_eq!(client.recv_window, 10);
}

#[test]
fn binance_spot_prefixes_client_order_ids() {
    let client = BinanceSpotClient::builder().build();
    let mut id = "42".to_string();
    client.prefix_client_order_id(&mut id);
    assert_eq!(id, "x-XHKUG2CH-42");
}

#[test]
fn binance_spot_logon_is_signed_with_ed25519() {
    let client = spot_with_credential();
    let text = client.create_authenticate_websocket_request_at(1_700_000_000_000);
    let head = "{\"id\":1700000000000,\"method\":\"session.logon\",\"params\":{\"apiKey\":\"key-1\",\"signature\":\"";
    let tail = "\",\"timestamp\":1700000000000}}";
    assert!(text.starts_with(head));
    assert!(text.ends_with(tail));
    let signature = &text[head.len()..text.len() - tail.len()];
    assert!(verifies("apiKey=key-1&timestamp=1700000000000", signature));
    assert_eq!(BinanceSpotClient::builder().build().create_authenticate_websocket_request_at(1), "");
}

#[test]
fn binance_spot_subscriptions() {
    let client = BinanceSpotClient::builder().build();
    assert_eq!(
        client.create_subscribe_order_websocket_request_at(17),
        "{\"id\":17,\"method\":\"userDataStream.subscribe\"}"
    );
    let trade = SubscribeTradeRequest { id: Some(3), symbols: vec!["BTCUSDT".to_string(), "EthUsdt".to_string()] };
    assert_eq!(
        client.create_subscribe_trade_websocket_request(&trade),
        "{\"id\":3,\"method\":\"SUBSCRIBE\",\"params\":[\"btcusdt@trade\",\"ethusdt@trade\"]}"
    );
}

#[test]
fn binance_spot_logon_and_subscription_answers() {
    let client = spot_with_credential();
    let logon = client.handle_websocket_text(message(obj(vec![
        ("id", integer(5)),
        ("status", integer(200)),
        ("result", obj(vec![("apiKey", s("key-1")), ("authorizedSince", integer(1))])),
    ])));
    assert!(matches!(logon, Some(Response::Authenticate(a)) if a.id == Some(5)));
    let subscribed = client.handle_websocket_text(message(obj(vec![
        ("id", integer(6)),
        ("status", integer(200)),
        ("result", obj(vec![("subscriptionId", integer(0))])),
    ])));
    assert!(matches!(subscribed, Some(Response::Subscribe(r)) if r.id == Some(6)));
    let market = client.handle_websocket_text(message(obj(vec![("result", JsonValue::Null), ("id", integer(1))])));
    assert!(matches!(market, Some(Response::Subscribe(r)) if r.id == Some(1)));
}

#[test]
fn binance_spot_execution_report_is_an_order() {
    let client = BinanceSpotClient::builder().build();
    let answer = client.handle_websocket_text(message(obj(vec![
        ("subscriptionId", integer(0)),
        (
            "event",
            obj(vec![
                ("e", s("executionReport")),
                ("s", s("BTCUSDT")),
                ("i", integer(123)),
                ("c", s("x-XHKUG2CH-1")),
                ("o", s("LIMIT")),
                ("S", s("BUY")),
                ("p", s("100.0")),
                ("q", s("1.0")),
                ("z", s("0.5")),
                ("X", s("PARTIALLY_FILLED")),
                ("L", s("100.0")),
                ("l", s("0.5")),
                ("Z", s("50.0")),
                ("m", JsonValue::Bool(true)),
            ]),
        ),
    ])));
    match answer {
        Some(Response::OrderSubscription(orders)) => {
            let order = &orders.data[0];
            assert_eq!(order.symbol, "BTCUSDT");
            assert_eq!(order.order_id, "123");
            assert!(order.order_type == OrderType::Limit);
            assert!(order.side == OrderSide::Buy);
            assert!(order.status == OrderStatus::PartiallyFilled);
            assert_eq!(order.fill_quote_quantity, "50.0");
            assert!(order.fill_is_maker);
        }
        _ => panic!("expected an order"),
    }
    let other = client.handle_websocket_text(message(obj(vec![(
        "event",
        obj(vec![("e", s("outboundAccountPosition"))]),
    )])));
    assert!(matches!(other, Some(Response::Unneeded(_))));
}

#[test]
fn binance_spot_trade_and_error() {
    let client = BinanceSpotClient::builder().build();
    let trade = client.handle_websocket_text(message(obj(vec![
        ("stream", s("btcusdt@trade")),
        (
            "data",
            obj(vec![
                ("s", s("BTCUSDT")),
                ("T", integer(1_700_000_000_123)),
                ("p", s("101.5")),
                ("q", s("0.2")),
                ("m", JsonValue::Bool(true)),
            ]),
        ),
    ])));
    match trade {
        Some(Response::TradeSubscription(trades)) => {
            assert_eq!(trades.data[0].price, "101.5");
            assert!(trades.data[0].side == TakerSide::Sell);
            assert_eq!(trades.data[0].timestamp.seconds, 1_700_000_000);
            assert_eq!(trades.data[0].timestamp.nanoseconds, 123_000_000);
        }
        _ => panic!("expected a trade"),
    }
    let error = client.handle_websocket_text(message(obj(vec![("code", integer(-1121)), ("msg", s("Invalid symbol."))])));
    assert!(matches!(error, Some(Response::WebSocketErrorResponse(t)) if t.error_message.as_deref() == Some("Invalid symbol.")));
}

#[test]
fn binance_futures_place_order_query() {
    let client = BinanceUsdsMarginedFuturesClient::builder().build();
    let request = PlaceOrderRequest {
        symbol: "BTCUSDT".to_string(),
        client_order_id: "abc".to_string(),
        order_type: OrderType::Limit,
        side: OrderSide::Buy,
        price: "100".to_string(),
        quantity: "2".to_string(),
        leverage: String::new(),
    };
    let http_request = client.create_place_order_http_request(&request);
    assert_eq!(http_request.path, "/fapi/v1/order");
    assert!(http_request.method == HttpMethod::Post);
    assert_eq!(
        http_request.query_string.as_deref(),
        Some("symbol=BTCUSDT&side=BUY&type=LIMIT&quantity=2&price=100&timeInForce=GTC&newClientOrderId=abc")
    );
}

#[test]
fn binance_futures_signature_verifies() {
    let client = futures_with_credential();
    let mut http_request = client.create_listen_key_refresh_http_request("lk");
    client.sign_http_request_with(&mut http_request, "1700000000000");
    let query = http_request.query_string.clone().unwrap();
    let params = "listenKey=lk&recvWindow=5000&timestamp=1700000000000";
    assert!(query.starts_with(&format!("{}&signature=", params)));
    let signature = &query[params.len() + "&signature=".len()..];
    assert!(verifies(params, signature));
    assert_eq!(http_request.headers.get("x-mbx-apikey"), Some("key-1"));
}

#[test]
fn binance_futures_listen_key_flow() {
    let client = BinanceUsdsMarginedFuturesClient::builder().build();
    let http_response = HttpResponse {
        http_request: HttpRequest::new("https://example.test", HttpMethod::Post, "/", None, None),
        status: 200,
        body: String::new(),
        json_payload: Some(obj(vec![("listenKey", s("abc"))])),
        error_code: None,
        error_message: None,
    };
    let listen_key = client.listen_key_of(&http_response).unwrap();
    assert_eq!(listen_key, "abc");
    assert_eq!(client.account_data_url(&listen_key), "wss://fstream.binance.com/private/ws/abc");
    let refresh = client.create_listen_key_refresh_http_request(&listen_key);
    assert!(refresh.method == HttpMethod::Put);
    assert_eq!(refresh.query_string.as_deref(), Some("listenKey=abc"));
    assert_eq!(client.listen_key_refresh_interval_seconds(), 900);
}

#[test]
fn binance_futures_position_side_from_amount() {
    let client = BinanceUsdsMarginedFuturesClient::builder().build();
    let position = |side: &str, amount: &str| {
        client.convert_rest_json_to_position(&obj(vec![
            ("symbol", s("BTCUSDT")),
            ("positionSide", s(side)),
            ("positionAmt", s(amount)),
            ("entryPrice", s("100")),
        ]))
    };
    // In one-way mode the side is the sign of the amount read as a float: the library
    // leaves it unknown and the caller sets it, as the application layer does.
    let side_of_amount = |amount: &str| {
        let a: f64 = amount.parse().unwrap();
        if a > 0.0 {
            PositionSide::Long
        } else if a < 0.0 {
            PositionSide::Short
        } else {
            PositionSide::Unknown
        }
    };
    let short = position("BOTH", "-0.5");
    assert!(short.side == PositionSide::Unknown);
    assert!(side_of_amount("-0.5") == PositionSide::Short);
    assert_eq!(short.quantity, "0.5");
    assert!(position("BOTH", "0.000").side == PositionSide::Unknown);
    assert!(side_of_amount("0.000") == PositionSide::Unknown);
    assert!(side_of_amount("1e-400") == PositionSide::Unknown);
    assert!(side_of_amount("NaN") == PositionSide::Unknown);
    assert!(side_of_amount("inf") == PositionSide::Long);
    assert!(position("BOTH", "inf").side == PositionSide::Unknown);
    assert!(position("SHORT", "1.5").side == PositionSide::Short);
    assert!(position("LONG", "-1.5").side == PositionSide::Long);
}
