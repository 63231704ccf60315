use base64::Engine;
use ccrs::exchange_client::common::{
    CancelOrderRequest, GetOpenOrderRequest, PlaceOrderRequest, Request, Response, SubscribeTopOfBookRequest,
};
use ccrs::exchanges::htx_spot::common::{HtxSpotClient, HtxSpotCredential};
use ccrs::exchanges::htx_usdt_margined_futures::common::{
    HtxUsdtMarginedFuturesClient, HtxUsdtMarginedFuturesCredential,
};
use ccrs::json::{JsonNumber, JsonValue};
use ccrs::networking::http::{HttpMethod, HttpRequest, HttpResponse};
use ccrs::networking::websocket::WebSocketText;
use ccrs::types::{OrderSide, OrderStatus, OrderType, TakerSide, Timestamp};

fn s(v: &str) -> JsonValue {
    JsonValue::Str(v.to_string())
}

fn integer(v: i64) -> JsonValue {
    JsonValue::Number(JsonNumber {
        text: v.to_string(),
        as_u64: if v >= 0 { Some(v as u64) } else { None },
        as_i64: Some(v),
        float_text: Some(v.to_string()),
    })
}

fn float(text: &str, float_text: &str) -> JsonValue {
    JsonValue::Number(JsonNumber {
        text: text.to_string(),
        as_u64: None,
        as_i64: None,
        float_text: Some(float_text.to_string()),
    })
}

fn obj(members: Vec<(&str, JsonValue)>) -> JsonValue {
    JsonValue::Object(members.into_iter().map(|(k, v)| (k.to_string(), v)).collect())
}

fn message(json: JsonValue) -> WebSocketText {
    WebSocketText::from_text("wss://example.test".to_string(), json.to_text(), Some(json))
}

fn response(json: JsonValue) -> HttpResponse {
    HttpResponse {
        http_request: HttpRequest::new("https://example.test", HttpMethod::Get, "/", None, None),
        status: 200,
        body: String::new(),
        json_payload: Some(json),
        error_code: None,
        error_message: None,
    }
}

fn now() -> Timestamp {
    Timestamp { seconds: 1_700_000_000, nanoseconds: 0 }
}

fn spot_with_credential() -> HtxSpotClient {
    HtxSpotClient::builder()
        .credential(Some(HtxSpotCredential { api_key: "key-1".to_string(), api_secret: "secret-1".to_string() }))
        .account_id("123".to_string())
        .build()
}

fn expected_signature(prehash: &str) -> String {
    let mut mac = <hmac::Hmac<sha2::Sha256> as hmac::digest::KeyInit>::new_from_slice(b"secret-1").unwrap();
    <hmac::Hmac<sha2::Sha256> as hmac::Mac>::update(&mut mac, prehash.as_bytes());
    let tag = <hmac::Hmac<sha2::Sha256> as hmac::Mac>::finalize(mac).into_bytes();
    let text = base64::engine::general_purpose::STANDARD.encode(tag);
    HtxSpotClient::percent_encode_htx(&text)
}

#[test]
fn htx_percent_encoding_and_increments() {
    assert_eq!(HtxSpotClient::percent_encode_htx("a b/c~-_."), "a%20b%2Fc~-_.");
    assert_eq!(HtxSpotClient::percent_encode_htx("é:"), "%C3%A9%3A");
    let client = HtxSpotClient::builder().build();
    assert_eq!(client.precision_to_increment_string(0), "1");
    assert_eq!(client.precision_to_increment_string(3), "0.001");
}

#[test]
fn htx_spot_signed_order_query() {
    let client = spot_with_credential();
    let request = Request::PlaceOrder(PlaceOrderRequest {
        symbol: "btcusdt".to_string(),
        client_order_id: "abc".to_string(),
        order_type: OrderType::Limit,
        side: OrderSide::Buy,
        price: "100".to_string(),
        quantity: "2".to_string(),
        leverage: String::new(),
    });
    let http_request = client.create_http_request(&request, now()).unwrap();
    assert_eq!(
        http_request.payload.as_deref(),
        Some("{\"account-id\":\"123\",\"amount\":\"2\",\"client-order-id\":\"abc\",\"price\":\"100\",\"symbol\":\"btcusdt\",\"type\":\"buy-limit\"}")
    );
    let query = http_request.query_string.unwrap();
    let unsigned = "AccessKeyId=key-1&SignatureMethod=HmacSHA256&SignatureVersion=2&Timestamp=2023-11-14T22%3A13%3A20";
    let prehash = format!("POST\napi.huobi.pro\n/v1/order/orders/place\n{}", unsigned);
    assert_eq!(query, format!("{}&Signature={}", unsigned, expected_signature(&prehash)));
}

#[test]
fn htx_spot_signed_query_is_sorted() {
    let client = spot_with_credential();
    let request = Request::GetOpenOrder(GetOpenOrderRequest {
        symbol: "btcusdt".to_string(),
        limit: 5,
        next_page_cursor: String::new(),
    });
    let http_request = client.create_http_request(&request, now()).unwrap();
    let query = http_request.query_string.unwrap();
    assert!(query.starts_with(
        "AccessKeyId=key-1&SignatureMethod=HmacSHA256&SignatureVersion=2&Timestamp=2023-11-14T22%3A13%3A20&account-id=123&size=5&symbol=btcusdt&Signature="
    ));
}

#[test]
fn htx_spot_rest_responses() {
    let client = HtxSpotClient::builder().build();
    let request = Request::GetOpenOrder(GetOpenOrderRequest {
        symbol: String::new(),
        limit: 0,
        next_page_cursor: String::new(),
    });
    let body = obj(vec![
        ("status", s("ok")),
        (
            "data",
            JsonValue::Array(vec![obj(vec![
                ("id", integer(42)),
                ("symbol", s("btcusdt")),
                ("type", s("sell-limit-maker")),
                ("state", s("partial-filled")),
                ("price", s("100")),
                ("amount", s("2")),
                ("field-cash-amount", s("50")),
            ])]),
        ),
    ]);
    match client.create_rest_response(&request, response(body)) {
        Some(Response::GetOpenOrder(orders)) => {
            let order = &orders.data[0];
            assert_eq!(order.order_id, "42");
            assert!(order.side == OrderSide::Sell);
            assert!(order.order_type == OrderType::Limit);
            assert!(order.status == OrderStatus::PartiallyFilled);
        }
        _ => panic!("expected open orders"),
    }
    let balances = obj(vec![
        ("status", s("ok")),
        (
            "data",
            obj(vec![(
                "list",
                JsonValue::Array(vec![
                    obj(vec![("currency", s("usdt")), ("type", s("trade")), ("balance", s("10"))]),
                    obj(vec![("currency", s("usdt")), ("type", s("frozen")), ("balance", s("1"))]),
                ]),
            )]),
        ),
    ]);
    let balance_request = Request::GetBalance(ccrs::exchange_client::common::GetBalanceRequest { asset: String::new() });
    match client.create_rest_response(&balance_request, response(balances)) {
        Some(Response::GetBalance(b)) => {
            assert_eq!(b.data.len(), 1);
            assert_eq!(b.data[0].quantity, "10");
        }
        _ => panic!("expected balances"),
    }
    let error = obj(vec![("status", s("error")), ("err-code", s("bad-request")), ("err-msg", s("invalid"))]);
    match client.create_rest_response(&balance_request, response(error)) {
        Some(Response::HttpErrorResponse(e)) => {
            assert_eq!(e.error_code.as_deref(), Some("bad-request"));
            assert_eq!(e.error_message.as_deref(), Some("invalid"));
        }
        _ => panic!("expected an error"),
    }
}

#[test]
fn htx_spot_merged_ticker() {
    let client = HtxSpotClient::builder().build();
    let request = Request::GetTopOfBook(ccrs::exchange_client::common::GetTopOfBookRequest { symbol: "btcusdt".to_string() });
    let body = obj(vec![
        ("status", s("ok")),
        ("ch", s("market.btcusdt.detail.merged")),
        (
            "tick",
            obj(vec![
                ("bid", JsonValue::Array(vec![float("100.5", "100.5"), float("2.0", "2")])),
                ("ask", JsonValue::Array(vec![float("101.0", "101"), float("3.5", "3.5")])),
            ]),
        ),
    ]);
    match client.create_rest_response(&request, response(body)) {
        Some(Response::GetTopOfBook(t)) => {
            assert_eq!(t.data[0].symbol, "btcusdt");
            assert_eq!(t.data[0].bid_price, "100.5");
            assert_eq!(t.data[0].bid_size, "2");
            assert_eq!(t.data[0].ask_price, "101");
        }
        _ => panic!("expected a ticker"),
    }
}

#[test]
fn htx_spot_subscriptions_and_pongs() {
    let client = HtxSpotClient::builder().build();
    let request = SubscribeTopOfBookRequest { id: None, symbols: vec!["btcusdt".to_string(), "ethusdt".to_string()] };
    assert_eq!(
        client.create_subscribe_top_of_book_websocket_request(&request),
        "{\"id\":\"bbo-0\",\"sub\":\"market.btcusdt.bbo\"}\n{\"id\":\"bbo-1\",\"sub\":\"market.ethusdt.bbo\"}"
    );
    let orders = ccrs::exchange_client::common::SubscribeOrderRequest { id: None, symbols: Vec::new() };
    assert_eq!(client.create_subscribe_order_websocket_request(&orders), "{\"action\":\"sub\",\"ch\":\"orders#*\"}");
    assert_eq!(client.market_pong(&Some(obj(vec![("ping", integer(17))]))).as_deref(), Some("{\"pong\":17}"));
    assert_eq!(
        client.account_pong(&Some(obj(vec![("action", s("ping")), ("data", obj(vec![("ts", integer(5))]))]))).as_deref(),
        Some("{\"action\":\"pong\",\"data\":{\"ts\":5}}")
    );
    assert_eq!(client.account_pong(&Some(obj(vec![("action", s("push"))]))), None);
}

#[test]
fn htx_spot_gzip_messages() {
    let client = HtxSpotClient::builder().build();
    let mut encoder = flate2::write::GzEncoder::new(Vec::new(), flate2::Compression::default());
    std::io::Write::write_all(&mut encoder, b"{\"ping\":1}").unwrap();
    let bytes = encoder.finish().unwrap();
    assert_eq!(client.convert_binary_websocket_message_to_text(&bytes).as_deref(), Some("{\"ping\":1}"));
    assert_eq!(client.convert_binary_websocket_message_to_text(b"not gzip"), None);
}

#[test]
fn htx_spot_websocket_messages() {
    let client = HtxSpotClient::builder().build();
    let trade = client.handle_websocket_text(message(obj(vec![
        ("ch", s("market.btcusdt.trade.detail")),
        (
            "tick",
            obj(vec![(
                "data",
                JsonValue::Array(vec![obj(vec![
                    ("ts", integer(1_700_000_000_500)),
                    ("price", float("100.25", "100.25")),
                    ("amount", float("0.5", "0.5")),
                    ("direction", s("sell")),
                ])]),
            )]),
        ),
    ])));
    match trade {
        Some(Response::TradeSubscription(t)) => {
            assert_eq!(t.data[0].symbol, "btcusdt");
            assert_eq!(t.data[0].price, "100.25");
            assert!(t.data[0].side == TakerSide::Sell);
            assert_eq!(t.data[0].timestamp.nanoseconds, 500_000_000);
        }
        _ => panic!("expected a trade"),
    }
    let subscribed = client.handle_websocket_text(message(obj(vec![
        ("id", s("bbo-0")),
        ("status", s("ok")),
        ("subbed", s("market.btcusdt.bbo")),
    ])));
    assert!(matches!(subscribed, Some(Response::Subscribe(_))));
    let authenticated = client.handle_websocket_text(message(obj(vec![
        ("action", s("req")),
        ("code", integer(200)),
        ("ch", s("auth")),
    ])));
    assert!(matches!(authenticated, Some(Response::Authenticate(a)) if a.id.is_none()));
    let order = client.handle_websocket_text(message(obj(vec![
        ("action", s("push")),
        ("ch", s("orders#btcusdt")),
        (
            "data",
            obj(vec![
                ("orderId", integer(9)),
                ("symbol", s("btcusdt")),
                ("type", s("buy-limit")),
                ("orderStatus", s("filled")),
                ("aggressor", JsonValue::Bool(false)),
            ]),
        ),
    ])));
    match order {
        Some(Response::OrderSubscription(o)) => {
            assert_eq!(o.data[0].order_id, "9");
            assert!(o.data[0].status == OrderStatus::Filled);
            assert!(o.data[0].fill_is_maker);
        }
        _ => panic!("expected an order"),
    }
    let error = client.handle_websocket_text(message(obj(vec![
        ("status", s("error")),
        ("err-msg", s("invalid topic")),
    ])));
    assert!(matches!(error, Some(Response::WebSocketErrorResponse(t)) if t.error_message.as_deref() == Some("invalid topic")));
}

#[test]
fn htx_futures_order_bodies() {
    let client = HtxUsdtMarginedFuturesClient::builder().build();
    let request = PlaceOrderRequest {
        symbol: "BTC-USDT".to_string(),
        client_order_id: "abc".to_string(),
        order_type: OrderType::Limit,
        side: OrderSide::Buy,
        price: "100.5".to_string(),
        quantity: "2".to_string(),
        leverage: String::new(),
    };
    let http_request = client.create_place_order_http_request(&request, 2, float("100.5", "100.5"));
    assert_eq!(
        http_request.payload.as_deref(),
        Some("{\"channel_code\":\"AA3b46363e\",\"client_order_id\":\"abc\",\"contract_code\":\"BTC-USDT\",\"margin_mode\":\"cross\",\"price\":100.5,\"side\":\"buy\",\"type\":\"limit\",\"volume\":2}")
    );
    let cancel = CancelOrderRequest { symbol: "BTC-USDT".to_string(), order_id: String::new(), client_order_id: "123".to_string() };
    assert_eq!(
        client.create_cancel_order_http_request(&cancel).payload.as_deref(),
        Some("{\"client_order_id\":123,\"contract_code\":\"BTC-USDT\"}")
    );
    let cancel = CancelOrderRequest { symbol: String::new(), order_id: String::new(), client_order_id: "x1".to_string() };
    assert_eq!(client.create_cancel_order_http_request(&cancel).payload.as_deref(), Some("{\"client_order_id\":\"x1\"}"));
}

#[test]
fn htx_futures_contracts_and_success() {
    let client = HtxUsdtMarginedFuturesClient::builder()
        .credential(Some(HtxUsdtMarginedFuturesCredential { api_key: "k".to_string(), api_secret: "s".to_string() }))
        .build();
    let info = client.convert_json_value_to_instrument_info(&obj(vec![
        ("contract_code", s("BTC-USDT")),
        ("symbol", s("BTC")),
        ("price_tick", float("0.1", "0.1")),
        ("contract_size", float("0.001", "0.001")),
        ("delivery_time", s("1700000000000")),
    ]));
    assert_eq!(info.order_price_increment, "0.1");
    assert_eq!(info.contract_size, "0.001");
    assert_eq!(info.expiry_timestamp.seconds, 1_700_000_000);
    let perpetual = client.convert_json_value_to_instrument_info(&obj(vec![("delivery_time", s(""))]));
    assert_eq!(perpetual.expiry_timestamp.seconds, 0);
    let request = Request::PlaceOrder(PlaceOrderRequest {
        symbol: "BTC-USDT".to_string(),
        client_order_id: String::new(),
        order_type: OrderType::Market,
        side: OrderSide::Sell,
        price: String::new(),
        quantity: "1".to_string(),
        leverage: String::new(),
    });
    let placed = obj(vec![("code", integer(200)), ("data", obj(vec![("order_id", s("777"))]))]);
    assert!(matches!(client.create_rest_response(&request, response(placed)), Some(Response::PlaceOrder(p)) if p.order_id == "777"));
    let refused = obj(vec![("code", integer(1001)), ("err_code", integer(1001)), ("err_msg", s("no"))]);
    match client.create_rest_response(&request, response(refused)) {
        Some(Response::HttpErrorResponse(e)) => assert_eq!(e.error_code.as_deref(), Some("1001")),
        _ => panic!("expected an error"),
    }
}

#[test]
fn htx_futures_websocket_messages() {
    let client = HtxUsdtMarginedFuturesClient::builder().build();
    let authenticated = client.handle_websocket_text(message(obj(vec![
        ("op", s("auth")),
        ("type", s("api")),
        ("err-code", integer(0)),
    ])));
    assert!(matches!(authenticated, Some(Response::Authenticate(_))));
    let fills = client.handle_websocket_text(message(obj(vec![
        ("op", s("notify")),
        ("topic", s("trade")),
        (
            "data",
            JsonValue::Array(vec![obj(vec![
                ("contract_code", s("BTC-USDT")),
                ("order_id", s("1")),
                ("client_order_id", integer(55)),
                ("direction", s("buy")),
                ("trade_price", float("100", "100")),
                ("role", s("maker")),
            ])]),
        ),
    ])));
    match fills {
        Some(Response::FillSubscription(f)) => {
            assert_eq!(f.data[0].client_order_id, "55");
            assert!(f.data[0].is_maker);
            assert!(f.data[0].side == OrderSide::Buy);
        }
        _ => panic!("expected fills"),
    }
    assert_eq!(
        client.account_pong(&Some(obj(vec![("op", s("ping")), ("ts", s("123"))]))).as_deref(),
        Some("{\"op\":\"pong\",\"ts\":\"123\"}")
    );
}
