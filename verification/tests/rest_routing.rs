use ccrs::exchange_client::common::{
    CancelOrderRequest, GetInstrumentInfoRequest, GetOpenOrderRequest, GetTopOfBookRequest, PlaceOrderRequest, Request,
    Response,
};
use ccrs::exchanges::bitget::common::{BitgetClient, BitgetCredential};
use ccrs::exchanges::bitstamp::common::{BitstampClient, BitstampCredential};
use ccrs::exchanges::bybit::common::BybitClient;
use ccrs::exchanges::coinbase::common::CoinbaseClient;
use ccrs::exchanges::gateio_perpetual_futures::common::GateioPerpetualFuturesClient;
use ccrs::exchanges::gateio_spot_and_margin::common::GateioSpotAndMarginClient;
use ccrs::json::{JsonNumber, JsonValue};
use ccrs::networking::http::{HttpMethod, HttpRequest, HttpResponse};
use ccrs::types::{BybitInstrumentType, OrderSide, OrderType, Timestamp};

fn s(v: &str) -> JsonValue {
    JsonValue::Str(v.to_string())
}

fn integer(v: i64) -> JsonValue {
    JsonValue::Number(JsonNumber {
        text: v.to_string(),
        as_u64: if v >= 0 { Some(v as u64) } else { None },
        as_i64: Some(v),
        float_text: Some(v.to_string()),
    })
}

fn obj(members: Vec<(&str, JsonValue)>) -> JsonValue {
    JsonValue::Object(members.into_iter().map(|(k, v)| (k.to_string(), v)).collect())
}

fn response(status: u16, json_payload: Option<JsonValue>) -> HttpResponse {
    HttpResponse {
        http_request: HttpRequest::new("https://example.test", HttpMethod::Get, "/", None, None),
        status,
        body: String::new(),
        json_payload,
        error_code: None,
        error_message: None,
    }
}

fn now() -> Timestamp {
    Timestamp { seconds: 1_700_000_000, nanoseconds: 0 }
}

fn place_order() -> PlaceOrderRequest {
    PlaceOrderRequest {
        symbol: "btcusd".to_string(),
        client_order_id: "abc".to_string(),
        order_type: OrderType::Limit,
        side: OrderSide::Buy,
        price: "100".to_string(),
        quantity: "2".to_string(),
        leverage: String::new(),
    }
}

fn bitstamp_with_credential() -> BitstampClient {
    BitstampClient::builder()
        .credential(Some(BitstampCredential { api_key: "key-1".to_string(), api_secret: "secret-1".to_string() }))
        .build()
}

#[test]
fn bitstamp_public_request_is_built_and_not_signed() {
    let client = BitstampClient::builder().build();
    let request = Request::GetTopOfBook(GetTopOfBookRequest { symbol: "btcusd".to_string() });
    let http_request = client.create_http_request(&request, now()).unwrap();
    assert_eq!(http_request.base_url, "https://www.bitstamp.net");
    assert_eq!(http_request.path, "/api/v2/ticker/btcusd/");
    assert!(http_request.method == HttpMethod::Get);
    assert!(http_request.headers.is_empty());
}

#[test]
fn bitstamp_instrument_request_path() {
    let client = BitstampClient::builder().build();
    let request = Request::GetInstrumentInfo(GetInstrumentInfoRequest {
        symbol: String::new(),
        limit: 0,
        next_page_cursor: String::new(),
    });
    let http_request = client.create_http_request(&request, now()).unwrap();
    assert_eq!(http_request.path, "/api/v2/markets/");
}

#[test]
fn bitstamp_private_request_is_signed() {
    let client = bitstamp_with_credential();
    let request = Request::PlaceOrder(place_order());
    let http_request = client.create_http_request(&request, now()).unwrap();
    assert_eq!(http_request.path, "/api/v2/buy/btcusd/");
    assert_eq!(http_request.payload.as_deref(), Some("amount=2&price=100&client_order_id=abc"));
    assert_eq!(http_request.headers.get("x-auth"), Some("BITSTAMP key-1"));
    assert_eq!(http_request.headers.get("x-auth-version"), Some("v2"));
    assert_eq!(http_request.headers.get("x-auth-timestamp"), Some("1700000000000"));
    assert_eq!(http_request.headers.get("x-auth-nonce").map(|n| n.len()), Some(36));
    assert_eq!(http_request.headers.get("content-type"), Some("application/x-www-form-urlencoded"));
    assert_eq!(http_request.headers.get("x-auth-signature").map(|s| s.len()), Some(64));
}

#[test]
fn bitstamp_signature_with_known_nonce() {
    let client = bitstamp_with_credential();
    let cancel = CancelOrderRequest { symbol: String::new(), order_id: "42".to_string(), client_order_id: String::new() };
    let mut http_request = client.create_cancel_order_http_request(&cancel);
    assert_eq!(http_request.payload.as_deref(), Some("id=42"));
    client.sign_http_request_with(
        &mut http_request,
        "www.bitstamp.net",
        "00000000-0000-4000-8000-000000000001",
        "1700000000000",
    );
    assert_eq!(
        http_request.headers.get("x-auth-signature"),
        Some("6bbf1e6090b31199b99e614a816c5df12f0569f4bf4803a90bbdd81c69d33f5f")
    );
}

#[test]
fn bitstamp_private_request_without_host_is_not_signed() {
    let client = BitstampClient::builder()
        .rest_api_base_url("not a url".to_string())
        .credential(Some(BitstampCredential { api_key: "k".to_string(), api_secret: "s".to_string() }))
        .build();
    let request = Request::CancelOrder(CancelOrderRequest {
        symbol: String::new(),
        order_id: "1".to_string(),
        client_order_id: String::new(),
    });
    assert!(client.create_http_request(&request, now()).is_none());
}

#[test]
fn bitstamp_error_response_reads_code_and_reason() {
    let client = BitstampClient::builder().build();
    let request = Request::CancelOrder(CancelOrderRequest {
        symbol: String::new(),
        order_id: "1".to_string(),
        client_order_id: String::new(),
    });
    let json = obj(vec![("code", s("API0001")), ("reason", s("Invalid nonce"))]);
    match client.create_rest_response(&request, response(403, Some(json))) {
        Response::HttpErrorResponse(e) => {
            assert_eq!(e.status, 403);
            assert_eq!(e.error_code.as_deref(), Some("API0001"));
            assert_eq!(e.error_message.as_deref(), Some("Invalid nonce"));
        }
        _ => panic!("expected an error response"),
    }
}

#[test]
fn bitstamp_success_answers_the_request_kind() {
    let client = BitstampClient::builder().build();
    let request = Request::PlaceOrder(place_order());
    match client.create_rest_response(&request, response(200, Some(obj(vec![("id", integer(1234))])))) {
        Response::PlaceOrder(p) => assert_eq!(p.order_id, "1234"),
        _ => panic!("expected a place order response"),
    }
}

#[test]
fn bitstamp_success_without_json_is_an_error_response() {
    let client = BitstampClient::builder().build();
    let request = Request::PlaceOrder(place_order());
    assert!(matches!(client.create_rest_response(&request, response(200, None)), Response::HttpErrorResponse(_)));
}

#[test]
fn bitget_success_needs_code_00000() {
    let client = BitgetClient::builder()
        .credential(Some(BitgetCredential {
            api_key: "k".to_string(),
            api_secret: "s".to_string(),
            passphrase: "p".to_string(),
        }))
        .build();
    let request = Request::PlaceOrder(place_order());
    let ok = obj(vec![("code", s("00000")), ("data", obj(vec![("orderId", s("99"))]))]);
    match client.create_rest_response(&request, response(200, Some(ok))) {
        Response::PlaceOrder(p) => assert_eq!(p.order_id, "99"),
        _ => panic!("expected a place order response"),
    }
    let refused = obj(vec![("code", s("40001")), ("msg", s("bad request"))]);
    match client.create_rest_response(&request, response(200, Some(refused))) {
        Response::HttpErrorResponse(e) => {
            assert_eq!(e.error_code.as_deref(), Some("40001"));
            assert_eq!(e.error_message.as_deref(), Some("bad request"));
        }
        _ => panic!("expected an error response"),
    }
}

#[test]
fn bitget_signed_request_has_access_headers() {
    let client = BitgetClient::builder()
        .credential(Some(BitgetCredential {
            api_key: "k".to_string(),
            api_secret: "s".to_string(),
            passphrase: "p".to_string(),
        }))
        .build();
    let request = Request::GetOpenOrder(GetOpenOrderRequest { symbol: "BTCUSDT".to_string(), limit: 0, next_page_cursor: String::new() });
    let http_request = client.create_http_request(&request, now()).unwrap();
    assert_eq!(http_request.path, "/api/v3/trade/unfilled-orders");
    assert_eq!(http_request.headers.get("access-key"), Some("k"));
    assert_eq!(http_request.headers.get("access-passphrase"), Some("p"));
    assert_eq!(http_request.headers.get("access-timestamp"), Some("1700000000000"));
    assert_eq!(http_request.headers.get("content-type"), Some("application/json"));
}

#[test]
fn bybit_success_missing_order_id_is_refused() {
    let client = BybitClient::builder().instrument_type(BybitInstrumentType::Spot).build();
    let request = Request::PlaceOrder(place_order());
    let json = obj(vec![("retCode", integer(0)), ("result", obj(vec![]))]);
    assert!(client.create_rest_response(&request, response(200, Some(json))).is_none());
    let json = obj(vec![("retCode", integer(0)), ("result", obj(vec![("orderId", s("7"))]))]);
    match client.create_rest_response(&request, response(200, Some(json))) {
        Some(Response::PlaceOrder(p)) => assert_eq!(p.order_id, "7"),
        _ => panic!("expected a place order response"),
    }
}

#[test]
fn bybit_nonzero_ret_code_is_an_error_response() {
    let client = BybitClient::builder().build();
    let request = Request::GetTopOfBook(GetTopOfBookRequest { symbol: "BTCUSDT".to_string() });
    let json = obj(vec![("retCode", integer(10001)), ("retMsg", s("params error"))]);
    match client.create_rest_response(&request, response(200, Some(json))) {
        Some(Response::HttpErrorResponse(e)) => {
            assert_eq!(e.error_code.as_deref(), Some("10001"));
            assert_eq!(e.error_message.as_deref(), Some("params error"));
        }
        _ => panic!("expected an error response"),
    }
}

#[test]
fn coinbase_cancel_needs_no_body_but_book_does() {
    let client = CoinbaseClient::builder().build();
    let cancel = Request::CancelOrder(CancelOrderRequest {
        symbol: String::new(),
        order_id: "1".to_string(),
        client_order_id: String::new(),
    });
    assert!(matches!(client.create_rest_response(&cancel, response(200, None)), Some(Response::CancelOrder(_))));
    let book = Request::GetTopOfBook(GetTopOfBookRequest { symbol: "BTC-USD".to_string() });
    assert!(client.create_rest_response(&book, response(200, None)).is_none());
}

#[test]
fn coinbase_public_request_path() {
    let client = CoinbaseClient::builder().build();
    let book = Request::GetTopOfBook(GetTopOfBookRequest { symbol: "BTC-USD".to_string() });
    let http_request = client.create_http_request(&book, now()).unwrap();
    assert_eq!(http_request.path, "/products/BTC-USD/book");
}

#[test]
fn gate_futures_open_orders_with_unnegatable_size_are_refused() {
    let client = GateioPerpetualFuturesClient::builder().build();
    let request = Request::GetOpenOrder(GetOpenOrderRequest { symbol: String::new(), limit: 0, next_page_cursor: String::new() });
    let bad = JsonValue::Array(vec![obj(vec![("size", integer(i64::MIN)), ("left", integer(0))])]);
    assert!(client.create_rest_response(&request, response(200, Some(bad))).is_none());
    let good = JsonValue::Array(vec![obj(vec![
        ("contract", s("BTC_USDT")),
        ("id", integer(5)),
        ("size", integer(-3)),
        ("left", integer(1)),
        ("price", s("100")),
        ("tif", s("gtc")),
        ("status", s("open")),
    ])]);
    match client.create_rest_response(&request, response(200, Some(good))) {
        Some(Response::GetOpenOrder(g)) => {
            assert_eq!(g.data.len(), 1);
            assert_eq!(g.data[0].order_id, "5");
            assert_eq!(g.data[0].quantity, "3");
            assert_eq!(g.data[0].remaining_quantity, "1");
            assert!(g.data[0].side == OrderSide::Sell);
        }
        _ => panic!("expected an open order response"),
    }
}

#[test]
fn gate_futures_error_response_reads_label() {
    let client = GateioPerpetualFuturesClient::builder().build();
    let request = Request::GetTopOfBook(GetTopOfBookRequest { symbol: "BTC_USDT".to_string() });
    let json = obj(vec![("label", s("INVALID_KEY")), ("message", s("Invalid key"))]);
    match client.create_rest_response(&request, response(401, Some(json))) {
        Some(Response::HttpErrorResponse(e)) => {
            assert_eq!(e.error_code.as_deref(), Some("INVALID_KEY"));
            assert_eq!(e.error_message.as_deref(), Some("Invalid key"));
        }
        _ => panic!("expected an error response"),
    }
}

#[test]
fn gate_spot_instruments_with_negative_precision_are_refused() {
    let client = GateioSpotAndMarginClient::builder().build();
    let request = Request::GetInstrumentInfo(GetInstrumentInfoRequest {
        symbol: String::new(),
        limit: 0,
        next_page_cursor: String::new(),
    });
    let bad = JsonValue::Array(vec![obj(vec![("id", s("BTC_USDT")), ("precision", integer(-1))])]);
    assert!(client.create_rest_response(&request, response(200, Some(bad))).is_none());
    let good = JsonValue::Array(vec![obj(vec![
        ("id", s("BTC_USDT")),
        ("base", s("BTC")),
        ("quote", s("USDT")),
        ("precision", integer(2)),
        ("amount_precision", integer(4)),
    ])]);
    match client.create_rest_response(&request, response(200, Some(good))) {
        Some(Response::GetInstrumentInfo(g)) => {
            assert_eq!(g.data.len(), 1);
            assert_eq!(g.data[0].order_price_increment, "0.01");
            assert_eq!(g.data[0].order_quantity_increment, "0.0001");
        }
        _ => panic!("expected an instrument response"),
    }
}
