use base64::Engine;
use ccrs::exchange_client::common::{
    GetInstrumentInfoRequest, GetOpenOrderRequest, GetPositionRequest, PlaceOrderRequest, Request, Response,
};
use ccrs::exchanges::aster_spot::common::{AsterSpotClient, AsterSpotCredential};
use ccrs::exchanges::kalshi::common::{KalshiClient, KalshiCredential};
use ccrs::json::JsonValue;
use ccrs::networking::http::{HttpMethod, HttpRequest, HttpResponse};
use ccrs::types::{OrderSide, OrderStatus, OrderType, PositionSide, Timestamp};

fn s(v: &str) -> JsonValue {
    JsonValue::Str(v.to_string())
}

fn obj(members: Vec<(&str, JsonValue)>) -> JsonValue {
    JsonValue::Object(members.into_iter().map(|(k, v)| (k.to_string(), v)).collect())
}

fn response(json: JsonValue) -> HttpResponse {
    HttpResponse {
        http_request: HttpRequest::new("https://example.test", HttpMethod::Get, "/", None, None),
        status: 200,
        body: String::new(),
        json_payload: Some(json),
        error_code: None,
        error_message: None,
    }
}

fn rsa_pem() -> (Vec<u8>, openssl::pkey::PKey<openssl::pkey::Private>) {
    let rsa = openssl::rsa::Rsa::generate(2048).unwrap();
    let key = openssl::pkey::PKey::from_rsa(rsa).unwrap();
    (key.private_key_to_pem_pkcs8().unwrap(), key)
}

#[test]
fn kalshi_credential_refuses_text_that_is_not_a_key() {
    assert!(KalshiCredential::from_pem("key".to_string(), b"not a key".to_vec()).is_none());
}

#[test]
fn kalshi_builder_defaults() {
    let live = KalshiClient::builder().build();
    assert_eq!(live.rest_api_base_url, "https://external-api.kalshi.com");
    let demo = KalshiClient::builder().use_demo_trading(Some(true)).build();
    assert_eq!(demo.rest_api_base_url, "https://external-api.demo.kalshi.co");
    assert_eq!(demo.websocket_api_url, "wss://external-api-ws.demo.kalshi.co/trade-api/ws/v2");
}

#[test]
fn kalshi_queries_keep_their_order() {
    let client = KalshiClient::builder().build();
    let request = client.create_get_open_order_http_request(&GetOpenOrderRequest {
        symbol: "KXBTC".to_string(),
        limit: 10,
        next_page_cursor: "abc".to_string(),
    });
    assert_eq!(request.path, "/trade-api/v2/portfolio/orders");
    let pairs = request.query_params.unwrap();
    let keys: Vec<&str> = pairs.iter().map(|(k, _)| k.as_str()).collect();
    assert_eq!(keys, vec!["ticker", "status", "limit", "cursor"]);
    assert_eq!(pairs[1].1, "resting");
    let markets = client.create_get_instrument_info_http_request(&GetInstrumentInfoRequest {
        symbol: String::new(),
        limit: 0,
        next_page_cursor: String::new(),
    });
    assert!(markets.query_params.map_or(true, |p| p.is_empty()));
}

#[test]
fn kalshi_place_order_body() {
    let client = KalshiClient::builder().build();
    let request = client.create_place_order_http_request(&PlaceOrderRequest {
        symbol: "KXBTC".to_string(),
        client_order_id: "c1".to_string(),
        order_type: OrderType::Market,
        side: OrderSide::Sell,
        price: "0.5".to_string(),
        quantity: "3".to_string(),
        leverage: String::new(),
    });
    assert_eq!(
        request.payload.as_deref(),
        Some("{\"client_order_id\":\"c1\",\"count\":\"3\",\"price\":\"0.5\",\"self_trade_prevention_type\":\"taker_at_cross\",\"side\":\"ask\",\"ticker\":\"KXBTC\",\"time_in_force\":\"fill_or_kill\"}")
    );
}

#[test]
fn kalshi_signature_verifies() {
    let (pem, key) = rsa_pem();
    let credential = KalshiCredential::from_pem("key-1".to_string(), pem).unwrap();
    let client = KalshiClient::builder()
        .rest_api_base_url("https://example.test/base/".to_string())
        .credential(Some(credential))
        .build();
    let request = Request::GetPosition(GetPositionRequest {
        symbol: String::new(),
        settle_asset: String::new(),
        limit: 0,
        next_page_cursor: String::new(),
    });
    let now = Timestamp { seconds: 1_700_000_000, nanoseconds: 5_000_000 };
    let http_request = client.create_http_request(&request, now).unwrap();
    assert_eq!(http_request.headers.get("kalshi-access-key"), Some("key-1"));
    assert_eq!(http_request.headers.get("kalshi-access-timestamp"), Some("1700000000005"));
    let signature = base64::engine::general_purpose::STANDARD
        .decode(http_request.headers.get("kalshi-access-signature").unwrap())
        .unwrap();
    let mut verifier = openssl::sign::Verifier::new(openssl::hash::MessageDigest::sha256(), &key).unwrap();
    verifier.set_rsa_padding(openssl::rsa::Padding::PKCS1_PSS).unwrap();
    verifier.set_rsa_pss_saltlen(openssl::sign::RsaPssSaltlen::DIGEST_LENGTH).unwrap();
    verifier.update(b"1700000000005GET/base/trade-api/v2/portfolio/positions").unwrap();
    assert!(verifier.verify(&signature).unwrap());
}

#[test]
fn kalshi_responses() {
    let client = KalshiClient::builder().build();
    let markets = obj(vec![
        (
            "markets",
            JsonValue::Array(vec![obj(vec![
                ("ticker", s("KXBTC")),
                ("close_time", s("2024-01-02T03:04:05Z")),
                ("price_ranges", JsonValue::Array(vec![obj(vec![("step", s("0.001"))])])),
            ])]),
        ),
        ("cursor", s("next")),
    ]);
    let request = Request::GetInstrumentInfo(GetInstrumentInfoRequest {
        symbol: String::new(),
        limit: 0,
        next_page_cursor: String::new(),
    });
    match client.create_rest_response(&request, response(markets)) {
        Some(Response::GetInstrumentInfo(info)) => {
            assert_eq!(info.next_page_cursor, "next");
            assert_eq!(info.data[0].order_price_increment, "0.001");
            assert_eq!(info.data[0].quote_asset, "USD");
            assert_eq!(info.data[0].expiry_timestamp.seconds, 1_704_164_645);
        }
        _ => panic!("expected instruments"),
    }
    let positions = obj(vec![(
        "market_positions",
        JsonValue::Array(vec![obj(vec![("ticker", s("KXBTC")), ("position_fp", s("-4.00"))])]),
    )]);
    let request = Request::GetPosition(GetPositionRequest {
        symbol: String::new(),
        settle_asset: String::new(),
        limit: 0,
        next_page_cursor: String::new(),
    });
    match client.create_rest_response(&request, response(positions)) {
        Some(Response::GetPosition(p)) => {
            assert!(p.data[0].side == PositionSide::Short);
            assert_eq!(p.data[0].quantity, "4.00");
        }
        _ => panic!("expected positions"),
    }
    let orders = obj(vec![(
        "orders",
        JsonValue::Array(vec![obj(vec![
            ("ticker", s("KXBTC")),
            ("order_id", s("o-1")),
            ("book_side", s("bid")),
            ("status", s("resting")),
        ])]),
    )]);
    let request = Request::GetOpenOrder(GetOpenOrderRequest {
        symbol: String::new(),
        limit: 0,
        next_page_cursor: String::new(),
    });
    match client.create_rest_response(&request, response(orders)) {
        Some(Response::GetOpenOrder(o)) => {
            assert_eq!(o.data[0].order_id, "o-1");
            assert!(o.data[0].side == OrderSide::Buy);
            assert!(o.data[0].order_type == OrderType::Limit);
            assert!(o.data[0].status == OrderStatus::Open);
        }
        _ => panic!("expected open orders"),
    }
}

fn keccak(data: &[u8]) -> [u8; 32] {
    alloy::primitives::keccak256(data).0
}

#[test]
fn aster_signing_hash_is_the_eip712_hash() {
    let mut domain = Vec::new();
    domain.extend_from_slice(&keccak(
        b"EIP712Domain(string name,string version,uint256 chainId,address verifyingContract)",
    ));
    domain.extend_from_slice(&keccak(b"AsterSignTransaction"));
    domain.extend_from_slice(&keccak(b"1"));
    let mut chain = [0u8; 32];
    chain[30] = 0x06;
    chain[31] = 0x82;
    domain.extend_from_slice(&chain);
    domain.extend_from_slice(&[0u8; 32]);
    let mut message = Vec::new();
    message.extend_from_slice(&keccak(b"Message(string msg)"));
    message.extend_from_slice(&keccak(b"symbol=BTCUSDT"));
    let mut data = vec![0x19u8, 0x01u8];
    data.extend_from_slice(&keccak(&domain));
    data.extend_from_slice(&keccak(&message));
    assert_eq!(AsterSpotClient::compute_signing_hash("symbol=BTCUSDT"), keccak(&data).to_vec());
}

#[test]
fn aster_credential_and_conversions() {
    assert!(AsterSpotCredential::new(vec![0u8; 32]).is_none());
    assert!(AsterSpotCredential::new(vec![1u8; 32]).is_some());
    let client = AsterSpotClient::builder().build();
    assert_eq!(client.rest_api_base_url, "https://sapi.asterdex.com");
    assert_eq!(client.convert_order_side_to_string(OrderSide::Buy), "BUY");
    assert!(client.convert_string_to_order_status("PENDING_CANCEL") == OrderStatus::Canceled);
    assert!(client.convert_string_to_order_status("EXPIRED_IN_MATCH") == OrderStatus::Expired);
    let balance = client.convert_json_value_to_balance(&obj(vec![("asset", s("USDT")), ("free", s("12.5"))]));
    assert_eq!(balance.asset, "USDT");
    assert_eq!(balance.quantity, "12.5");
}
