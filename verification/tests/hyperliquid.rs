use ccrs::exchange_client::common::{
    batch_read_continues, next_client_order_id_state, BatchReadEvent, CancelOrderRequest, GetInstrumentInfoRequest, GetPositionRequest, PlaceOrderRequest,
    Request, Response,
};
use ccrs::exchanges::hyperliquid::common::{HyperliquidClient, HyperliquidCredential};
use ccrs::exchanges::hyperliquid::rest::remove_trailing_zeros;
use ccrs::json::{JsonNumber, JsonValue};
use ccrs::networking::http::{HttpMethod, HttpRequest, HttpResponse};
use ccrs::networking::websocket::WebSocketText;
use ccrs::types::{
    ExchangeInstrumentType, HyperliquidInstrumentType, OrderSide, OrderStatus, OrderType, PositionSide, TakerSide,
};

fn s(v: &str) -> JsonValue {
    JsonValue::Str(v.to_string())
}

fn num(v: u64) -> JsonValue {
    JsonValue::Number(JsonNumber {
        text: v.to_string(),
        as_u64: Some(v),
        as_i64: Some(v as i64),
        float_text: Some(v.to_string()),
    })
}

fn obj(members: Vec<(&str, JsonValue)>) -> JsonValue {
    JsonValue::Object(members.into_iter().map(|(k, v)| (k.to_string(), v)).collect())
}

fn response(json: JsonValue) -> HttpResponse {
    HttpResponse {
        http_request: HttpRequest::new("https://example.test", HttpMethod::Post, "/info", None, None),
        status: 200,
        body: String::new(),
        json_payload: Some(json),
        error_code: None,
        error_message: None,
    }
}

fn message(json: JsonValue) -> WebSocketText {
    WebSocketText::from_text("wss://example.test".to_string(), json.to_text(), Some(json))
}

const KEY: [u8; 32] = [7u8; 32];

fn keccak(data: &[u8]) -> [u8; 32] {
    alloy::primitives::keccak256(data).0
}

#[test]
fn hyperliquid_builder_defaults_and_address() {
    let client = HyperliquidClient::builder().build();
    assert!(client.is_mainnet);
    assert_eq!(client.rest_api_base_url, "https://api.hyperliquid.xyz");
    assert_eq!(client.websocket_url, "wss://api.hyperliquid.xyz/ws");
    assert_eq!(client.wallet_address, "");
    assert!(client.instrument_type == HyperliquidInstrumentType::Unknown);
    let testnet = HyperliquidClient::builder().is_mainnet(false).build();
    assert_eq!(testnet.rest_api_base_url, "https://api.hyperliquid-testnet.xyz");
    let credential = HyperliquidCredential::new(KEY.to_vec()).unwrap();
    let signed = HyperliquidClient::builder().credential(Some(credential)).build();
    let expected = alloy::signers::local::PrivateKeySigner::from_slice(&KEY).unwrap().address().to_string();
    assert_eq!(signed.wallet_address, expected);
    assert!(HyperliquidCredential::new(vec![0u8; 32]).is_none());
}

#[test]
fn hyperliquid_trailing_zeros() {
    assert_eq!(remove_trailing_zeros("1.2300"), "1.23");
    assert_eq!(remove_trailing_zeros("100"), "100");
    assert_eq!(remove_trailing_zeros("5.000"), "5");
}

#[test]
fn hyperliquid_place_and_cancel_bodies() {
    let client = HyperliquidClient::builder().build();
    let order = client.create_place_order_http_request(&PlaceOrderRequest {
        symbol: "3".to_string(),
        client_order_id: "0xabc".to_string(),
        order_type: OrderType::Limit,
        side: OrderSide::Buy,
        price: "100.50".to_string(),
        quantity: "2.000".to_string(),
        leverage: String::new(),
    });
    assert_eq!(order.path, "/exchange");
    assert_eq!(
        order.payload.as_deref(),
        Some("{\"action\":{\"grouping\":\"na\",\"orders\":[{\"a\":3,\"b\":true,\"c\":\"0xabc\",\"p\":\"100.5\",\"r\":false,\"s\":\"2\",\"t\":{\"limit\":{\"tif\":\"Gtc\"}}}],\"type\":\"order\"}}")
    );
    let cancel = client.create_cancel_order_http_request(&CancelOrderRequest {
        symbol: "3".to_string(),
        order_id: "77".to_string(),
        client_order_id: String::new(),
    });
    assert_eq!(cancel.payload.as_deref(), Some("{\"action\":{\"cancels\":[{\"a\":3,\"o\":77}],\"type\":\"cancel\"}}"));
    let by_cloid = client.create_cancel_order_http_request(&CancelOrderRequest {
        symbol: "3".to_string(),
        order_id: String::new(),
        client_order_id: "0xabc".to_string(),
    });
    assert_eq!(
        by_cloid.payload.as_deref(),
        Some("{\"action\":{\"cancels\":[{\"asset\":3,\"cloid\":\"0xabc\"}],\"type\":\"cancelByCloid\"}}")
    );
}

#[test]
fn hyperliquid_signature_is_the_agent_signature() {
    let credential = HyperliquidCredential::new(KEY.to_vec()).unwrap();
    let client = HyperliquidClient::builder().credential(Some(credential)).build();
    let mut request = client.create_cancel_order_http_request(&CancelOrderRequest {
        symbol: "3".to_string(),
        order_id: "77".to_string(),
        client_order_id: String::new(),
    });
    let mut entry = serde_json::Map::new();
    entry.insert("a".to_string(), serde_json::Value::from(3u64));
    entry.insert("o".to_string(), serde_json::Value::from(77u64));
    let mut action = serde_json::Map::new();
    action.insert("cancels".to_string(), serde_json::Value::Array(vec![serde_json::Value::Object(entry)]));
    action.insert("type".to_string(), serde_json::Value::String("cancel".to_string()));
    let action = serde_json::Value::Object(action);
    let msgpack = rmp_serde::to_vec_named(&action).unwrap();
    assert!(client.sign_http_request(&mut request, 1_700_000_000_000, &msgpack));

    let mut data = msgpack.clone();
    data.extend_from_slice(&1_700_000_000_000u64.to_be_bytes());
    data.push(0);
    let connection_id = keccak(&data);
    assert_eq!(HyperliquidClient::compute_connection_id(&msgpack, 1_700_000_000_000), connection_id.to_vec());

    let mut domain = Vec::new();
    domain.extend_from_slice(&keccak(b"EIP712Domain(string name,string version,uint256 chainId,address verifyingContract)"));
    domain.extend_from_slice(&keccak(b"Exchange"));
    domain.extend_from_slice(&keccak(b"1"));
    let mut chain = [0u8; 32];
    chain[30] = 0x05;
    chain[31] = 0x39;
    domain.extend_from_slice(&chain);
    domain.extend_from_slice(&[0u8; 32]);
    let mut agent = Vec::new();
    agent.extend_from_slice(&keccak(b"Agent(string source,bytes32 connectionId)"));
    agent.extend_from_slice(&keccak(b"a"));
    agent.extend_from_slice(&connection_id);
    let mut signing = vec![0x19u8, 0x01];
    signing.extend_from_slice(&keccak(&domain));
    signing.extend_from_slice(&keccak(&agent));
    let hash = keccak(&signing);
    assert_eq!(HyperliquidClient::compute_agent_signing_hash(&connection_id, true), hash.to_vec());

    let signer = alloy::signers::local::PrivateKeySigner::from_slice(&KEY).unwrap();
    let sig = <alloy::signers::local::PrivateKeySigner as alloy::signers::SignerSync>::sign_hash_sync(
        &signer,
        &alloy::primitives::B256::from(hash),
    )
    .unwrap();
    let expected = format!(
        "{{\"action\":{{\"cancels\":[{{\"a\":3,\"o\":77}}],\"type\":\"cancel\"}},\"nonce\":1700000000000,\"signature\":{{\"r\":\"0x{:064x}\",\"s\":\"0x{:064x}\",\"v\":{}}}}}",
        sig.r(),
        sig.s(),
        27u64 + sig.v() as u64
    );
    assert_eq!(request.payload.as_deref(), Some(expected.as_str()));
}

#[test]
fn hyperliquid_instruments() {
    let perp = HyperliquidClient::builder().instrument_type(HyperliquidInstrumentType::Perpetuals).build();
    let body = obj(vec![("universe", JsonValue::Array(vec![obj(vec![("name", s("BTC")), ("szDecimals", num(5))])]))]);
    match perp.create_rest_response(&Request::GetInstrumentInfo(GetInstrumentInfoRequest {
        symbol: String::new(),
        limit: 0,
        next_page_cursor: String::new(),
    }), response(body)) {
        Response::GetInstrumentInfo(info) => {
            assert_eq!(info.data[0].symbol, "BTC");
            assert_eq!(info.data[0].quote_asset, "USDC");
            assert_eq!(info.data[0].order_quantity_increment, "1e-5");
        }
        _ => panic!("expected instruments"),
    }
    let spot = HyperliquidClient::builder().instrument_type(HyperliquidInstrumentType::Spot).build();
    let body = obj(vec![
        (
            "tokens",
            JsonValue::Array(vec![
                obj(vec![("name", s("USDC")), ("szDecimals", num(8))]),
                obj(vec![("name", s("PURR")), ("szDecimals", num(0))]),
            ]),
        ),
        (
            "universe",
            JsonValue::Array(vec![
                obj(vec![("name", s("PURR/USDC")), ("tokens", JsonValue::Array(vec![num(1), num(0)]))]),
                obj(vec![("name", s("@9"))]),
            ]),
        ),
    ]);
    match spot.create_get_instrument_info_rest_response(response(body)) {
        Response::GetInstrumentInfo(info) => {
            assert_eq!(info.data.len(), 1);
            assert_eq!(info.data[0].base_asset, "PURR");
            assert_eq!(info.data[0].quote_asset, "USDC");
            assert_eq!(info.data[0].order_quantity_increment, "1e-0");
        }
        _ => panic!("expected instruments"),
    }
}

#[test]
fn hyperliquid_positions_and_placed_order() {
    let client = HyperliquidClient::builder().build();
    let body = obj(vec![(
        "assetPositions",
        JsonValue::Array(vec![obj(vec![(
            "position",
            obj(vec![
                ("coin", s("ETH")),
                ("szi", s("-1.5")),
                ("entryPx", s("2000")),
                ("leverage", obj(vec![("value", num(10))])),
            ]),
        )])]),
    )]);
    match client.create_rest_response(&Request::GetPosition(GetPositionRequest {
        symbol: String::new(),
        settle_asset: String::new(),
        limit: 0,
        next_page_cursor: String::new(),
    }), response(body)) {
        Response::GetPosition(p) => {
            assert_eq!(p.data[0].quantity, "1.5");
            assert_eq!(p.data[0].leverage, "10");
            assert!(p.data[0].side == PositionSide::Unknown);
        }
        _ => panic!("expected positions"),
    }
    let placed = obj(vec![(
        "response",
        obj(vec![(
            "data",
            obj(vec![("statuses", JsonValue::Array(vec![obj(vec![("filled", obj(vec![("oid", num(42))]))])]))]),
        )]),
    )]);
    match client.create_place_order_rest_response(response(placed)) {
        Response::PlaceOrder(p) => assert_eq!(p.order_id, "42"),
        _ => panic!("expected an order id"),
    }
    let error = obj(vec![("status", s("err")), ("response", s("Insufficient margin"))]);
    match client.create_rest_response(&Request::GetPosition(GetPositionRequest {
        symbol: String::new(),
        settle_asset: String::new(),
        limit: 0,
        next_page_cursor: String::new(),
    }), response(error)) {
        Response::HttpErrorResponse(e) => assert_eq!(e.error_message.as_deref(), Some("Insufficient margin")),
        _ => panic!("expected an error"),
    }
}

#[test]
fn hyperliquid_websocket_messages() {
    let client = HyperliquidClient::builder().build();
    assert_eq!(
        client.subscribe_top_of_book_text("BTC"),
        "{\"method\":\"subscribe\",\"subscription\":{\"coin\":\"BTC\",\"type\":\"bbo\"}}"
    );
    let level = |p: &str, z: &str| obj(vec![("px", s(p)), ("sz", s(z))]);
    let bbo = client.handle_websocket_text(message(obj(vec![
        ("channel", s("bbo")),
        (
            "data",
            obj(vec![
                ("coin", s("@107")),
                ("time", num(1_700_000_000_000)),
                ("bbo", JsonValue::Array(vec![level("1.0", "5"), level("1.1", "6")])),
            ]),
        ),
    ])));
    match bbo {
        Some(Response::TopOfBookSubscription(d)) => {
            assert!(d.data[0].exchange_instrument_type == ExchangeInstrumentType::Hyperliquid(HyperliquidInstrumentType::Spot));
            assert_eq!(d.data[0].ask_size, "6");
            assert_eq!(d.data[0].timestamp.seconds, 1_700_000_000);
        }
        _ => panic!("expected a top of book"),
    }
    let trades = client.handle_websocket_text(message(obj(vec![
        ("channel", s("trades")),
        (
            "data",
            JsonValue::Array(vec![obj(vec![
                ("coin", s("BTC")),
                ("time", num(1)),
                ("px", s("100")),
                ("sz", s("1")),
                ("side", s("A")),
            ])]),
        ),
    ])));
    match trades {
        Some(Response::TradeSubscription(d)) => assert!(d.data[0].side == TakerSide::Sell),
        _ => panic!("expected trades"),
    }
    let orders = client.handle_websocket_text(message(obj(vec![
        ("channel", s("orderUpdates")),
        (
            "data",
            JsonValue::Array(vec![obj(vec![
                ("order", obj(vec![("coin", s("BTC")), ("oid", num(9)), ("side", s("B"))])),
                ("status", s("marginCanceled")),
            ])]),
        ),
    ])));
    match orders {
        Some(Response::OrderSubscription(d)) => {
            assert!(d.data[0].status == OrderStatus::Canceled);
            assert_eq!(d.data[0].order_id, "9");
            assert!(d.data[0].side == OrderSide::Buy);
        }
        _ => panic!("expected orders"),
    }
    let pong = client.handle_websocket_text(message(obj(vec![("channel", s("pong"))])));
    assert!(matches!(pong, Some(Response::Heartbeat(_))));
    let error = client.handle_websocket_text(message(obj(vec![("channel", s("error")), ("data", s("bad"))])));
    match error {
        Some(Response::WebSocketErrorResponse(t)) => assert_eq!(t.error_message.as_deref(), Some("bad")),
        _ => panic!("expected an error"),
    }
}

#[test]
fn client_order_ids_of_a_series_are_distinct() {
    let mut state = 0u64;
    let mut seen = std::collections::HashSet::new();
    for now in [100u64, 100, 100, 101, 101, 105] {
        let (next, seconds, sequence) = next_client_order_id_state(state, now);
        assert!(seen.insert((seconds, sequence)));
        state = next;
    }
    assert_eq!(seen.len(), 6);
}

#[test]
fn hyperliquid_client_order_id_is_hexadecimal() {
    let client = HyperliquidClient::builder().build();
    let (_, id) = client.hex_client_order_id_from(0, 1_700_000_000);
    assert_eq!(id, format!("0x{:0>32x}", 1_700_000_000_000i64));
    assert_eq!(id.len(), 34);
}

#[test]
fn times_reach_the_ends_of_the_calendar() {
    let last = ccrs::time::timestamp_from_seconds_or_epoch(8_210_266_876_799);
    assert_eq!(last.seconds, 8_210_266_876_799);
    let past = ccrs::time::timestamp_from_seconds_or_epoch(8_210_266_876_800);
    assert_eq!(past.seconds, 0);
    let first = ccrs::time::timestamp_from_millis_or_epoch(-8_334_601_228_800_000);
    assert_eq!(first.seconds, -8_334_601_228_800);
    let before = ccrs::time::timestamp_from_millis_or_epoch(-8_334_601_228_800_001);
    assert_eq!(before.seconds, 0);
}

#[test]
fn uuid_client_order_ids_and_replace() {
    let client = ccrs::exchanges::coinbase::common::CoinbaseClient::builder().build();
    let id = client.generate_next_client_order_id().unwrap();
    assert_eq!(id.len(), 36);
    assert_eq!(&id[14..15], "4");
    assert!(matches!(&id[19..20], "8" | "9" | "a" | "b"));
    assert!(uuid::Uuid::parse_str(&id).is_ok());
    assert_eq!(ccrs::text::replace("a{k}b{k}", "{k}", "xy"), "axybxy");
    assert_eq!(ccrs::text::replace("aaa", "aa", "b"), "ba");
}

#[test]
fn batch_reads_go_on_only_after_a_handled_message() {
    assert!(batch_read_continues(BatchReadEvent::Handled));
    assert!(!batch_read_continues(BatchReadEvent::HandledWithError));
    assert!(!batch_read_continues(BatchReadEvent::ReadError));
    assert!(!batch_read_continues(BatchReadEvent::NothingReady));
}
