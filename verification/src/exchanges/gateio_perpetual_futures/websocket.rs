//! Gate.io perpetual futures websocket API: login, subscriptions, and the messages it sends.

use vstd::prelude::*;
use vstd::utf8::encode_utf8;
use crate::exchange_client::common::{
    AuthenticateResponse, FillSubscriptionData, HeartbeatResponse, OrderSubscriptionData, Response,
    SubscribeFillRequest, SubscribeOrderRequest, SubscribeResponse, SubscribeTopOfBookRequest, SubscribeTradeRequest,
    TopOfBookSubscriptionData, TradeSubscriptionData,
};
use crate::exchanges::gateio_perpetual_futures::common::{
    abs_int, gate_order_matches, gate_order_ok, gate_side_of_size, gate_ws_auth_text, GateioPerpetualFuturesClient,
};
use crate::json::{
    field_str, has_str, json_text, prefixed_strings_text, quoted, spec_as_array, spec_as_i64, spec_as_str, spec_as_u64,
    spec_at, spec_get, str_or, text_of, write_prefixed_strings, write_quoted, JsonValue,
};
use crate::networking::http::opt_view;
use crate::networking::websocket::WebSocketText;
use crate::signing::{hex_encode, hex_text, hmac_sha512, hmac_sha512_tag};
use crate::text::{i64_to_string, int_text, nat_digits, parse_i64, parse_i64_spec, push_str, str_eq, string_from, u64_to_string};
use crate::time::{from_millis_or_epoch, timestamp_from_millis_or_epoch, timestamp_valid, utc_now};
use crate::types::{
    ExchangeInstrumentType, ExchangeWebSocketEndpoint, Fill, Order, OrderSide, TakerSide, Timestamp, TopOfBook, Trade,
    WebSocketEndpoint,
};

verus! {

/// What the login signs: "api\nfutures.login\n\n" and the time.
pub open spec fn gate_login_message(timestamp: int) -> Seq<char> {
    "api\nfutures.login\n\n"@ + int_text(timestamp)
}

/// The login message at a time (whole seconds).
pub open spec fn gate_login_text(api_key: Seq<char>, signature: Seq<char>, timestamp: int) -> Seq<char> {
    "{\"channel\":\"futures.login\",\"event\":\"api\",\"id\":"@ + int_text(timestamp * 1_000_000)
        + ",\"payload\":{\"api_key\":"@ + quoted(api_key) + ",\"req_header\":{},\"req_id\":"@ + quoted(
        "login-"@ + int_text(timestamp),
    ) + ",\"signature\":"@ + quoted(signature) + ",\"timestamp\":"@ + quoted(int_text(timestamp)) + "},\"time\":"@
        + int_text(timestamp) + "}"@
}

/// A public subscription on a channel: `{"channel":..,"event":"subscribe"[,"id":..],"payload":[..],"time":..}`.
pub open spec fn gate_public_subscription_text(channel: Seq<char>, id: Option<u64>, symbols: Seq<String>, timestamp: int) -> Seq<char> {
    "{\"channel\":"@ + quoted(channel) + ",\"event\":\"subscribe\""@ + match id {
        Some(n) => ",\"id\":"@ + nat_digits(n as nat),
        None => Seq::empty(),
    } + ",\"payload\":["@ + prefixed_strings_text(Seq::empty(), symbols) + "],\"time\":"@ + int_text(timestamp) + "}"@
}

/// A private subscription on a channel for everything, with its authentication (null without a credential).
pub open spec fn gate_private_subscription_text(auth: Seq<char>, channel: Seq<char>, timestamp: int) -> Seq<char> {
    "{\"auth\":"@ + auth + ",\"channel\":"@ + quoted(channel) + ",\"event\":\"subscribe\",\"payload\":[\"!all\"],\"time\":"@
        + int_text(timestamp) + "}"@
}

pub open spec fn gate_auth_or_null(client: GateioPerpetualFuturesClient, channel: Seq<char>, timestamp: int) -> Seq<char> {
    match client.credential {
        Some(c) => gate_ws_auth_text(c, channel, "subscribe"@, timestamp),
        None => "null"@,
    }
}

/// The message's "result", where it has one.
pub open spec fn message_result(t: WebSocketText) -> Option<JsonValue> {
    match t.json_payload {
        Some(j) => spec_get(j, "result"@),
        None => None,
    }
}

/// Whether a header reports a successful login.
pub open spec fn login_header_ok(j: JsonValue) -> bool {
    spec_get(j, "header"@) matches Some(h) && spec_as_str(spec_at(h, "channel"@)) == Some("futures.login"@)
        && spec_as_str(spec_at(h, "status"@)) == Some("200"@)
}

/// What a book update must have: a result with its symbol ("s"), time ("t"), bid ("b") and ask ("a").
pub open spec fn gate_book_message_ok(t: WebSocketText) -> bool {
    message_result(t) matches Some(r) && has_str(r, "s"@) && spec_as_i64(spec_at(r, "t"@)) is Some && has_str(r, "b"@)
        && has_str(r, "a"@)
}

/// A member's text (strings as they are, other values as JSON), or empty where there is none.
pub open spec fn member_text_or_empty(v: JsonValue, key: Seq<char>) -> Seq<char> {
    match spec_get(v, key) {
        Some(m) => text_of(m),
        None => Seq::empty(),
    }
}

pub open spec fn gate_book_matches(b: TopOfBook, r: JsonValue) -> bool {
    &&& b.exchange_instrument_type == ExchangeInstrumentType::GateioPerpetualFutures
    &&& b.symbol@ == field_str(r, "s"@)
    &&& from_millis_or_epoch(b.timestamp, spec_as_i64(spec_at(r, "t"@))->0 as int)
    &&& b.bid_price@ == field_str(r, "b"@)
    &&& b.bid_size@ == member_text_or_empty(r, "B"@)
    &&& b.ask_price@ == field_str(r, "a"@)
    &&& b.ask_size@ == member_text_or_empty(r, "A"@)
}

/// The items of the message's "result" array (none where it is not an array).
pub open spec fn result_items(t: WebSocketText) -> Seq<JsonValue> {
    match message_result(t) {
        Some(r) => match spec_as_array(r) {
            Some(items) => items,
            None => Seq::empty(),
        },
        None => Seq::empty(),
    }
}

pub open spec fn has_result_array(t: WebSocketText) -> bool {
    message_result(t) matches Some(r) && spec_as_array(r) is Some
}

/// A trade's size: a string read as an integer, or an integer; zero otherwise.
pub open spec fn trade_size(v: JsonValue) -> int {
    match spec_get(v, "size"@) {
        Some(s) => match spec_as_str(s) {
            Some(text) => match parse_i64_spec(text) {
                Some(n) => n as int,
                None => 0,
            },
            None => match spec_as_i64(s) {
                Some(n) => n as int,
                None => 0,
            },
        },
        None => 0,
    }
}

pub open spec fn gate_trade_item_ok(v: JsonValue) -> bool {
    &&& has_str(v, "contract"@)
    &&& spec_as_i64(spec_at(v, "create_time_ms"@)) is Some
    &&& has_str(v, "price"@)
    &&& trade_size(v) != i64::MIN
}

pub open spec fn gate_taker_side_of_size(size: int) -> TakerSide {
    if size > 0 { TakerSide::Buy } else if size < 0 { TakerSide::Sell } else { TakerSide::Unknown }
}

pub open spec fn gate_trade_matches(t: Trade, v: JsonValue) -> bool {
    &&& t.exchange_instrument_type == ExchangeInstrumentType::GateioPerpetualFutures
    &&& t.symbol@ == field_str(v, "contract"@)
    &&& from_millis_or_epoch(t.timestamp, spec_as_i64(spec_at(v, "create_time_ms"@))->0 as int)
    &&& t.price@ == field_str(v, "price"@)
    &&& t.size@ == nat_digits(abs_int(trade_size(v)) as nat)
    &&& t.side == gate_taker_side_of_size(trade_size(v))
}

/// `value.get(key).and_then(as_i64).unwrap_or(0)`.
pub open spec fn get_i64_or_zero(v: JsonValue, key: Seq<char>) -> int {
    match spec_get(v, key) {
        Some(m) => match spec_as_i64(m) {
            Some(n) => n as int,
            None => 0,
        },
        None => 0,
    }
}

pub open spec fn gate_fill_matches(f: Fill, v: JsonValue) -> bool {
    let size = get_i64_or_zero(v, "size"@);
    &&& f.exchange_instrument_type == ExchangeInstrumentType::GateioPerpetualFutures
    &&& f.symbol@ == field_str(v, "contract"@)
    &&& f.order_id@ == field_str(v, "order_id"@)
    &&& f.client_order_id@ == field_str(v, "text"@)
    &&& f.side == gate_side_of_size(size)
    &&& f.price@ == field_str(v, "price"@)
    &&& f.quantity@ == nat_digits(abs_int(size) as nat)
    &&& f.quote_quantity@.len() == 0
    &&& f.is_maker == (spec_as_str(spec_at(v, "role"@)) == Some("maker"@))
}

/// The "id" of a message, as an unsigned integer.
pub open spec fn message_id(j: JsonValue) -> Option<u64> {
    match spec_get(j, "id"@) {
        Some(v) => spec_as_u64(v),
        None => None,
    }
}

fn result_items_exec(t: &WebSocketText) -> (r: Option<&Vec<JsonValue>>)
    ensures
        match r {
            Some(items) => result_items(*t) == items@,
            None => result_items(*t) == Seq::<JsonValue>::empty(),
        },
        has_result_array(*t) ==> r is Some,
{
    match &t.json_payload {
        Some(j) => match j.get("result") {
            Some(r) => r.as_array(),
            None => None,
        },
        None => None,
    }
}

/// Whether a book update's result has what its conversion reads.
fn book_message_ok(t: &WebSocketText) -> (r: bool)
    ensures
        r == gate_book_message_ok(*t),
{
    let res = match &t.json_payload {
        Some(j) => match j.get("result") {
            Some(res) => res,
            None => return false,
        },
        None => return false,
    };
    let time_ok = match res.at("t") {
        Some(x) => x.as_i64().is_some(),
        None => false,
    };
    res.has_str("s") && time_ok && res.has_str("b") && res.has_str("a")
}

/// The kinds of result item that an update's result array must hold.
pub enum ResultItemKind {
    Trade,
    Order,
    Fill,
}

pub open spec fn result_item_ok(kind: ResultItemKind, v: JsonValue) -> bool {
    match kind {
        ResultItemKind::Trade => gate_trade_item_ok(v),
        ResultItemKind::Order => gate_order_ok(v),
        ResultItemKind::Fill => get_i64_or_zero(v, "size"@) != i64::MIN,
    }
}

fn i64_or_zero_at(v: &JsonValue, key: &str) -> (r: i64)
    ensures
        r == get_i64_or_zero(*v, key@),
        r == crate::exchanges::gateio_perpetual_futures::common::i64_or_zero(*v, key@),
{
    match v.get(key) {
        Some(m) => match m.as_i64() {
            Some(n) => n,
            None => 0,
        },
        None => 0,
    }
}

fn result_item_ok_exec(kind: &ResultItemKind, v: &JsonValue) -> (r: bool)
    ensures
        r == result_item_ok(*kind, *v),
{
    match kind {
        ResultItemKind::Trade => {
            let time_ok = match v.at("create_time_ms") {
                Some(x) => x.as_i64().is_some(),
                None => false,
            };
            v.has_str("contract") && time_ok && v.has_str("price") && trade_size_exec(v) != i64::MIN
        },
        ResultItemKind::Order => i64_or_zero_at(v, "size") != i64::MIN && i64_or_zero_at(v, "left") != i64::MIN,
        ResultItemKind::Fill => i64_or_zero_at(v, "size") != i64::MIN,
    }
}

/// Whether an update has a result array whose every item is of the kind.
fn result_items_ok(t: &WebSocketText, kind: &ResultItemKind) -> (r: bool)
    ensures
        r == (has_result_array(*t) && forall|i: int| 0 <= i < result_items(*t).len() ==> result_item_ok(
            *kind,
            #[trigger] result_items(*t)[i],
        )),
{
    let items = match &t.json_payload {
        Some(j) => match j.get("result") {
            Some(res) => match res.as_array() {
                Some(items) => items,
                None => return false,
            },
            None => return false,
        },
        None => return false,
    };
    let mut i: usize = 0;
    while i < items.len()
        invariant
            i <= items@.len(),
            has_result_array(*t),
            result_items(*t) == items@,
            forall|k: int| 0 <= k < i ==> result_item_ok(*kind, #[trigger] items@[k]),
        decreases items.len() - i,
    {
        if !result_item_ok_exec(kind, &items[i]) {
            assert(result_items(*t)[i as int] == items@[i as int]);
            return false;
        }
        i = i + 1;
    }
    true
}

fn member_text_exec(v: &JsonValue, key: &str) -> (r: String)
    ensures
        r@ == member_text_or_empty(*v, key@),
{
    match v.get(key) {
        Some(m) => m.text_of(),
        None => String::new(),
    }
}

fn trade_size_exec(v: &JsonValue) -> (r: i64)
    ensures
        r == trade_size(*v),
{
    match v.get("size") {
        Some(s) => match s.as_str() {
            Some(text) => match parse_i64(text) {
                Some(n) => n,
                None => 0,
            },
            None => match s.as_i64() {
                Some(n) => n,
                None => 0,
            },
        },
        None => 0,
    }
}

fn abs_digits(n: i64) -> (r: String)
    requires
        n != i64::MIN,
    ensures
        r@ == nat_digits(abs_int(n as int) as nat),
{
    let a: i64 = if n < 0 { -n } else { n };
    u64_to_string(a as u64)
}

fn message_id_exec(j: &JsonValue) -> (r: Option<u64>)
    ensures
        r == message_id(*j),
{
    match j.get("id") {
        Some(v) => v.as_u64(),
        None => None,
    }
}

impl GateioPerpetualFuturesClient {
    /// The URL of the market-data or account-data endpoint.
    pub fn websocket_api_url(&self, endpoint: WebSocketEndpoint) -> (r: String)
        requires
            endpoint == WebSocketEndpoint::GateioPerpetualFutures(ExchangeWebSocketEndpoint::MarketData)
                || endpoint == WebSocketEndpoint::GateioPerpetualFutures(ExchangeWebSocketEndpoint::AccountData),
        ensures
            endpoint == WebSocketEndpoint::GateioPerpetualFutures(ExchangeWebSocketEndpoint::MarketData) ==> r
                == self.websocket_market_data_api_url,
            endpoint == WebSocketEndpoint::GateioPerpetualFutures(ExchangeWebSocketEndpoint::AccountData) ==> r
                == self.websocket_account_data_api_url,
    {
        match endpoint {
            WebSocketEndpoint::GateioPerpetualFutures(ExchangeWebSocketEndpoint::MarketData) => self.websocket_market_data_api_url.clone(),
            _ => self.websocket_account_data_api_url.clone(),
        }
    }

    /// The login message at a time (whole seconds), signed with the credential; empty without one.
    pub fn create_authenticate_websocket_request_at(&self, timestamp: i64) -> (r: String)
        requires
            -9_000_000_000_000 <= timestamp <= 9_000_000_000_000,
        ensures
            match self.credential {
                Some(c) => r@ == gate_login_text(
                    c.api_key@,
                    hex_text(hmac_sha512_tag(encode_utf8(c.api_secret@), encode_utf8(gate_login_message(timestamp as int)))),
                    timestamp as int,
                ),
                None => r@.len() == 0,
            },
    {
        let c = match &self.credential {
            Some(c) => c,
            None => return String::new(),
        };
        let ts = i64_to_string(timestamp);
        let mut message = string_from("api\nfutures.login\n\n");
        push_str(&mut message, ts.as_str());
        let signature = hex_encode(hmac_sha512(c.api_secret.as_str().as_bytes(), message.as_str().as_bytes()).as_slice());
        let id = i64_to_string(timestamp * 1_000_000);
        let mut req_id = string_from("login-");
        push_str(&mut req_id, ts.as_str());
        let mut s = string_from("{\"channel\":\"futures.login\",\"event\":\"api\",\"id\":");
        push_str(&mut s, id.as_str());
        push_str(&mut s, ",\"payload\":{\"api_key\":");
        write_quoted(c.api_key.as_str(), &mut s);
        push_str(&mut s, ",\"req_header\":{},\"req_id\":");
        write_quoted(req_id.as_str(), &mut s);
        push_str(&mut s, ",\"signature\":");
        write_quoted(signature.as_str(), &mut s);
        push_str(&mut s, ",\"timestamp\":");
        write_quoted(ts.as_str(), &mut s);
        push_str(&mut s, "},\"time\":");
        push_str(&mut s, ts.as_str());
        push_str(&mut s, "}");
        s
    }

    /// The login message, signed at the current time; empty without a credential.
    pub fn create_authenticate_websocket_request(&self) -> (r: String)
        ensures
            match self.credential {
                Some(c) => exists|t: int| r@ == #[trigger] gate_login_text(
                    c.api_key@,
                    hex_text(hmac_sha512_tag(encode_utf8(c.api_secret@), encode_utf8(gate_login_message(t)))),
                    t,
                ),
                None => r@.len() == 0,
            },
    {
        let now = utc_now();
        let r = self.create_authenticate_websocket_request_at(now.seconds);
        proof {
            if self.credential is Some {
                let c = self.credential->0;
                let t = now.seconds as int;
                assert(r@ == gate_login_text(
                    c.api_key@,
                    hex_text(hmac_sha512_tag(encode_utf8(c.api_secret@), encode_utf8(gate_login_message(t)))),
                    t,
                ));
            }
        }
        r
    }

    /// A ping at a time: `{"channel":"futures.ping","time":<seconds>}`.
    pub fn create_heartbeat_websocket_request_at(&self, timestamp: i64) -> (r: String)
        ensures
            r@ == "{\"channel\":\"futures.ping\",\"time\":"@ + int_text(timestamp as int) + "}"@,
    {
        let mut s = string_from("{\"channel\":\"futures.ping\",\"time\":");
        let ts = i64_to_string(timestamp);
        push_str(&mut s, ts.as_str());
        push_str(&mut s, "}");
        s
    }

    /// A ping at the current time.
    pub fn create_heartbeat_websocket_request(&self) -> (r: String)
        ensures
            exists|t: int| r@ == "{\"channel\":\"futures.ping\",\"time\":"@ + #[trigger] int_text(t) + "}"@,
    {
        let now = utc_now();
        self.create_heartbeat_websocket_request_at(now.seconds)
    }

    fn public_subscription(&self, channel: &str, id: Option<u64>, symbols: &Vec<String>, timestamp: i64) -> (r: String)
        ensures
            r@ == gate_public_subscription_text(channel@, id, symbols@, timestamp as int),
    {
        let mut s = string_from("{\"channel\":");
        write_quoted(channel, &mut s);
        push_str(&mut s, ",\"event\":\"subscribe\"");
        match id {
            Some(n) => {
                push_str(&mut s, ",\"id\":");
                let digits = u64_to_string(n);
                push_str(&mut s, digits.as_str());
            },
            None => {},
        }
        push_str(&mut s, ",\"payload\":[");
        write_prefixed_strings(&mut s, "", symbols);
        push_str(&mut s, "],\"time\":");
        let ts = i64_to_string(timestamp);
        push_str(&mut s, ts.as_str());
        push_str(&mut s, "}");
        proof {
            reveal_strlit("");
            assert(""@ =~= Seq::<char>::empty());
        }
        s
    }

    /// Subscribes to the best bid and ask ("futures.book_ticker") of the symbols at a time.
    pub fn create_subscribe_top_of_book_websocket_request_at(&self, request: &SubscribeTopOfBookRequest, timestamp: i64) -> (r: String)
        ensures
            r@ == gate_public_subscription_text("futures.book_ticker"@, request.id, request.symbols@, timestamp as int),
    {
        self.public_subscription("futures.book_ticker", request.id, &request.symbols, timestamp)
    }

    /// Subscribes to the trades ("futures.trades") of the symbols at a time.
    pub fn create_subscribe_trade_websocket_request_at(&self, request: &SubscribeTradeRequest, timestamp: i64) -> (r: String)
        ensures
            r@ == gate_public_subscription_text("futures.trades"@, request.id, request.symbols@, timestamp as int),
    {
        self.public_subscription("futures.trades", request.id, &request.symbols, timestamp)
    }

    fn private_subscription(&self, channel: &str, timestamp: i64) -> (r: String)
        ensures
            r@ == gate_private_subscription_text(gate_auth_or_null(*self, channel@, timestamp as int), channel@, timestamp as int),
    {
        let mut s = string_from("{\"auth\":");
        match self.sign_websocket_request(channel, "subscribe", timestamp) {
            Some(v) => v.write_text(&mut s),
            None => push_str(&mut s, "null"),
        }
        push_str(&mut s, ",\"channel\":");
        write_quoted(channel, &mut s);
        push_str(&mut s, ",\"event\":\"subscribe\",\"payload\":[\"!all\"],\"time\":");
        let ts = i64_to_string(timestamp);
        push_str(&mut s, ts.as_str());
        push_str(&mut s, "}");
        s
    }

    /// Subscribes to all the account's orders ("futures.orders") at a time, signed.
    pub fn create_subscribe_order_websocket_request_at(&self, _request: &SubscribeOrderRequest, timestamp: i64) -> (r: String)
        ensures
            r@ == gate_private_subscription_text(
                gate_auth_or_null(*self, "futures.orders"@, timestamp as int),
                "futures.orders"@,
                timestamp as int,
            ),
    {
        self.private_subscription("futures.orders", timestamp)
    }

    /// Subscribes to all the account's trades ("futures.usertrades") at a time, signed.
    pub fn create_subscribe_fill_websocket_request_at(&self, _request: &SubscribeFillRequest, timestamp: i64) -> (r: String)
        ensures
            r@ == gate_private_subscription_text(
                gate_auth_or_null(*self, "futures.usertrades"@, timestamp as int),
                "futures.usertrades"@,
                timestamp as int,
            ),
    {
        self.private_subscription("futures.usertrades", timestamp)
    }

    /// Subscribes to the best bid and ask of the symbols at the current time.
    pub fn create_subscribe_top_of_book_websocket_request(&self, request: &SubscribeTopOfBookRequest) -> (r: String)
        ensures
            exists|t: int| r@ == #[trigger] gate_public_subscription_text("futures.book_ticker"@, request.id, request.symbols@, t),
    {
        let now = utc_now();
        self.create_subscribe_top_of_book_websocket_request_at(request, now.seconds)
    }

    /// Subscribes to the trades of the symbols at the current time.
    pub fn create_subscribe_trade_websocket_request(&self, request: &SubscribeTradeRequest) -> (r: String)
        ensures
            exists|t: int| r@ == #[trigger] gate_public_subscription_text("futures.trades"@, request.id, request.symbols@, t),
    {
        let now = utc_now();
        self.create_subscribe_trade_websocket_request_at(request, now.seconds)
    }

    /// Subscribes to all the account's orders at the current time, signed.
    pub fn create_subscribe_order_websocket_request(&self, request: &SubscribeOrderRequest) -> (r: String)
        ensures
            exists|t: int| r@ == #[trigger] gate_private_subscription_text(
                gate_auth_or_null(*self, "futures.orders"@, t),
                "futures.orders"@,
                t,
            ),
    {
        let now = utc_now();
        self.create_subscribe_order_websocket_request_at(request, now.seconds)
    }

    /// Subscribes to all the account's trades at the current time, signed.
    pub fn create_subscribe_fill_websocket_request(&self, request: &SubscribeFillRequest) -> (r: String)
        ensures
            exists|t: int| r@ == #[trigger] gate_private_subscription_text(
                gate_auth_or_null(*self, "futures.usertrades"@, t),
                "futures.usertrades"@,
                t,
            ),
    {
        let now = utc_now();
        self.create_subscribe_fill_websocket_request_at(request, now.seconds)
    }

    /// The message with its "channel", "event", "error", the result's "status", and a successful login flag in its summary.
    pub open spec fn summarized(&self, o: WebSocketText, n: WebSocketText) -> bool {
        &&& n.url == o.url
        &&& n.text == o.text
        &&& n.json_payload == o.json_payload
        &&& n.error_code == o.error_code
        &&& n.error_message == o.error_message
        &&& match o.json_payload {
                Some(j) => {
                    &&& n.summary("channel"@) == match spec_get(j, "channel"@) {
                        Some(v) => Some(text_of(v)),
                        None => o.summary("channel"@),
                    }
                    &&& n.summary("event"@) == match spec_get(j, "event"@) {
                        Some(v) => Some(text_of(v)),
                        None => o.summary("event"@),
                    }
                    &&& n.summary("error"@) == match spec_get(j, "error"@) {
                        Some(v) => Some(text_of(v)),
                        None => o.summary("error"@),
                    }
                    &&& n.summary("result.status"@) == match spec_get(j, "result"@) {
                        Some(res) => match spec_get(res, "status"@) {
                            Some(st) => Some(str_or(st, Seq::empty())),
                            None => o.summary("result.status"@),
                        },
                        None => o.summary("result.status"@),
                    }
                    &&& n.summary("login_success"@) == if login_header_ok(j) {
                        Some("true"@)
                    } else {
                        o.summary("login_success"@)
                    }
                    &&& forall|k: Seq<char>| k != "channel"@ && k != "event"@ && k != "error"@ && k != "result.status"@ && k
                        != "login_success"@ ==> n.summary(k) == o.summary(k)
                },
                None => n.payload_summary == o.payload_summary,
            }
    }

    /// Records "channel", "event" and "error" (strings as they are, other values as JSON
    /// text), the result's "status" (empty where it is not a string), and "login_success"
    /// "true" for a header reporting a successful login.
    pub fn populate_websocket_text_payload_summary(&self, websocket_text: &mut WebSocketText)
        ensures
            self.summarized(*old(websocket_text), *final(websocket_text)),
    {
        proof {
            reveal_strlit("channel");
            reveal_strlit("event");
            reveal_strlit("error");
            reveal_strlit("result.status");
            reveal_strlit("login_success");
            assert("channel"@.len() == 7 && "event"@.len() == 5 && "error"@.len() == 5 && "event"@[1] != "error"@[1]);
            assert("result.status"@.len() == 13 && "login_success"@.len() == 13 && "result.status"@[0] != "login_success"@[0]);
        }
        let json = match &websocket_text.json_payload {
            Some(j) => j,
            None => return,
        };
        let channel = match json.get("channel") {
            Some(v) => Some(v.text_of()),
            None => None,
        };
        let event = match json.get("event") {
            Some(v) => Some(v.text_of()),
            None => None,
        };
        let error = match json.get("error") {
            Some(v) => Some(v.text_of()),
            None => None,
        };
        let status = match json.get("result") {
            Some(res) => match res.get("status") {
                Some(st) => match st.as_str() {
                    Some(s) => Some(string_from(s)),
                    None => Some(String::new()),
                },
                None => None,
            },
            None => None,
        };
        let login = match json.get("header") {
            Some(h) => {
                let channel_is_login = match h.at("channel") {
                    Some(c) => match c.as_str() {
                        Some(s) => str_eq(s, "futures.login"),
                        None => false,
                    },
                    None => false,
                };
                let status_is_200 = match h.at("status") {
                    Some(c) => match c.as_str() {
                        Some(s) => str_eq(s, "200"),
                        None => false,
                    },
                    None => false,
                };
                channel_is_login && status_is_200
            },
            None => false,
        };
        match channel {
            Some(v) => websocket_text.payload_summary.insert(string_from("channel"), v),
            None => {},
        }
        match event {
            Some(v) => websocket_text.payload_summary.insert(string_from("event"), v),
            None => {},
        }
        match error {
            Some(v) => websocket_text.payload_summary.insert(string_from("error"), v),
            None => {},
        }
        match status {
            Some(v) => websocket_text.payload_summary.insert(string_from("result.status"), v),
            None => {},
        }
        if login {
            websocket_text.payload_summary.insert(string_from("login_success"), string_from("true"));
        }
    }

    /// What a summarized message comes to: data of the channel's kind (None where it lacks
    /// what its conversion reads, or has no known channel), an acknowledgement, or an error.
    pub open spec fn handled(&self, t: WebSocketText, r: Option<Response>) -> bool {
        let channel = t.summary("channel"@);
        if t.summary("event"@) == Some("update"@) {
            if channel == Some("futures.book_ticker"@) {
                if gate_book_message_ok(t) { r matches Some(x) && self.top_of_book_data(t, x) } else { r is None }
            } else if channel == Some("futures.trades"@) {
                if has_result_array(t) && forall|i: int| 0 <= i < result_items(t).len() ==> gate_trade_item_ok(
                    #[trigger] result_items(t)[i],
                ) {
                    r matches Some(x) && self.trade_data(t, x)
                } else {
                    r is None
                }
            } else if channel == Some("futures.orders"@) {
                if has_result_array(t) && forall|i: int| 0 <= i < result_items(t).len() ==> gate_order_ok(
                    #[trigger] result_items(t)[i],
                ) {
                    r matches Some(x) && self.order_data(t, x)
                } else {
                    r is None
                }
            } else if channel == Some("futures.usertrades"@) {
                if has_result_array(t) && forall|i: int| 0 <= i < result_items(t).len() ==> get_i64_or_zero(
                    #[trigger] result_items(t)[i],
                    "size"@,
                ) != i64::MIN {
                    r matches Some(x) && self.fill_data(t, x)
                } else {
                    r is None
                }
            } else {
                r is None
            }
        } else if t.summary("result.status"@) == Some("success"@) || channel == Some("futures.pong"@) || t.summary(
            "login_success"@,
        ) == Some("true"@) {
            if t.json_payload is None {
                r is None
            } else if channel == Some("futures.pong"@) {
                r matches Some(x) && self.heartbeat_response(t, x)
            } else if t.summary("event"@) == Some("subscribe"@) && t.summary("result.status"@) == Some("success"@) {
                r matches Some(x) && self.subscribe_response(t, x)
            } else if t.summary("login_success"@) == Some("true"@) {
                r matches Some(x) && self.authenticate_response(t, x)
            } else {
                r is None
            }
        } else {
            r matches Some(x) && self.websocket_error_response(t, x)
        }
    }

    /// A message as it was read (its text parsed as JSON where it is JSON, its summary
    /// empty), summarized and then classified: data of a channel, an acknowledgement, or
    /// an error. None for data of no known channel or without what its conversion reads,
    /// and for a successful result of no known kind.
    pub fn handle_websocket_text(&self, websocket_text: WebSocketText) -> (r: Option<Response>)
        ensures
            exists|t: WebSocketText| #[trigger] self.summarized(websocket_text, t) && self.handled(t, r),
    {
        let mut websocket_text = websocket_text;
        self.populate_websocket_text_payload_summary(&mut websocket_text);
        if self.is_websocket_text_subscription_data(&websocket_text) {
            if self.is_websocket_text_top_of_book_subscription_data(&websocket_text) {
                if book_message_ok(&websocket_text) {
                    Some(self.create_subscribe_top_of_book_websocket_subscription_data(&websocket_text))
                } else {
                    None
                }
            } else if self.is_websocket_text_trade_subscription_data(&websocket_text) {
                if result_items_ok(&websocket_text, &ResultItemKind::Trade) {
                    Some(self.create_subscribe_trade_websocket_subscription_data(&websocket_text))
                } else {
                    None
                }
            } else if self.is_websocket_text_order_subscription_data(&websocket_text) {
                if result_items_ok(&websocket_text, &ResultItemKind::Order) {
                    Some(self.create_subscribe_order_websocket_subscription_data(&websocket_text))
                } else {
                    None
                }
            } else if self.is_websocket_text_fill_subscription_data(&websocket_text) {
                if result_items_ok(&websocket_text, &ResultItemKind::Fill) {
                    Some(self.create_subscribe_fill_websocket_subscription_data(&websocket_text))
                } else {
                    None
                }
            } else if self.is_unexpected_websocket_text_subscription_data_benign(&websocket_text) {
                Some(Response::Unneeded(websocket_text))
            } else {
                None
            }
        } else if self.is_websocket_text_success_response(&websocket_text) {
            if websocket_text.json_payload.is_none() {
                None
            } else if self.is_websocket_text_heartbeat_response(&websocket_text) {
                Some(self.create_heartbeat_websocket_response(&websocket_text))
            } else if self.is_websocket_text_subscribe_success_response(&websocket_text) {
                Some(self.create_subscribe_websocket_response(&websocket_text))
            } else if self.is_websocket_text_authenticate_success_response(&websocket_text) {
                Some(self.create_authenticate_websocket_response(&websocket_text))
            } else {
                None
            }
        } else {
            let ghost t = websocket_text;
            let e = self.create_websocket_error_response(websocket_text);
            assert(self.handled(t, Some(e)));
            Some(e)
        }
    }

    /// An "update" event.
    pub fn is_websocket_text_subscription_data(&self, websocket_text: &WebSocketText) -> (r: bool)
        ensures
            r == (websocket_text.summary("event"@) == Some("update"@)),
    {
        websocket_text.summary_is("event", "update")
    }

    pub fn is_websocket_text_top_of_book_subscription_data(&self, websocket_text: &WebSocketText) -> (r: bool)
        ensures
            r == (websocket_text.summary("channel"@) == Some("futures.book_ticker"@)),
    {
        websocket_text.summary_is("channel", "futures.book_ticker")
    }

    pub fn is_websocket_text_trade_subscription_data(&self, websocket_text: &WebSocketText) -> (r: bool)
        ensures
            r == (websocket_text.summary("channel"@) == Some("futures.trades"@)),
    {
        websocket_text.summary_is("channel", "futures.trades")
    }

    pub fn is_websocket_text_order_subscription_data(&self, websocket_text: &WebSocketText) -> (r: bool)
        ensures
            r == (websocket_text.summary("channel"@) == Some("futures.orders"@)),
    {
        websocket_text.summary_is("channel", "futures.orders")
    }

    pub fn is_websocket_text_fill_subscription_data(&self, websocket_text: &WebSocketText) -> (r: bool)
        ensures
            r == (websocket_text.summary("channel"@) == Some("futures.usertrades"@)),
    {
        websocket_text.summary_is("channel", "futures.usertrades")
    }

    pub fn is_unexpected_websocket_text_subscription_data_benign(&self, _websocket_text: &WebSocketText) -> (r: bool)
        ensures
            !r,
    {
        false
    }

    /// The best bid and ask of the result.
    pub open spec fn top_of_book_data(&self, websocket_text: WebSocketText, r: Response) -> bool {
        &&& r matches Response::TopOfBookSubscription(d) && d.data@.len() == 1 && gate_book_matches(
                d.data@[0],
                message_result(websocket_text)->0,
            )
    }

    /// The best bid and ask of the result.
    pub fn create_subscribe_top_of_book_websocket_subscription_data(&self, websocket_text: &WebSocketText) -> (r: Response)
        requires
            gate_book_message_ok(*websocket_text),
        ensures
            self.top_of_book_data(*websocket_text, r),
    {
        let json = websocket_text.json_payload.as_ref().unwrap();
        let result = json.get("result").unwrap();
        let millis: i64 = result.at("t").unwrap().as_i64().unwrap();
        let book = TopOfBook {
            exchange_instrument_type: ExchangeInstrumentType::GateioPerpetualFutures,
            symbol: result.required_str("s"),
            timestamp: timestamp_from_millis_or_epoch(millis),
            bid_price: result.required_str("b"),
            bid_size: member_text_exec(result, "B"),
            ask_price: result.required_str("a"),
            ask_size: member_text_exec(result, "A"),
        };
        let mut data: Vec<TopOfBook> = Vec::new();
        data.push(book);
        Response::TopOfBookSubscription(TopOfBookSubscriptionData { data })
    }

    /// A trade per result item.
    pub open spec fn trade_data(&self, websocket_text: WebSocketText, r: Response) -> bool {
        &&& r matches Response::TradeSubscription(d) && d.data@.len() == result_items(websocket_text).len()
                && forall|i: int| 0 <= i < d.data@.len() ==> gate_trade_matches(
                #[trigger] d.data@[i],
                result_items(websocket_text)[i],
            )
    }

    /// One trade per result item: the size's sign is the taker's side.
    pub fn create_subscribe_trade_websocket_subscription_data(&self, websocket_text: &WebSocketText) -> (r: Response)
        requires
            has_result_array(*websocket_text),
            forall|i: int| 0 <= i < result_items(*websocket_text).len() ==> gate_trade_item_ok(
                #[trigger] result_items(*websocket_text)[i],
            ),
        ensures
            self.trade_data(*websocket_text, r),
    {
        let items = result_items_exec(websocket_text).unwrap();
        let mut data: Vec<Trade> = Vec::new();
        let mut i: usize = 0;
        while i < items.len()
            invariant
                result_items(*websocket_text) == items@,
                forall|k: int| 0 <= k < items@.len() ==> gate_trade_item_ok(#[trigger] items@[k]),
                i <= items@.len(),
                data@.len() == i,
                forall|k: int| 0 <= k < i ==> gate_trade_matches(#[trigger] data@[k], items@[k]),
            decreases items.len() - i,
        {
            let v = &items[i];
            assert(gate_trade_item_ok(items@[i as int]));
            let size = trade_size_exec(v);
            let millis: i64 = v.at("create_time_ms").unwrap().as_i64().unwrap();
            let side = if size > 0 { TakerSide::Buy } else if size < 0 { TakerSide::Sell } else { TakerSide::Unknown };
            let trade = Trade {
                exchange_instrument_type: ExchangeInstrumentType::GateioPerpetualFutures,
                symbol: v.required_str("contract"),
                timestamp: timestamp_from_millis_or_epoch(millis),
                price: v.required_str("price"),
                size: abs_digits(size),
                side,
            };
            data.push(trade);
            i = i + 1;
        }
        Response::TradeSubscription(TradeSubscriptionData { data })
    }

    /// An order per result item.
    pub open spec fn order_data(&self, websocket_text: WebSocketText, r: Response) -> bool {
        &&& r matches Response::OrderSubscription(d) && d.data@.len() == result_items(websocket_text).len()
                && forall|i: int| 0 <= i < d.data@.len() ==> gate_order_matches(
                #[trigger] d.data@[i],
                result_items(websocket_text)[i],
            )
    }

    /// One order per result item.
    pub fn create_subscribe_order_websocket_subscription_data(&self, websocket_text: &WebSocketText) -> (r: Response)
        requires
            has_result_array(*websocket_text),
            forall|i: int| 0 <= i < result_items(*websocket_text).len() ==> gate_order_ok(
                #[trigger] result_items(*websocket_text)[i],
            ),
        ensures
            self.order_data(*websocket_text, r),
    {
        let items = result_items_exec(websocket_text).unwrap();
        let mut data: Vec<Order> = Vec::new();
        let mut i: usize = 0;
        while i < items.len()
            invariant
                result_items(*websocket_text) == items@,
                forall|k: int| 0 <= k < items@.len() ==> gate_order_ok(#[trigger] items@[k]),
                i <= items@.len(),
                data@.len() == i,
                forall|k: int| 0 <= k < i ==> gate_order_matches(#[trigger] data@[k], items@[k]),
            decreases items.len() - i,
        {
            let o = self.convert_json_value_to_order(&items[i]);
            data.push(o);
            i = i + 1;
        }
        Response::OrderSubscription(OrderSubscriptionData { data })
    }

    /// A fill per result item.
    pub open spec fn fill_data(&self, websocket_text: WebSocketText, r: Response) -> bool {
        &&& r matches Response::FillSubscription(d) && d.data@.len() == result_items(websocket_text).len()
                && forall|i: int| 0 <= i < d.data@.len() ==> gate_fill_matches(
                #[trigger] d.data@[i],
                result_items(websocket_text)[i],
            )
    }

    /// One fill per result item: the size's sign is the side, "role" "maker" a maker fill.
    pub fn create_subscribe_fill_websocket_subscription_data(&self, websocket_text: &WebSocketText) -> (r: Response)
        requires
            has_result_array(*websocket_text),
            forall|i: int| 0 <= i < result_items(*websocket_text).len() ==> get_i64_or_zero(
                #[trigger] result_items(*websocket_text)[i],
                "size"@,
            ) != i64::MIN,
        ensures
            self.fill_data(*websocket_text, r),
    {
        let items = result_items_exec(websocket_text).unwrap();
        let mut data: Vec<Fill> = Vec::new();
        let mut i: usize = 0;
        while i < items.len()
            invariant
                result_items(*websocket_text) == items@,
                forall|k: int| 0 <= k < items@.len() ==> get_i64_or_zero(#[trigger] items@[k], "size"@) != i64::MIN,
                i <= items@.len(),
                data@.len() == i,
                forall|k: int| 0 <= k < i ==> gate_fill_matches(#[trigger] data@[k], items@[k]),
            decreases items.len() - i,
        {
            let v = &items[i];
            assert(get_i64_or_zero(items@[i as int], "size"@) != i64::MIN);
            let size: i64 = match v.get("size") {
                Some(m) => match m.as_i64() {
                    Some(n) => n,
                    None => 0,
                },
                None => 0,
            };
            let is_maker = match v.at("role") {
                Some(m) => match m.as_str() {
                    Some(s) => str_eq(s, "maker"),
                    None => false,
                },
                None => false,
            };
            let fill = Fill {
                exchange_instrument_type: ExchangeInstrumentType::GateioPerpetualFutures,
                symbol: v.field_str("contract"),
                order_id: v.field_str("order_id"),
                client_order_id: v.field_str("text"),
                side: self.get_order_side_from_size(size),
                price: v.field_str("price"),
                quantity: abs_digits(size),
                quote_quantity: String::new(),
                is_maker,
            };
            data.push(fill);
            i = i + 1;
        }
        Response::FillSubscription(FillSubscriptionData { data })
    }

    /// A successful result, a pong, or a successful login.
    pub fn is_websocket_text_success_response(&self, websocket_text: &WebSocketText) -> (r: bool)
        ensures
            r == (websocket_text.summary("result.status"@) == Some("success"@) || websocket_text.summary("channel"@)
                == Some("futures.pong"@) || websocket_text.summary("login_success"@) == Some("true"@)),
    {
        websocket_text.summary_is("result.status", "success") || websocket_text.summary_is("channel", "futures.pong")
            || websocket_text.summary_is("login_success", "true")
    }

    pub fn is_websocket_text_authenticate_success_response(&self, websocket_text: &WebSocketText) -> (r: bool)
        ensures
            r == (websocket_text.summary("login_success"@) == Some("true"@)),
    {
        websocket_text.summary_is("login_success", "true")
    }

    pub fn is_websocket_text_subscribe_success_response(&self, websocket_text: &WebSocketText) -> (r: bool)
        ensures
            r == (websocket_text.summary("event"@) == Some("subscribe"@) && websocket_text.summary("result.status"@)
                == Some("success"@)),
    {
        websocket_text.summary_is("event", "subscribe") && websocket_text.summary_is("result.status", "success")
    }

    pub fn is_websocket_text_heartbeat_response(&self, websocket_text: &WebSocketText) -> (r: bool)
        ensures
            r == (websocket_text.summary("channel"@) == Some("futures.pong"@)),
    {
        websocket_text.summary_is("channel", "futures.pong")
    }

    /// The message's id.
    pub open spec fn authenticate_response(&self, websocket_text: WebSocketText, r: Response) -> bool {
        &&& r matches Response::Authenticate(a) && a.id == message_id(websocket_text.json_payload->0)
    }

    pub fn create_authenticate_websocket_response(&self, websocket_text: &WebSocketText) -> (r: Response)
        requires
            websocket_text.json_payload is Some,
        ensures
            self.authenticate_response(*websocket_text, r),
    {
        let json = websocket_text.json_payload.as_ref().unwrap();
        Response::Authenticate(AuthenticateResponse { id: message_id_exec(json) })
    }

    /// The message's id; no symbols and no kind.
    pub open spec fn subscribe_response(&self, websocket_text: WebSocketText, r: Response) -> bool {
        &&& r matches Response::Subscribe(s) && s.id == message_id(websocket_text.json_payload->0) && s.symbols@.len()
                == 0 && s.kind is None
    }

    pub fn create_subscribe_websocket_response(&self, websocket_text: &WebSocketText) -> (r: Response)
        requires
            websocket_text.json_payload is Some,
        ensures
            self.subscribe_response(*websocket_text, r),
    {
        let json = websocket_text.json_payload.as_ref().unwrap();
        Response::Subscribe(SubscribeResponse { id: message_id_exec(json), symbols: Vec::new(), kind: None })
    }

    /// The message's id.
    pub open spec fn heartbeat_response(&self, websocket_text: WebSocketText, r: Response) -> bool {
        &&& r matches Response::Heartbeat(h) && h.id == message_id(websocket_text.json_payload->0)
    }

    pub fn create_heartbeat_websocket_response(&self, websocket_text: &WebSocketText) -> (r: Response)
        requires
            websocket_text.json_payload is Some,
        ensures
            self.heartbeat_response(*websocket_text, r),
    {
        let json = websocket_text.json_payload.as_ref().unwrap();
        Response::Heartbeat(HeartbeatResponse { id: message_id_exec(json) })
    }

    /// The message with its error object's code and message, where it has one.
    pub open spec fn websocket_error_response(&self, websocket_text: WebSocketText, r: Response) -> bool {
        &&& r matches Response::WebSocketErrorResponse(t) && t.url == websocket_text.url && t.text
                == websocket_text.text && t.json_payload == websocket_text.json_payload
                && t.payload_summary == websocket_text.payload_summary && match websocket_text.json_payload {
                Some(j) => match spec_get(j, "error"@) {
                    Some(JsonValue::Object(e)) => opt_view(t.error_code) == (match spec_get(JsonValue::Object(e), "code"@) {
                        Some(c) => Some(json_text(c)),
                        None => None,
                    }) && opt_view(t.error_message) == (match spec_get(JsonValue::Object(e), "message"@) {
                        Some(m) => spec_as_str(m),
                        None => None,
                    }),
                    _ => t.error_code == websocket_text.error_code && t.error_message == websocket_text.error_message,
                },
                None => t.error_code == websocket_text.error_code && t.error_message == websocket_text.error_message,
            }
    }

    /// Where the message has an "error" object: its "code" as JSON text and its "message".
    pub fn create_websocket_error_response(&self, websocket_text: WebSocketText) -> (r: Response)
        ensures
            self.websocket_error_response(websocket_text, r),
    {
        let mut t = websocket_text;
        let (code, message, found) = match &t.json_payload {
            Some(j) => match j.get("error") {
                Some(e) => match e {
                    JsonValue::Object(_) => (
                        match e.get("code") {
                            Some(c) => Some(c.to_text()),
                            None => None,
                        },
                        match e.get("message") {
                            Some(m) => match m.as_str() {
                                Some(s) => Some(string_from(s)),
                                None => None,
                            },
                            None => None,
                        },
                        true,
                    ),
                    _ => (None, None, false),
                },
                None => (None, None, false),
            },
            None => (None, None, false),
        };
        if found {
            t.error_code = code;
            t.error_message = message;
        }
        Response::WebSocketErrorResponse(t)
    }
}

} // verus!
