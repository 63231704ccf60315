//! Bybit's websocket API: authentication, subscriptions, and the messages it sends.

use vstd::prelude::*;
use vstd::utf8::encode_utf8;
use crate::exchange_client::common::{
    AuthenticateResponse, FillSubscriptionData, HeartbeatResponse, OrderSubscriptionData, Response,
    SubscribeFillRequest, SubscribeOrderRequest, SubscribeResponse, SubscribeTopOfBookRequest, SubscribeTradeRequest,
    TopOfBookSubscriptionData, TradeSubscriptionData,
};
use crate::exchanges::bybit::common::{bybit_order_matches, bybit_order_ok, BybitClient};
use crate::json::{
    array_at, field_str, has_str, quoted, spec_as_array, spec_as_bool, spec_as_i64, spec_as_str, spec_as_u64, spec_at,
    spec_get, prefixed_strings_text, write_prefixed_strings, write_quoted, JsonValue,
};
use crate::networking::http::opt_view;
use crate::networking::websocket::WebSocketText;
use crate::signing::{hex_encode, hex_text, hmac_sha256, hmac_sha256_tag};
use crate::text::{
    after_last, after_last_char, i64_to_string, int_text, nat_digits, parse_u64, parse_u64_spec, push_str, str_eq,
    string_from, u64_to_string,
};
use crate::time::{from_millis_or_epoch, millis_of, timestamp_from_millis_or_epoch, timestamp_millis, timestamp_valid, utc_now};
use crate::types::{
    ExchangeInstrumentType, ExchangeWebSocketEndpoint, Fill, Order, OrderSide, TakerSide, Timestamp, TopOfBook, Trade,
    WebSocketEndpoint,
};

verus! {

/// `{"args":[<key>,<expires>,<signature>],"op":"auth"}`.
pub open spec fn bybit_auth_text(api_key: Seq<char>, expires: int, signature: Seq<char>) -> Seq<char> {
    "{\"args\":["@ + quoted(api_key) + ","@ + int_text(expires) + ","@ + quoted(signature) + "],\"op\":\"auth\"}"@
}

/// The hex HMAC-SHA256 of "GET/realtime" and the expiry time.
pub open spec fn bybit_auth_sign(api_secret: Seq<char>, expires: int) -> Seq<char> {
    hex_text(hmac_sha256_tag(encode_utf8(api_secret), encode_utf8("GET/realtime"@ + int_text(expires))))
}

/// `{"op":"ping","req_id":"<millis>"}`.
pub open spec fn bybit_ping_text(millis: int) -> Seq<char> {
    "{\"op\":\"ping\",\"req_id\":"@ + quoted(int_text(millis)) + "}"@
}

/// `{"args":[<topics>],"op":"subscribe"}`, with `"req_id":"<id>"` last where there is an id.
pub open spec fn bybit_subscribe_text(topics: Seq<char>, id: Option<u64>) -> Seq<char> {
    "{\"args\":["@ + topics + "],\"op\":\"subscribe\""@ + match id {
        Some(n) => ",\"req_id\":"@ + quoted(nat_digits(n as nat)),
        None => Seq::empty(),
    } + "}"@
}

/// The most that the receive window can be for every valid time to leave room for it.
pub open spec fn window_fits(window: i64) -> bool {
    -9_000_000_000_000_000_000 <= window <= 9_000_000_000_000_000_000
}

/// The message's "topic", where it is a string.
pub open spec fn message_topic(t: WebSocketText) -> Option<Seq<char>> {
    match t.json_payload {
        Some(j) => spec_as_str(spec_at(j, "topic"@)),
        None => None,
    }
}

/// The n-th string of the first level of a side of the book.
pub open spec fn level_str(d: JsonValue, side: Seq<char>, n: int) -> Option<Seq<char>> {
    match spec_get(d, side) {
        Some(s) => match array_at(s, 0) {
            Some(l) => match array_at(l, n) {
                Some(x) => spec_as_str(x),
                None => None,
            },
            None => None,
        },
        None => None,
    }
}

/// What a book update must have: a topic, "cts" as an integer, and a first bid and ask
/// level of two strings each.
pub open spec fn bybit_book_message_ok(t: WebSocketText) -> bool {
    &&& t.json_payload matches Some(j)
    &&& has_str(j, "topic"@)
    &&& spec_as_i64(spec_at(j, "cts"@)) is Some
    &&& spec_get(j, "data"@) matches Some(d) && level_str(d, "b"@, 0) is Some && level_str(d, "b"@, 1) is Some
        && level_str(d, "a"@, 0) is Some && level_str(d, "a"@, 1) is Some
}

pub open spec fn bybit_book_matches(b: TopOfBook, j: JsonValue, t: crate::types::BybitInstrumentType) -> bool {
    let d = spec_at(j, "data"@);
    &&& b.exchange_instrument_type == ExchangeInstrumentType::Bybit(t)
    &&& b.symbol@ == after_last(field_str(j, "topic"@), '.')
    &&& from_millis_or_epoch(b.timestamp, spec_as_i64(spec_at(j, "cts"@))->0 as int)
    &&& b.bid_price@ == level_str(d, "b"@, 0)->0
    &&& b.bid_size@ == level_str(d, "b"@, 1)->0
    &&& b.ask_price@ == level_str(d, "a"@, 0)->0
    &&& b.ask_size@ == level_str(d, "a"@, 1)->0
}

/// The items of the message's "data" array (none where it is not an array).
pub open spec fn bybit_data_items(t: WebSocketText) -> Seq<JsonValue> {
    match t.json_payload {
        Some(j) => match spec_as_array(spec_at(j, "data"@)) {
            Some(items) => items,
            None => Seq::empty(),
        },
        None => Seq::empty(),
    }
}

pub open spec fn has_data_array(t: WebSocketText) -> bool {
    t.json_payload matches Some(j) && spec_as_array(spec_at(j, "data"@)) is Some
}

pub open spec fn bybit_trade_item_ok(v: JsonValue) -> bool {
    spec_as_i64(spec_at(v, "T"@)) is Some && has_str(v, "p"@) && has_str(v, "v"@)
}

pub open spec fn bybit_trade_message_ok(t: WebSocketText) -> bool {
    &&& t.json_payload matches Some(j) && has_str(j, "topic"@)
    &&& has_data_array(t)
    &&& forall|i: int| 0 <= i < bybit_data_items(t).len() ==> bybit_trade_item_ok(#[trigger] bybit_data_items(t)[i])
}

pub open spec fn bybit_taker_side_of(s: Option<Seq<char>>) -> TakerSide {
    if s == Some("Buy"@) {
        TakerSide::Buy
    } else if s == Some("Sell"@) {
        TakerSide::Sell
    } else {
        TakerSide::Unknown
    }
}

pub open spec fn bybit_trade_matches(r: Trade, v: JsonValue, symbol: Seq<char>, t: crate::types::BybitInstrumentType) -> bool {
    &&& r.exchange_instrument_type == ExchangeInstrumentType::Bybit(t)
    &&& r.symbol@ == symbol
    &&& from_millis_or_epoch(r.timestamp, spec_as_i64(spec_at(v, "T"@))->0 as int)
    &&& r.price@ == field_str(v, "p"@)
    &&& r.size@ == field_str(v, "v"@)
    &&& r.side == bybit_taker_side_of(spec_as_str(spec_at(v, "S"@)))
}

pub open spec fn bybit_fill_item_ok(v: JsonValue) -> bool {
    &&& has_str(v, "orderId"@)
    &&& has_str(v, "symbol"@)
    &&& has_str(v, "orderLinkId"@)
    &&& has_str(v, "execPrice"@)
    &&& has_str(v, "execQty"@)
    &&& has_str(v, "execValue"@)
    &&& spec_as_bool(spec_at(v, "isMaker"@)) is Some
}

pub open spec fn bybit_fill_side_of(s: Option<Seq<char>>) -> OrderSide {
    if s == Some("Buy"@) {
        OrderSide::Buy
    } else if s == Some("Sell"@) {
        OrderSide::Sell
    } else {
        OrderSide::Unknown
    }
}

pub open spec fn bybit_fill_matches(f: Fill, v: JsonValue, t: crate::types::BybitInstrumentType) -> bool {
    &&& f.exchange_instrument_type == ExchangeInstrumentType::Bybit(t)
    &&& f.symbol@ == field_str(v, "symbol"@)
    &&& f.order_id@ == field_str(v, "orderId"@)
    &&& f.client_order_id@ == field_str(v, "orderLinkId"@)
    &&& f.side == bybit_fill_side_of(spec_as_str(spec_at(v, "side"@)))
    &&& f.price@ == field_str(v, "execPrice"@)
    &&& f.quantity@ == field_str(v, "execQty"@)
    &&& f.quote_quantity@ == field_str(v, "execValue"@)
    &&& f.is_maker == spec_as_bool(spec_at(v, "isMaker"@))->0
}

/// The request id of a message: "req_id" as an unsigned integer.
pub open spec fn req_id_of(j: JsonValue) -> Option<u64> {
    match spec_get(j, "req_id"@) {
        Some(v) => spec_as_u64(v),
        None => None,
    }
}

/// The id of a pong: "req_id" as a number or as the text of one, else the first of its
/// "args" read as a number.
pub open spec fn pong_id_of(j: JsonValue) -> Option<u64> {
    let first = match spec_get(j, "req_id"@) {
        Some(v) => match spec_as_str(v) {
            Some(s) => if s.len() == 0 { None } else { parse_u64_spec(s) },
            None => spec_as_u64(v),
        },
        None => None,
    };
    match first {
        Some(n) => Some(n),
        None => match spec_get(j, "args"@) {
            Some(a) => match array_at(a, 0) {
                Some(x) => match spec_as_str(x) {
                    Some(s) => parse_u64_spec(s),
                    None => None,
                },
                None => None,
            },
            None => None,
        },
    }
}

fn subscribe_topics(prefix: &str, symbols: &Vec<String>, id: Option<u64>) -> (r: String)
    ensures
        r@ == bybit_subscribe_text(prefixed_strings_text(prefix@, symbols@), id),
{
    let mut s = string_from("{\"args\":[");
    write_prefixed_strings(&mut s, prefix, symbols);
    push_str(&mut s, "],\"op\":\"subscribe\"");
    match id {
        Some(n) => {
            push_str(&mut s, ",\"req_id\":");
            let digits = u64_to_string(n);
            write_quoted(digits.as_str(), &mut s);
        },
        None => {},
    }
    push_str(&mut s, "}");
    s
}

fn level_str_exec(d: &JsonValue, side: &str, n: usize) -> (r: Option<String>)
    ensures
        match r {
            Some(s) => level_str(*d, side@, n as int) == Some(s@),
            None => level_str(*d, side@, n as int) is None,
        },
{
    match d.get(side) {
        Some(s) => match s.at_index(0) {
            Some(l) => match l.at_index(n) {
                Some(x) => match x.as_str() {
                    Some(t) => Some(string_from(t)),
                    None => None,
                },
                None => None,
            },
            None => None,
        },
        None => None,
    }
}

fn data_items_exec(t: &WebSocketText) -> (r: Option<&Vec<JsonValue>>)
    ensures
        match r {
            Some(items) => bybit_data_items(*t) == items@,
            None => bybit_data_items(*t) == Seq::<JsonValue>::empty(),
        },
        has_data_array(*t) ==> r is Some,
{
    match &t.json_payload {
        Some(j) => match j.at("data") {
            Some(d) => d.as_array(),
            None => None,
        },
        None => None,
    }
}

/// Whether a book update has what its conversion reads.
fn book_message_ok(t: &WebSocketText) -> (r: bool)
    ensures
        r == bybit_book_message_ok(*t),
{
    match &t.json_payload {
        Some(j) => {
            let cts_ok = match j.at("cts") {
                Some(c) => c.as_i64().is_some(),
                None => false,
            };
            let levels_ok = match j.get("data") {
                Some(d) => level_str_exec(d, "b", 0).is_some() && level_str_exec(d, "b", 1).is_some()
                    && level_str_exec(d, "a", 0).is_some() && level_str_exec(d, "a", 1).is_some(),
                None => false,
            };
            j.has_str("topic") && cts_ok && levels_ok
        },
        None => false,
    }
}

/// The kinds of data item that a message's data array must hold.
pub enum DataItemKind {
    Trade,
    Order,
    Fill,
}

pub open spec fn data_item_ok(kind: DataItemKind, v: JsonValue) -> bool {
    match kind {
        DataItemKind::Trade => bybit_trade_item_ok(v),
        DataItemKind::Order => bybit_order_ok(v),
        DataItemKind::Fill => bybit_fill_item_ok(v),
    }
}

fn data_item_ok_exec(kind: &DataItemKind, v: &JsonValue) -> (r: bool)
    ensures
        r == data_item_ok(*kind, *v),
{
    match kind {
        DataItemKind::Trade => {
            let time_ok = match v.at("T") {
                Some(x) => x.as_i64().is_some(),
                None => false,
            };
            time_ok && v.has_str("p") && v.has_str("v")
        },
        DataItemKind::Order => v.has_str("symbol") && v.has_str("orderId") && v.has_str("orderLinkId")
            && v.has_str("orderType") && v.has_str("side") && v.has_str("price") && v.has_str("qty")
            && v.has_str("leavesQty") && v.has_str("cumExecQty") && v.has_str("cumExecValue")
            && v.has_str("avgPrice") && v.has_str("orderStatus"),
        DataItemKind::Fill => {
            let maker_ok = match v.at("isMaker") {
                Some(x) => x.as_bool().is_some(),
                None => false,
            };
            v.has_str("orderId") && v.has_str("symbol") && v.has_str("orderLinkId") && v.has_str("execPrice")
                && v.has_str("execQty") && v.has_str("execValue") && maker_ok
        },
    }
}

/// Whether a message has a data array whose every item is of the kind.
fn data_items_ok(t: &WebSocketText, kind: &DataItemKind) -> (r: bool)
    ensures
        r == (has_data_array(*t) && forall|i: int| 0 <= i < bybit_data_items(*t).len() ==> data_item_ok(
            *kind,
            #[trigger] bybit_data_items(*t)[i],
        )),
{
    let items = match &t.json_payload {
        Some(j) => match j.at("data") {
            Some(d) => match d.as_array() {
                Some(items) => items,
                None => return false,
            },
            None => return false,
        },
        None => return false,
    };
    let mut i: usize = 0;
    while i < items.len()
        invariant
            i <= items@.len(),
            has_data_array(*t),
            bybit_data_items(*t) == items@,
            forall|k: int| 0 <= k < i ==> data_item_ok(*kind, #[trigger] items@[k]),
        decreases items.len() - i,
    {
        if !data_item_ok_exec(kind, &items[i]) {
            assert(bybit_data_items(*t)[i as int] == items@[i as int]);
            return false;
        }
        i = i + 1;
    }
    true
}

fn topic_symbol(j: &JsonValue) -> (r: String)
    requires
        has_str(*j, "topic"@),
    ensures
        r@ == after_last(field_str(*j, "topic"@), '.'),
{
    let topic = j.field_str("topic");
    after_last_char(topic.as_str(), '.')
}

impl BybitClient {
    /// The URL of the market-data or account-data endpoint.
    pub fn websocket_api_url(&self, endpoint: WebSocketEndpoint) -> (r: String)
        requires
            endpoint == WebSocketEndpoint::Bybit(ExchangeWebSocketEndpoint::MarketData)
                || endpoint == WebSocketEndpoint::Bybit(ExchangeWebSocketEndpoint::AccountData),
        ensures
            endpoint == WebSocketEndpoint::Bybit(ExchangeWebSocketEndpoint::MarketData) ==> r
                == self.websocket_market_data_api_url,
            endpoint == WebSocketEndpoint::Bybit(ExchangeWebSocketEndpoint::AccountData) ==> r
                == self.websocket_account_data_api_url,
    {
        match endpoint {
            WebSocketEndpoint::Bybit(ExchangeWebSocketEndpoint::MarketData) => self.websocket_market_data_api_url.clone(),
            _ => self.websocket_account_data_api_url.clone(),
        }
    }

    /// The authentication message at the given time: it expires a receive window later and
    /// is signed with the credential; empty without one.
    pub fn create_authenticate_websocket_request_at(&self, now: Timestamp) -> (r: String)
        requires
            timestamp_valid(now),
            window_fits(self.api_receive_window_milliseconds),
        ensures
            match self.credential {
                Some(c) => {
                    let expires = millis_of(now) + self.api_receive_window_milliseconds;
                    r@ == bybit_auth_text(c.api_key@, expires, bybit_auth_sign(c.api_secret@, expires))
                },
                None => r@.len() == 0,
            },
    {
        let c = match &self.credential {
            Some(c) => c,
            None => return String::new(),
        };
        let expires: i64 = timestamp_millis(now) + self.api_receive_window_milliseconds;
        let expires_text = i64_to_string(expires);
        let mut payload = string_from("GET/realtime");
        push_str(&mut payload, expires_text.as_str());
        let tag = hmac_sha256(c.api_secret.as_str().as_bytes(), payload.as_str().as_bytes());
        let signature = hex_encode(tag.as_slice());
        let mut s = string_from("{\"args\":[");
        write_quoted(c.api_key.as_str(), &mut s);
        push_str(&mut s, ",");
        push_str(&mut s, expires_text.as_str());
        push_str(&mut s, ",");
        write_quoted(signature.as_str(), &mut s);
        push_str(&mut s, "],\"op\":\"auth\"}");
        s
    }

    /// The authentication message, expiring a receive window after the current time.
    pub fn create_authenticate_websocket_request(&self) -> (r: String)
        requires
            window_fits(self.api_receive_window_milliseconds),
        ensures
            match self.credential {
                Some(c) => exists|expires: int| r@ == #[trigger] bybit_auth_text(
                    c.api_key@,
                    expires,
                    bybit_auth_sign(c.api_secret@, expires),
                ),
                None => r@.len() == 0,
            },
    {
        let now = utc_now();
        let r = self.create_authenticate_websocket_request_at(now);
        proof {
            if self.credential is Some {
                let c = self.credential->0;
                let expires = millis_of(now) + self.api_receive_window_milliseconds;
                assert(r@ == bybit_auth_text(c.api_key@, expires, bybit_auth_sign(c.api_secret@, expires)));
            }
        }
        r
    }

    /// A ping carrying the time in milliseconds as its request id.
    pub fn create_heartbeat_websocket_request_at(&self, now: Timestamp) -> (r: String)
        requires
            timestamp_valid(now),
        ensures
            r@ == bybit_ping_text(millis_of(now)),
    {
        let millis = i64_to_string(timestamp_millis(now));
        let mut s = string_from("{\"op\":\"ping\",\"req_id\":");
        write_quoted(millis.as_str(), &mut s);
        push_str(&mut s, "}");
        s
    }

    /// A ping carrying the current time.
    pub fn create_heartbeat_websocket_request(&self) -> (r: String)
        ensures
            exists|millis: int| r@ == #[trigger] bybit_ping_text(millis),
    {
        let now = utc_now();
        self.create_heartbeat_websocket_request_at(now)
    }

    /// Subscribes to the best bid and ask ("orderbook.1.") of every symbol.
    pub fn create_subscribe_top_of_book_websocket_request(&self, request: &SubscribeTopOfBookRequest) -> (r: String)
        ensures
            r@ == bybit_subscribe_text(prefixed_strings_text("orderbook.1."@, request.symbols@), request.id),
    {
        subscribe_topics("orderbook.1.", &request.symbols, request.id)
    }

    /// Subscribes to the public trades ("publicTrade.") of every symbol.
    pub fn create_subscribe_trade_websocket_request(&self, request: &SubscribeTradeRequest) -> (r: String)
        ensures
            r@ == bybit_subscribe_text(prefixed_strings_text("publicTrade."@, request.symbols@), request.id),
    {
        subscribe_topics("publicTrade.", &request.symbols, request.id)
    }

    /// Subscribes to the orders of the category.
    pub fn create_subscribe_order_websocket_request(&self, _request: &SubscribeOrderRequest) -> (r: String)
        ensures
            r@ == "{\"args\":["@ + quoted("order."@ + self.category@) + "],\"op\":\"subscribe\"}"@,
    {
        let mut topic = string_from("order.");
        push_str(&mut topic, self.category.as_str());
        let mut s = string_from("{\"args\":[");
        write_quoted(topic.as_str(), &mut s);
        push_str(&mut s, "],\"op\":\"subscribe\"}");
        s
    }

    /// Subscribes to the executions of the category.
    pub fn create_subscribe_fill_websocket_request(&self, _request: &SubscribeFillRequest) -> (r: String)
        ensures
            r@ == "{\"args\":["@ + quoted("execution."@ + self.category@) + "],\"op\":\"subscribe\"}"@,
    {
        let mut topic = string_from("execution.");
        push_str(&mut topic, self.category.as_str());
        let mut s = string_from("{\"args\":[");
        write_quoted(topic.as_str(), &mut s);
        push_str(&mut s, "],\"op\":\"subscribe\"}");
        s
    }

    /// The message with "success" (as "true" or "false"), and "op", "topic" and "retCode" where they are strings, in its summary.
    pub open spec fn summarized(&self, o: WebSocketText, n: WebSocketText) -> bool {
        &&& n.url == o.url
        &&& n.text == o.text
        &&& n.json_payload == o.json_payload
        &&& n.error_code == o.error_code
        &&& n.error_message == o.error_message
        &&& match o.json_payload {
                Some(j) => {
                    &&& n.summary("success"@) == match spec_get(j, "success"@) {
                        Some(v) => match spec_as_bool(v) {
                            Some(b) => Some(if b { "true"@ } else { "false"@ }),
                            None => o.summary("success"@),
                        },
                        None => o.summary("success"@),
                    }
                    &&& n.summary("op"@) == match spec_get(j, "op"@) {
                        Some(v) => match spec_as_str(v) {
                            Some(s) => Some(s),
                            None => o.summary("op"@),
                        },
                        None => o.summary("op"@),
                    }
                    &&& n.summary("topic"@) == match spec_get(j, "topic"@) {
                        Some(v) => match spec_as_str(v) {
                            Some(s) => Some(s),
                            None => o.summary("topic"@),
                        },
                        None => o.summary("topic"@),
                    }
                    &&& n.summary("retCode"@) == match spec_get(j, "retCode"@) {
                        Some(v) => match spec_as_str(v) {
                            Some(s) => Some(s),
                            None => o.summary("retCode"@),
                        },
                        None => o.summary("retCode"@),
                    }
                    &&& forall|k: Seq<char>| k != "success"@ && k != "op"@ && k != "topic"@ && k != "retCode"@
                        ==> n.summary(k) == o.summary(k)
                },
                None => n.payload_summary == o.payload_summary,
            }
    }

    /// Records "success" (a boolean, as "true" or "false"), and "op", "topic" and "retCode"
    /// where they are strings.
    pub fn populate_websocket_text_payload_summary(&self, websocket_text: &mut WebSocketText)
        ensures
            self.summarized(*old(websocket_text), *final(websocket_text)),
    {
        proof {
            reveal_strlit("success");
            reveal_strlit("op");
            reveal_strlit("topic");
            reveal_strlit("retCode");
            assert("success"@.len() == 7);
            assert("op"@.len() == 2);
            assert("topic"@.len() == 5);
            assert("retCode"@.len() == 7);
            assert("success"@[0] != "retCode"@[0]);
        }
        let (success, op, topic, ret_code) = match &websocket_text.json_payload {
            Some(j) => (
                match j.get("success") {
                    Some(v) => match v.as_bool() {
                        Some(b) => Some(if b { string_from("true") } else { string_from("false") }),
                        None => None,
                    },
                    None => None,
                },
                match j.get("op") {
                    Some(v) => match v.as_str() {
                        Some(s) => Some(string_from(s)),
                        None => None,
                    },
                    None => None,
                },
                match j.get("topic") {
                    Some(v) => match v.as_str() {
                        Some(s) => Some(string_from(s)),
                        None => None,
                    },
                    None => None,
                },
                match j.get("retCode") {
                    Some(v) => match v.as_str() {
                        Some(s) => Some(string_from(s)),
                        None => None,
                    },
                    None => None,
                },
            ),
            None => (None, None, None, None),
        };
        match success {
            Some(v) => websocket_text.payload_summary.insert(string_from("success"), v),
            None => {},
        }
        match op {
            Some(v) => websocket_text.payload_summary.insert(string_from("op"), v),
            None => {},
        }
        match topic {
            Some(v) => websocket_text.payload_summary.insert(string_from("topic"), v),
            None => {},
        }
        match ret_code {
            Some(v) => websocket_text.payload_summary.insert(string_from("retCode"), v),
            None => {},
        }
    }

    /// What a summarized message comes to: data of the topic's kind (None where it lacks
    /// what its conversion reads, or has no known topic), an acknowledgement, or an error.
    pub open spec fn handled(&self, t: WebSocketText, r: Option<Response>) -> bool {
        let topic = t.summary("topic"@);
        let op = t.summary("op"@);
        if topic is Some {
            if "orderbook.1."@.is_prefix_of(topic->0) {
                if bybit_book_message_ok(t) { r matches Some(x) && self.top_of_book_data(t, x) } else { r is None }
            } else if "publicTrade."@.is_prefix_of(topic->0) {
                if bybit_trade_message_ok(t) { r matches Some(x) && self.trade_data(t, x) } else { r is None }
            } else if "order"@.is_prefix_of(topic->0) {
                if has_data_array(t) && forall|i: int| 0 <= i < bybit_data_items(t).len() ==> bybit_order_ok(
                    #[trigger] bybit_data_items(t)[i],
                ) {
                    r matches Some(x) && self.order_data(t, x)
                } else {
                    r is None
                }
            } else if "execution"@.is_prefix_of(topic->0) {
                if has_data_array(t) && forall|i: int| 0 <= i < bybit_data_items(t).len() ==> bybit_fill_item_ok(
                    #[trigger] bybit_data_items(t)[i],
                ) {
                    r matches Some(x) && self.fill_data(t, x)
                } else {
                    r is None
                }
            } else {
                r is None
            }
        } else if t.summary("success"@) == Some("true"@) || t.summary("retCode"@) == Some("0"@) || op == Some(
            "pong"@,
        ) {
            if op is None || t.json_payload is None {
                r is None
            } else if op == Some("ping"@) || op == Some("pong"@) {
                r matches Some(x) && self.heartbeat_response(t, x)
            } else if op == Some("subscribe"@) {
                r matches Some(x) && self.subscribe_response(t, x)
            } else if t.summary("success"@) == Some("true"@) && op == Some("auth"@) {
                r matches Some(x) && self.authenticate_response(t, x)
            } else {
                r is None
            }
        } else {
            r matches Some(x) && self.websocket_error_response(t, x)
        }
    }

    /// A message as it was read (its text parsed as JSON where it is JSON, its summary
    /// empty), summarized and then classified: data of a topic, an acknowledgement, or an
    /// error. None for data of no known topic or without what its conversion reads, and
    /// for an acknowledgement of no known operation.
    pub fn handle_websocket_text(&self, websocket_text: WebSocketText) -> (r: Option<Response>)
        ensures
            exists|t: WebSocketText| #[trigger] self.summarized(websocket_text, t) && self.handled(t, r),
    {
        let mut websocket_text = websocket_text;
        self.populate_websocket_text_payload_summary(&mut websocket_text);
        if self.is_websocket_text_subscription_data(&websocket_text) {
            if self.is_websocket_text_top_of_book_subscription_data(&websocket_text) {
                if book_message_ok(&websocket_text) {
                    Some(self.create_subscribe_top_of_book_websocket_subscription_data(&websocket_text))
                } else {
                    None
                }
            } else if self.is_websocket_text_trade_subscription_data(&websocket_text) {
                if data_items_ok(&websocket_text, &DataItemKind::Trade) && match &websocket_text.json_payload {
                    Some(j) => j.has_str("topic"),
                    None => false,
                } {
                    Some(self.create_subscribe_trade_websocket_subscription_data(&websocket_text))
                } else {
                    None
                }
            } else if self.is_websocket_text_order_subscription_data(&websocket_text) {
                if data_items_ok(&websocket_text, &DataItemKind::Order) {
                    Some(self.create_subscribe_order_websocket_subscription_data(&websocket_text))
                } else {
                    None
                }
            } else if self.is_websocket_text_fill_subscription_data(&websocket_text) {
                if data_items_ok(&websocket_text, &DataItemKind::Fill) {
                    Some(self.create_subscribe_fill_websocket_subscription_data(&websocket_text))
                } else {
                    None
                }
            } else if self.is_websocket_text_unneeded_subscription_data(&websocket_text) {
                Some(Response::Unneeded(websocket_text))
            } else {
                None
            }
        } else if self.is_websocket_text_success_response(&websocket_text) {
            if websocket_text.payload_summary.get("op").is_none() || websocket_text.json_payload.is_none() {
                None
            } else if self.is_websocket_text_heartbeat_response(&websocket_text) {
                Some(self.create_heartbeat_websocket_response(&websocket_text))
            } else if self.is_websocket_text_subscribe_success_response(&websocket_text) {
                Some(self.create_subscribe_websocket_response(&websocket_text))
            } else if self.is_websocket_text_authenticate_success_response(&websocket_text) {
                Some(self.create_authenticate_websocket_response(&websocket_text))
            } else {
                None
            }
        } else {
            let ghost t = websocket_text;
            let e = self.create_websocket_error_response(websocket_text);
            assert(self.handled(t, Some(e)));
            Some(e)
        }
    }

    /// A message with a topic.
    pub fn is_websocket_text_subscription_data(&self, websocket_text: &WebSocketText) -> (r: bool)
        ensures
            r == websocket_text.summary("topic"@) is Some,
    {
        websocket_text.payload_summary.get("topic").is_some()
    }

    pub fn is_websocket_text_top_of_book_subscription_data(&self, websocket_text: &WebSocketText) -> (r: bool)
        requires
            websocket_text.summary("topic"@) is Some,
        ensures
            r == "orderbook.1."@.is_prefix_of(websocket_text.summary("topic"@)->0),
    {
        websocket_text.summary_starts_with("topic", "orderbook.1.")
    }

    pub fn is_websocket_text_trade_subscription_data(&self, websocket_text: &WebSocketText) -> (r: bool)
        requires
            websocket_text.summary("topic"@) is Some,
        ensures
            r == "publicTrade."@.is_prefix_of(websocket_text.summary("topic"@)->0),
    {
        websocket_text.summary_starts_with("topic", "publicTrade.")
    }

    pub fn is_websocket_text_order_subscription_data(&self, websocket_text: &WebSocketText) -> (r: bool)
        requires
            websocket_text.summary("topic"@) is Some,
        ensures
            r == "order"@.is_prefix_of(websocket_text.summary("topic"@)->0),
    {
        websocket_text.summary_starts_with("topic", "order")
    }

    pub fn is_websocket_text_fill_subscription_data(&self, websocket_text: &WebSocketText) -> (r: bool)
        requires
            websocket_text.summary("topic"@) is Some,
        ensures
            r == "execution"@.is_prefix_of(websocket_text.summary("topic"@)->0),
    {
        websocket_text.summary_starts_with("topic", "execution")
    }

    pub fn is_websocket_text_unneeded_subscription_data(&self, _websocket_text: &WebSocketText) -> (r: bool)
        ensures
            !r,
    {
        false
    }

    /// The best bid and ask of the book update.
    pub open spec fn top_of_book_data(&self, websocket_text: WebSocketText, r: Response) -> bool {
        &&& r matches Response::TopOfBookSubscription(d) && d.data@.len() == 1 && bybit_book_matches(
                d.data@[0],
                websocket_text.json_payload->0,
                self.instrument_type,
            )
    }

    /// The best bid and ask of the update, for the symbol that ends its topic.
    pub fn create_subscribe_top_of_book_websocket_subscription_data(&self, websocket_text: &WebSocketText) -> (r: Response)
        requires
            bybit_book_message_ok(*websocket_text),
        ensures
            self.top_of_book_data(*websocket_text, r),
    {
        let json = websocket_text.json_payload.as_ref().unwrap();
        let symbol = topic_symbol(json);
        let millis: i64 = json.at("cts").unwrap().as_i64().unwrap();
        let data = json.get("data").unwrap();
        let book = TopOfBook {
            exchange_instrument_type: ExchangeInstrumentType::Bybit(self.instrument_type),
            symbol,
            timestamp: timestamp_from_millis_or_epoch(millis),
            bid_price: level_str_exec(data, "b", 0).unwrap(),
            bid_size: level_str_exec(data, "b", 1).unwrap(),
            ask_price: level_str_exec(data, "a", 0).unwrap(),
            ask_size: level_str_exec(data, "a", 1).unwrap(),
        };
        let mut books: Vec<TopOfBook> = Vec::new();
        books.push(book);
        Response::TopOfBookSubscription(TopOfBookSubscriptionData { data: books })
    }

    /// A trade per data item.
    pub open spec fn trade_data(&self, websocket_text: WebSocketText, r: Response) -> bool {
        &&& r matches Response::TradeSubscription(d) && d.data@.len() == bybit_data_items(websocket_text).len()
                && forall|i: int| 0 <= i < d.data@.len() ==> bybit_trade_matches(
                #[trigger] d.data@[i],
                bybit_data_items(websocket_text)[i],
                after_last(field_str(websocket_text.json_payload->0, "topic"@), '.'),
                self.instrument_type,
            )
    }

    /// One trade per data item, for the symbol that ends the topic.
    pub fn create_subscribe_trade_websocket_subscription_data(&self, websocket_text: &WebSocketText) -> (r: Response)
        requires
            bybit_trade_message_ok(*websocket_text),
        ensures
            self.trade_data(*websocket_text, r),
    {
        let json = websocket_text.json_payload.as_ref().unwrap();
        let symbol = topic_symbol(json);
        let items = data_items_exec(websocket_text).unwrap();
        let mut trades: Vec<Trade> = Vec::new();
        let mut i: usize = 0;
        while i < items.len()
            invariant
                bybit_data_items(*websocket_text) == items@,
                forall|k: int| 0 <= k < items@.len() ==> bybit_trade_item_ok(#[trigger] items@[k]),
                i <= items@.len(),
                trades@.len() == i,
                forall|k: int| 0 <= k < i ==> bybit_trade_matches(#[trigger] trades@[k], items@[k], symbol@, self.instrument_type),
            decreases items.len() - i,
        {
            let v = &items[i];
            assert(bybit_trade_item_ok(items@[i as int]));
            let millis: i64 = v.at("T").unwrap().as_i64().unwrap();
            let side = match v.get("S") {
                Some(s) => match s.as_str() {
                    Some(t) => if str_eq(t, "Buy") {
                        TakerSide::Buy
                    } else if str_eq(t, "Sell") {
                        TakerSide::Sell
                    } else {
                        TakerSide::Unknown
                    },
                    None => TakerSide::Unknown,
                },
                None => TakerSide::Unknown,
            };
            let trade = Trade {
                exchange_instrument_type: ExchangeInstrumentType::Bybit(self.instrument_type),
                symbol: symbol.clone(),
                timestamp: timestamp_from_millis_or_epoch(millis),
                price: v.required_str("p"),
                size: v.required_str("v"),
                side,
            };
            trades.push(trade);
            i = i + 1;
        }
        Response::TradeSubscription(TradeSubscriptionData { data: trades })
    }

    /// An order per data item.
    pub open spec fn order_data(&self, websocket_text: WebSocketText, r: Response) -> bool {
        &&& r matches Response::OrderSubscription(d) && d.data@.len() == bybit_data_items(websocket_text).len()
                && forall|i: int| 0 <= i < d.data@.len() ==> bybit_order_matches(
                #[trigger] d.data@[i],
                bybit_data_items(websocket_text)[i],
                self.instrument_type,
            )
    }

    /// One order per data item.
    pub fn create_subscribe_order_websocket_subscription_data(&self, websocket_text: &WebSocketText) -> (r: Response)
        requires
            has_data_array(*websocket_text),
            forall|i: int| 0 <= i < bybit_data_items(*websocket_text).len() ==> bybit_order_ok(
                #[trigger] bybit_data_items(*websocket_text)[i],
            ),
        ensures
            self.order_data(*websocket_text, r),
    {
        let items = data_items_exec(websocket_text).unwrap();
        let mut orders: Vec<Order> = Vec::new();
        let mut i: usize = 0;
        while i < items.len()
            invariant
                bybit_data_items(*websocket_text) == items@,
                forall|k: int| 0 <= k < items@.len() ==> bybit_order_ok(#[trigger] items@[k]),
                i <= items@.len(),
                orders@.len() == i,
                forall|k: int| 0 <= k < i ==> bybit_order_matches(#[trigger] orders@[k], items@[k], self.instrument_type),
            decreases items.len() - i,
        {
            let o = self.convert_json_value_to_order(&items[i]);
            orders.push(o);
            i = i + 1;
        }
        Response::OrderSubscription(OrderSubscriptionData { data: orders })
    }

    /// A fill per data item.
    pub open spec fn fill_data(&self, websocket_text: WebSocketText, r: Response) -> bool {
        &&& r matches Response::FillSubscription(d) && d.data@.len() == bybit_data_items(websocket_text).len()
                && forall|i: int| 0 <= i < d.data@.len() ==> bybit_fill_matches(
                #[trigger] d.data@[i],
                bybit_data_items(websocket_text)[i],
                self.instrument_type,
            )
    }

    /// One fill per data item.
    pub fn create_subscribe_fill_websocket_subscription_data(&self, websocket_text: &WebSocketText) -> (r: Response)
        requires
            has_data_array(*websocket_text),
            forall|i: int| 0 <= i < bybit_data_items(*websocket_text).len() ==> bybit_fill_item_ok(
                #[trigger] bybit_data_items(*websocket_text)[i],
            ),
        ensures
            self.fill_data(*websocket_text, r),
    {
        let items = data_items_exec(websocket_text).unwrap();
        let mut fills: Vec<Fill> = Vec::new();
        let mut i: usize = 0;
        while i < items.len()
            invariant
                bybit_data_items(*websocket_text) == items@,
                forall|k: int| 0 <= k < items@.len() ==> bybit_fill_item_ok(#[trigger] items@[k]),
                i <= items@.len(),
                fills@.len() == i,
                forall|k: int| 0 <= k < i ==> bybit_fill_matches(#[trigger] fills@[k], items@[k], self.instrument_type),
            decreases items.len() - i,
        {
            let v = &items[i];
            assert(bybit_fill_item_ok(items@[i as int]));
            let side = match v.get("side") {
                Some(s) => match s.as_str() {
                    Some(t) => if str_eq(t, "Buy") {
                        OrderSide::Buy
                    } else if str_eq(t, "Sell") {
                        OrderSide::Sell
                    } else {
                        OrderSide::Unknown
                    },
                    None => OrderSide::Unknown,
                },
                None => OrderSide::Unknown,
            };
            let fill = Fill {
                exchange_instrument_type: ExchangeInstrumentType::Bybit(self.instrument_type),
                symbol: v.required_str("symbol"),
                order_id: v.required_str("orderId"),
                client_order_id: v.required_str("orderLinkId"),
                side,
                price: v.required_str("execPrice"),
                quantity: v.required_str("execQty"),
                quote_quantity: v.required_str("execValue"),
                is_maker: v.at("isMaker").unwrap().as_bool().unwrap(),
            };
            fills.push(fill);
            i = i + 1;
        }
        Response::FillSubscription(FillSubscriptionData { data: fills })
    }

    /// "success" "true", or "retCode" "0", or "op" "pong".
    pub fn is_websocket_text_success_response(&self, websocket_text: &WebSocketText) -> (r: bool)
        ensures
            r == (websocket_text.summary("success"@) == Some("true"@) || websocket_text.summary("retCode"@) == Some(
                "0"@,
            ) || websocket_text.summary("op"@) == Some("pong"@)),
    {
        websocket_text.summary_is("success", "true") || websocket_text.summary_is("retCode", "0")
            || websocket_text.summary_is("op", "pong")
    }

    /// "success" "true" for the "auth" operation.
    pub fn is_websocket_text_authenticate_success_response(&self, websocket_text: &WebSocketText) -> (r: bool)
        ensures
            r == (websocket_text.summary("success"@) == Some("true"@) && websocket_text.summary("op"@) == Some(
                "auth"@,
            )),
    {
        websocket_text.summary_is("success", "true") && websocket_text.summary_is("op", "auth")
    }

    pub fn is_websocket_text_subscribe_success_response(&self, websocket_text: &WebSocketText) -> (r: bool)
        requires
            websocket_text.summary("op"@) is Some,
        ensures
            r == (websocket_text.summary("op"@) == Some("subscribe"@)),
    {
        websocket_text.summary_is("op", "subscribe")
    }

    pub fn is_websocket_text_heartbeat_response(&self, websocket_text: &WebSocketText) -> (r: bool)
        requires
            websocket_text.summary("op"@) is Some,
        ensures
            r == (websocket_text.summary("op"@) == Some("ping"@) || websocket_text.summary("op"@) == Some("pong"@)),
    {
        websocket_text.summary_is("op", "ping") || websocket_text.summary_is("op", "pong")
    }

    /// The request id of the acknowledgement.
    pub open spec fn authenticate_response(&self, websocket_text: WebSocketText, r: Response) -> bool {
        &&& r matches Response::Authenticate(a) && a.id == req_id_of(websocket_text.json_payload->0)
    }

    /// The request id of the acknowledgement.
    pub fn create_authenticate_websocket_response(&self, websocket_text: &WebSocketText) -> (r: Response)
        requires
            websocket_text.json_payload is Some,
        ensures
            self.authenticate_response(*websocket_text, r),
    {
        let json = websocket_text.json_payload.as_ref().unwrap();
        let id = match json.get("req_id") {
            Some(v) => v.as_u64(),
            None => None,
        };
        Response::Authenticate(AuthenticateResponse { id })
    }

    /// The request id of the acknowledgement; no symbols and no kind.
    pub open spec fn subscribe_response(&self, websocket_text: WebSocketText, r: Response) -> bool {
        &&& r matches Response::Subscribe(s) && s.id == req_id_of(websocket_text.json_payload->0)
                && s.symbols@.len() == 0 && s.kind is None
    }

    /// The request id of the acknowledgement; no symbols and no kind.
    pub fn create_subscribe_websocket_response(&self, websocket_text: &WebSocketText) -> (r: Response)
        requires
            websocket_text.json_payload is Some,
        ensures
            self.subscribe_response(*websocket_text, r),
    {
        let json = websocket_text.json_payload.as_ref().unwrap();
        let id = match json.get("req_id") {
            Some(v) => v.as_u64(),
            None => None,
        };
        Response::Subscribe(SubscribeResponse { id, symbols: Vec::new(), kind: None })
    }

    /// The pong's id.
    pub open spec fn heartbeat_response(&self, websocket_text: WebSocketText, r: Response) -> bool {
        &&& r matches Response::Heartbeat(h) && h.id == pong_id_of(websocket_text.json_payload->0)
    }

    /// The pong's id.
    pub fn create_heartbeat_websocket_response(&self, websocket_text: &WebSocketText) -> (r: Response)
        requires
            websocket_text.json_payload is Some,
        ensures
            self.heartbeat_response(*websocket_text, r),
    {
        let json = websocket_text.json_payload.as_ref().unwrap();
        let first: Option<u64> = match json.get("req_id") {
            Some(v) => match v.as_str() {
                Some(s) => if s.unicode_len() == 0 { None } else { parse_u64(s) },
                None => v.as_u64(),
            },
            None => None,
        };
        let id = match first {
            Some(n) => Some(n),
            None => match json.get("args") {
                Some(a) => match a.at_index(0) {
                    Some(x) => match x.as_str() {
                        Some(s) => parse_u64(s),
                        None => None,
                    },
                    None => None,
                },
                None => None,
            },
        };
        Response::Heartbeat(HeartbeatResponse { id })
    }

    /// The message with its "ret_msg" (where a string) as the error message, where it is JSON.
    pub open spec fn websocket_error_response(&self, websocket_text: WebSocketText, r: Response) -> bool {
        &&& r matches Response::WebSocketErrorResponse(t) && t.url == websocket_text.url && t.text
                == websocket_text.text && t.json_payload == websocket_text.json_payload
                && t.payload_summary == websocket_text.payload_summary && t.error_code == websocket_text.error_code
                && match websocket_text.json_payload {
                Some(j) => opt_view(t.error_message) == (match spec_get(j, "ret_msg"@) {
                    Some(m) => spec_as_str(m),
                    None => None,
                }),
                None => t.error_message == websocket_text.error_message,
            }
    }

    /// The message with its "ret_msg" (where a string) as the error message, where it is JSON.
    pub fn create_websocket_error_response(&self, websocket_text: WebSocketText) -> (r: Response)
        ensures
            self.websocket_error_response(websocket_text, r),
    {
        let mut t = websocket_text;
        match &t.json_payload {
            Some(j) => {
                let message = match j.get("ret_msg") {
                    Some(m) => match m.as_str() {
                        Some(s) => Some(string_from(s)),
                        None => None,
                    },
                    None => None,
                };
                t.error_message = message;
            },
            None => {},
        }
        Response::WebSocketErrorResponse(t)
    }
}

} // verus!
