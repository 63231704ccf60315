//! Bitget's websocket API: login, subscriptions, and the messages it sends.

use vstd::prelude::*;
use vstd::utf8::encode_utf8;
use crate::exchange_client::common::{
    AuthenticateResponse, FillSubscriptionData, HeartbeatResponse, OrderSubscriptionData, Response,
    SubscribeFillRequest, SubscribeOrderRequest, SubscribeResponse, SubscribeResponseKind,
    SubscribeTopOfBookRequest, SubscribeTradeRequest, TopOfBookSubscriptionData, TradeSubscriptionData,
};
use crate::exchanges::bitget::common::{
    bitget_order_type_of, bitget_side_of, bitget_status_of, BitgetClient,
};
use crate::json::{array_at, field_str, has_str, quoted, spec_as_array, spec_as_str, spec_at, spec_get, str_or, text_of, write_quoted, JsonValue};
use crate::networking::http::opt_view;
use crate::networking::websocket::WebSocketText;
use crate::signing::{base64_encode, base64_standard, hmac_sha256_crate_tag, hmac_sha256_single};
use crate::text::{i64_to_string, int_text, parse_i64, parse_i64_spec, push_str, str_eq, string_from, to_lowercase, unicode_lowercase};
use crate::time::{from_millis_or_epoch, timestamp_from_millis_or_epoch, utc_now};
use crate::types::{
    ExchangeInstrumentType, ExchangeWebSocketEndpoint, Fill, Order, OrderSide, TakerSide, Timestamp, TopOfBook,
    Trade, WebSocketEndpoint,
};

verus! {

/// `{"args":[{"apiKey":..,"passphrase":..,"sign":..,"timestamp":..}],"op":"login"}`.
pub open spec fn bitget_login_text(api_key: Seq<char>, passphrase: Seq<char>, sign: Seq<char>, timestamp: Seq<char>) -> Seq<char> {
    "{\"args\":[{\"apiKey\":"@ + quoted(api_key) + ",\"passphrase\":"@ + quoted(passphrase) + ",\"sign\":"@
        + quoted(sign) + ",\"timestamp\":"@ + quoted(timestamp) + "}],\"op\":\"login\"}"@
}

/// The login signature: base64 of the HMAC-SHA256 of the time and "GET/user/verify".
pub open spec fn bitget_login_sign(api_secret: Seq<char>, timestamp: Seq<char>) -> Seq<char> {
    base64_standard(hmac_sha256_crate_tag(encode_utf8(api_secret), encode_utf8(timestamp + "GET/user/verify"@)))
}

/// One subscription argument: `{"instType":..,"symbol":..,"topic":..}`.
pub open spec fn bitget_arg_text(inst_type: Seq<char>, symbol: Seq<char>, topic: Seq<char>) -> Seq<char> {
    "{\"instType\":"@ + quoted(inst_type) + ",\"symbol\":"@ + quoted(symbol) + ",\"topic\":"@ + quoted(topic) + "}"@
}

/// The arguments of all symbols, separated by commas.
pub open spec fn bitget_args_text(inst_type: Seq<char>, symbols: Seq<String>, topic: Seq<char>) -> Seq<char>
    decreases symbols.len(),
{
    if symbols.len() == 0 {
        Seq::empty()
    } else if symbols.len() == 1 {
        bitget_arg_text(inst_type, symbols[0]@, topic)
    } else {
        bitget_args_text(inst_type, symbols.drop_last(), topic) + ","@ + bitget_arg_text(inst_type, symbols.last()@, topic)
    }
}

/// `{"args":[<args>],"op":"subscribe"}`.
pub open spec fn bitget_subscribe_text(args: Seq<char>) -> Seq<char> {
    "{\"args\":["@ + args + "],\"op\":\"subscribe\"}"@
}

/// Price and size of the best level of a book side: the first two strings of its first
/// level, or two empty texts.
pub open spec fn best_level(item: JsonValue, key: Seq<char>) -> (Seq<char>, Seq<char>) {
    let none = (Seq::<char>::empty(), Seq::<char>::empty());
    match spec_get(item, key) {
        Some(side) => match array_at(side, 0) {
            Some(best) => match (array_at(best, 0), array_at(best, 1)) {
                (Some(p), Some(s)) => match (spec_as_str(p), spec_as_str(s)) {
                    (Some(ps), Some(ss)) => (ps, ss),
                    _ => none,
                },
                _ => none,
            },
            None => none,
        },
        None => none,
    }
}

/// The milliseconds of a string member read as an integer.
pub open spec fn millis_member(v: JsonValue, key: Seq<char>) -> int {
    match spec_as_str(spec_at(v, key)) {
        Some(s) => match parse_i64_spec(s) {
            Some(n) => n as int,
            None => 0,
        },
        None => 0,
    }
}

/// A string member that reads as an integer.
pub open spec fn has_millis(v: JsonValue, key: Seq<char>) -> bool {
    spec_as_str(spec_at(v, key)) matches Some(s) && parse_i64_spec(s) is Some
}

/// The members of a message that a book update must have: the argument's symbol, and a
/// first data item whose "ts" reads as milliseconds.
pub open spec fn bitget_book_message_ok(t: WebSocketText) -> bool {
    &&& t.json_payload matches Some(j)
    &&& has_str(spec_at(j, "arg"@), "symbol"@)
    &&& array_at(spec_at(j, "data"@), 0) matches Some(item) && has_millis(item, "ts"@)
}

pub open spec fn bitget_book_matches(b: TopOfBook, j: JsonValue, t: crate::types::BitgetInstrumentType) -> bool {
    let item = array_at(spec_at(j, "data"@), 0)->0;
    &&& b.exchange_instrument_type == ExchangeInstrumentType::Bitget(t)
    &&& b.symbol@ == field_str(spec_at(j, "arg"@), "symbol"@)
    &&& from_millis_or_epoch(b.timestamp, millis_member(item, "ts"@))
    &&& b.bid_price@ == best_level(item, "b"@).0
    &&& b.bid_size@ == best_level(item, "b"@).1
    &&& b.ask_price@ == best_level(item, "a"@).0
    &&& b.ask_size@ == best_level(item, "a"@).1
}

/// The items of the message's "data" array, or none.
pub open spec fn message_data_items(t: WebSocketText) -> Seq<JsonValue> {
    match t.json_payload {
        Some(j) => match spec_get(j, "data"@) {
            Some(d) => match spec_as_array(d) {
                Some(items) => items,
                None => Seq::empty(),
            },
            None => Seq::empty(),
        },
        None => Seq::empty(),
    }
}

/// A trade item must have its time ("T") as milliseconds, its price ("p") and size ("v").
pub open spec fn bitget_trade_item_ok(v: JsonValue) -> bool {
    has_millis(v, "T"@) && has_str(v, "p"@) && has_str(v, "v"@)
}

pub open spec fn bitget_trade_message_ok(t: WebSocketText) -> bool {
    &&& t.json_payload matches Some(j)
    &&& has_str(spec_at(j, "arg"@), "symbol"@)
    &&& spec_as_array(spec_at(j, "data"@)) matches Some(items)
        && forall|i: int| 0 <= i < items.len() ==> bitget_trade_item_ok(#[trigger] items[i])
}

pub open spec fn bitget_taker_side_of(s: Option<Seq<char>>) -> TakerSide {
    if s == Some("buy"@) {
        TakerSide::Buy
    } else if s == Some("sell"@) {
        TakerSide::Sell
    } else {
        TakerSide::Unknown
    }
}

pub open spec fn bitget_trade_matches(r: Trade, v: JsonValue, symbol: Seq<char>, t: crate::types::BitgetInstrumentType) -> bool {
    &&& r.exchange_instrument_type == ExchangeInstrumentType::Bitget(t)
    &&& r.symbol@ == symbol
    &&& from_millis_or_epoch(r.timestamp, millis_member(v, "T"@))
    &&& r.price@ == field_str(v, "p"@)
    &&& r.size@ == field_str(v, "v"@)
    &&& r.side == bitget_taker_side_of(spec_as_str(spec_at(v, "S"@)))
}

/// A member as a string, or empty (also where the member is there but not a string).
pub open spec fn get_str_or_empty(m: Option<JsonValue>) -> Seq<char> {
    match m {
        Some(x) => str_or(x, Seq::empty()),
        None => Seq::empty(),
    }
}

/// The order status text: "orderStatus" where the member is there, else "status".
pub open spec fn order_status_text(v: JsonValue) -> Seq<char> {
    match spec_get(v, "orderStatus"@) {
        Some(x) => str_or(x, Seq::empty()),
        None => get_str_or_empty(spec_get(v, "status"@)),
    }
}

pub open spec fn bitget_order_update_matches(r: Order, v: JsonValue, t: crate::types::BitgetInstrumentType) -> bool {
    &&& r.exchange_instrument_type == ExchangeInstrumentType::Bitget(t)
    &&& r.symbol@ == field_str(v, "symbol"@)
    &&& r.order_id@ == field_str(v, "orderId"@)
    &&& r.client_order_id@ == field_str(v, "clientOid"@)
    &&& r.order_type == bitget_order_type_of(field_str(v, "orderType"@))
    &&& r.side == bitget_side_of(field_str(v, "side"@))
    &&& r.price@ == field_str(v, "price"@)
    &&& r.quantity@ == field_str(v, "qty"@)
    &&& r.cumulative_filled_quantity@ == field_str(v, "cumExecQty"@)
    &&& r.average_filled_price@ == field_str(v, "avgPrice"@)
    &&& r.status == bitget_status_of(order_status_text(v))
    &&& r.leverage@ == field_str(v, "leverage"@)
    &&& r.fill_price@ == field_str(v, "fillPrice"@)
    &&& r.fill_quantity@ == field_str(v, "baseVolume"@)
    &&& r.fill_is_maker == (spec_as_str(spec_at(v, "isMaker"@)) == Some("true"@))
    &&& r.remaining_quantity@.len() == 0
    &&& r.cumulative_filled_quote_quantity@.len() == 0
    &&& r.fill_quote_quantity@.len() == 0
}

pub open spec fn bitget_fill_side_of(s: Option<Seq<char>>) -> OrderSide {
    if s == Some("buy"@) {
        OrderSide::Buy
    } else if s == Some("sell"@) {
        OrderSide::Sell
    } else {
        OrderSide::Unknown
    }
}

pub open spec fn bitget_fill_matches(f: Fill, v: JsonValue, t: crate::types::BitgetInstrumentType) -> bool {
    &&& f.exchange_instrument_type == ExchangeInstrumentType::Bitget(t)
    &&& f.symbol@ == field_str(v, "symbol"@)
    &&& f.order_id@ == field_str(v, "orderId"@)
    &&& f.client_order_id@ == field_str(v, "clientOid"@)
    &&& f.side == bitget_fill_side_of(spec_as_str(spec_at(v, "side"@)))
    &&& f.price@ == field_str(v, "execPrice"@)
    &&& f.quantity@ == field_str(v, "execQty"@)
    &&& f.quote_quantity@.len() == 0
    &&& f.is_maker == (spec_as_str(spec_at(v, "tradeScope"@)) == Some("maker"@))
}

/// What a subscription acknowledges, by its topic.
pub open spec fn bitget_kind_of(topic: Option<Seq<char>>) -> Option<SubscribeResponseKind> {
    match topic {
        Some(s) => if s == "books1"@ || s == "books"@ {
            Some(SubscribeResponseKind::TopOfBook)
        } else if s == "publicTrade"@ {
            Some(SubscribeResponseKind::Trade)
        } else if s == "order"@ {
            Some(SubscribeResponseKind::Order)
        } else if s == "fill"@ {
            Some(SubscribeResponseKind::Fill)
        } else {
            None
        },
        None => None,
    }
}

/// The "arg" object of the message, where it has one.
pub open spec fn message_arg(t: WebSocketText) -> Option<JsonValue> {
    match t.json_payload {
        Some(j) => match spec_at(j, "arg"@) {
            JsonValue::Object(e) => Some(JsonValue::Object(e)),
            _ => None,
        },
        None => None,
    }
}

/// What summarizing a message records: "op" "pong" for the text "pong"; otherwise the
/// message's "event", and its argument's "instType" and "topic" (strings as they are, other
/// values as JSON text); nothing else changes.
pub open spec fn bitget_summarized(before: WebSocketText, after: WebSocketText) -> bool {
    &&& (after.url == before.url)
    &&& (after.text == before.text)
    &&& (after.json_payload == before.json_payload)
    &&& (after.error_code == before.error_code)
    &&& (after.error_message == before.error_message)
    &&& (before.text@ == "pong"@ ==> {
                &&& after.summary("op"@) == Some("pong"@)
                &&& forall|k: Seq<char>| k != "op"@ ==> after.summary(k) == before.summary(k)
            })
    &&& (before.text@ != "pong"@ ==> match before.json_payload {
                Some(j) => {
                    let arg = spec_get(j, "arg"@);
                    &&& after.summary("event"@) == match spec_get(j, "event"@) {
                        Some(v) => Some(text_of(v)),
                        None => before.summary("event"@),
                    }
                    &&& after.summary("arg.instType"@) == match arg {
                        Some(a) => match spec_get(a, "instType"@) {
                            Some(v) => Some(text_of(v)),
                            None => before.summary("arg.instType"@),
                        },
                        None => before.summary("arg.instType"@),
                    }
                    &&& after.summary("arg.topic"@) == match arg {
                        Some(a) => match spec_get(a, "topic"@) {
                            Some(v) => Some(text_of(v)),
                            None => before.summary("arg.topic"@),
                        },
                        None => before.summary("arg.topic"@),
                    }
                    &&& forall|k: Seq<char>| k != "event"@ && k != "arg.instType"@ && k != "arg.topic"@
                        ==> after.summary(k) == before.summary(k)
                },
                None => after.payload_summary == before.payload_summary,
            })
}

/// Subscription data: neither an "event" nor an "op".
pub open spec fn bitget_is_data(t: WebSocketText) -> bool {
    t.summary("event"@) is None && t.summary("op"@) is None
}

/// An acknowledgement: a pong, a login or a subscription.
pub open spec fn bitget_is_success(t: WebSocketText) -> bool {
    t.summary("op"@) == Some("pong"@) || t.summary("event"@) == Some("login"@) || t.summary("event"@) == Some("subscribe"@)
}

fn write_arg(out: &mut String, inst_type: &str, symbol: &str, topic: &str)
    ensures
        final(out)@ == old(out)@ + bitget_arg_text(inst_type@, symbol@, topic@),
{
    push_str(out, "{\"instType\":");
    write_quoted(inst_type, out);
    push_str(out, ",\"symbol\":");
    write_quoted(symbol, out);
    push_str(out, ",\"topic\":");
    write_quoted(topic, out);
    push_str(out, "}");
}

fn subscribe_args(inst_type: &str, symbols: &Vec<String>, topic: &str) -> (r: String)
    ensures
        r@ == bitget_subscribe_text(bitget_args_text(inst_type@, symbols@, topic@)),
{
    let mut args = String::new();
    let mut i: usize = 0;
    assert(symbols@.subrange(0, 0) =~= Seq::<String>::empty());
    while i < symbols.len()
        invariant
            i <= symbols@.len(),
            args@ == bitget_args_text(inst_type@, symbols@.subrange(0, i as int), topic@),
        decreases symbols.len() - i,
    {
        let ghost before = symbols@.subrange(0, i as int);
        assert(symbols@.subrange(0, i + 1).drop_last() =~= before);
        if i > 0 {
            push_str(&mut args, ",");
        } else {
            assert(args@ =~= Seq::<char>::empty());
        }
        write_arg(&mut args, inst_type, symbols[i].as_str(), topic);
        assert(args@ =~= bitget_args_text(inst_type@, symbols@.subrange(0, i + 1), topic@));
        i = i + 1;
    }
    assert(symbols@.subrange(0, symbols@.len() as int) =~= symbols@);
    let mut s = string_from("{\"args\":[");
    push_str(&mut s, args.as_str());
    push_str(&mut s, "],\"op\":\"subscribe\"}");
    s
}

fn best_level_exec(item: &JsonValue, key: &str) -> (r: (String, String))
    ensures
        r.0@ == best_level(*item, key@).0,
        r.1@ == best_level(*item, key@).1,
{
    let side = match item.get(key) {
        Some(s) => s,
        None => return (String::new(), String::new()),
    };
    let best = match side.at_index(0) {
        Some(b) => b,
        None => return (String::new(), String::new()),
    };
    match (best.at_index(0), best.at_index(1)) {
        (Some(p), Some(s)) => match (p.as_str(), s.as_str()) {
            (Some(ps), Some(ss)) => (string_from(ps), string_from(ss)),
            _ => (String::new(), String::new()),
        },
        _ => (String::new(), String::new()),
    }
}

fn has_millis_exec(v: &JsonValue, key: &str) -> (r: bool)
    ensures
        r == has_millis(*v, key@),
{
    match v.at(key) {
        Some(m) => match m.as_str() {
            Some(s) => parse_i64(s).is_some(),
            None => false,
        },
        None => false,
    }
}

fn arg_has_symbol(j: &JsonValue) -> (r: bool)
    ensures
        r == has_str(spec_at(*j, "arg"@), "symbol"@),
{
    match j.at("arg") {
        Some(a) => a.has_str("symbol"),
        None => false,
    }
}

/// Whether a book update has what its conversion reads.
fn book_message_ok(t: &WebSocketText) -> (r: bool)
    ensures
        r == bitget_book_message_ok(*t),
{
    match &t.json_payload {
        Some(j) => {
            let first = match j.at("data") {
                Some(d) => d.at_index(0),
                None => None,
            };
            arg_has_symbol(j) && match first {
                Some(item) => has_millis_exec(item, "ts"),
                None => false,
            }
        },
        None => false,
    }
}

/// Whether a trade update has what its conversion reads.
fn trade_message_ok(t: &WebSocketText) -> (r: bool)
    ensures
        r == bitget_trade_message_ok(*t),
{
    let j = match &t.json_payload {
        Some(j) => j,
        None => return false,
    };
    if !arg_has_symbol(j) {
        return false;
    }
    let items = match j.at("data") {
        Some(d) => match d.as_array() {
            Some(items) => items,
            None => return false,
        },
        None => return false,
    };
    let mut i: usize = 0;
    while i < items.len()
        invariant
            i <= items@.len(),
            t.json_payload == Some(*j),
            has_str(spec_at(*j, "arg"@), "symbol"@),
            spec_as_array(spec_at(*j, "data"@)) == Some(items@),
            forall|k: int| 0 <= k < i ==> bitget_trade_item_ok(#[trigger] items@[k]),
        decreases items.len() - i,
    {
        let v = &items[i];
        if !(has_millis_exec(v, "T") && v.has_str("p") && v.has_str("v")) {
            proof {
                let l = spec_as_array(spec_at(*j, "data"@))->0;
                assert(l[i as int] == items@[i as int]);
                assert(!bitget_trade_item_ok(l[i as int]));
            }
            return false;
        }
        i = i + 1;
    }
    true
}

/// A string member that must be there.
fn required_member_str(v: &JsonValue, key: &str) -> (r: String)
    requires
        has_str(*v, key@),
    ensures
        r@ == field_str(*v, key@),
{
    v.field_str(key)
}

/// A string member that must read as milliseconds, as a time.
fn required_millis(v: &JsonValue, key: &str) -> (r: Timestamp)
    requires
        has_millis(*v, key@),
    ensures
        from_millis_or_epoch(r, millis_member(*v, key@)),
{
    let text = v.field_str(key);
    let millis: i64 = match parse_i64(text.as_str()) {
        Some(n) => n,
        None => 0,
    };
    timestamp_from_millis_or_epoch(millis)
}

fn str_or_empty(x: &JsonValue) -> (r: String)
    ensures
        r@ == str_or(*x, Seq::empty()),
{
    match x.as_str() {
        Some(s) => string_from(s),
        None => String::new(),
    }
}

fn order_status_text_exec(v: &JsonValue) -> (r: String)
    ensures
        r@ == order_status_text(*v),
{
    match v.get("orderStatus") {
        Some(x) => str_or_empty(x),
        None => match v.get("status") {
            Some(y) => str_or_empty(y),
            None => String::new(),
        },
    }
}

fn message_data(t: &WebSocketText) -> (r: Option<&Vec<JsonValue>>)
    ensures
        match r {
            Some(items) => message_data_items(*t) == items@,
            None => message_data_items(*t) == Seq::<JsonValue>::empty(),
        },
        (t.json_payload matches Some(j) && spec_as_array(spec_at(j, "data"@)) is Some) ==> r is Some,
{
    match &t.json_payload {
        Some(j) => match j.get("data") {
            Some(d) => d.as_array(),
            None => None,
        },
        None => None,
    }
}

impl BitgetClient {
    /// The URL of the market-data or account-data endpoint.
    pub fn websocket_api_url(&self, endpoint: WebSocketEndpoint) -> (r: String)
        requires
            endpoint == WebSocketEndpoint::Bitget(ExchangeWebSocketEndpoint::MarketData)
                || endpoint == WebSocketEndpoint::Bitget(ExchangeWebSocketEndpoint::AccountData),
        ensures
            endpoint == WebSocketEndpoint::Bitget(ExchangeWebSocketEndpoint::MarketData) ==> r
                == self.websocket_market_data_api_url,
            endpoint == WebSocketEndpoint::Bitget(ExchangeWebSocketEndpoint::AccountData) ==> r
                == self.websocket_account_data_api_url,
    {
        match endpoint {
            WebSocketEndpoint::Bitget(ExchangeWebSocketEndpoint::MarketData) => self.websocket_market_data_api_url.clone(),
            _ => self.websocket_account_data_api_url.clone(),
        }
    }

    /// The login message at the given time (whole seconds since the epoch), signed with the
    /// credential; empty without one.
    pub fn create_authenticate_websocket_request_at(&self, seconds: i64) -> (r: String)
        ensures
            match self.credential {
                Some(c) => r@ == bitget_login_text(
                    c.api_key@,
                    c.passphrase@,
                    bitget_login_sign(c.api_secret@, int_text(seconds as int)),
                    int_text(seconds as int),
                ),
                None => r@.len() == 0,
            },
    {
        let c = match &self.credential {
            Some(c) => c,
            None => return String::new(),
        };
        let timestamp = i64_to_string(seconds);
        let mut prehash = string_from(timestamp.as_str());
        push_str(&mut prehash, "GET/user/verify");
        let tag = hmac_sha256_single(c.api_secret.as_str().as_bytes(), prehash.as_str().as_bytes());
        let signature = base64_encode(tag.as_slice());
        let mut s = string_from("{\"args\":[{\"apiKey\":");
        write_quoted(c.api_key.as_str(), &mut s);
        push_str(&mut s, ",\"passphrase\":");
        write_quoted(c.passphrase.as_str(), &mut s);
        push_str(&mut s, ",\"sign\":");
        write_quoted(signature.as_str(), &mut s);
        push_str(&mut s, ",\"timestamp\":");
        write_quoted(timestamp.as_str(), &mut s);
        push_str(&mut s, "}],\"op\":\"login\"}");
        s
    }

    /// The login message, signed at the current time; empty without a credential.
    pub fn create_authenticate_websocket_request(&self) -> (r: String)
        ensures
            match self.credential {
                Some(c) => exists|seconds: i64| r@ == #[trigger] bitget_login_text(
                    c.api_key@,
                    c.passphrase@,
                    bitget_login_sign(c.api_secret@, int_text(seconds as int)),
                    int_text(seconds as int),
                ),
                None => r@.len() == 0,
            },
    {
        let now = utc_now();
        self.create_authenticate_websocket_request_at(now.seconds)
    }

    /// "ping".
    pub fn create_heartbeat_websocket_request(&self) -> (r: String)
        ensures
            r@ == "ping"@,
    {
        string_from("ping")
    }

    /// Subscribes to the best bid and ask ("books1") of every symbol.
    pub fn create_subscribe_top_of_book_websocket_request(&self, request: &SubscribeTopOfBookRequest) -> (r: String)
        ensures
            r@ == bitget_subscribe_text(bitget_args_text(unicode_lowercase(self.category@), request.symbols@, "books1"@)),
    {
        let inst_type = to_lowercase(self.category.as_str());
        subscribe_args(inst_type.as_str(), &request.symbols, "books1")
    }

    /// Subscribes to the public trades ("publicTrade") of every symbol.
    pub fn create_subscribe_trade_websocket_request(&self, request: &SubscribeTradeRequest) -> (r: String)
        ensures
            r@ == bitget_subscribe_text(bitget_args_text(unicode_lowercase(self.category@), request.symbols@, "publicTrade"@)),
    {
        let inst_type = to_lowercase(self.category.as_str());
        subscribe_args(inst_type.as_str(), &request.symbols, "publicTrade")
    }

    /// Subscribes to the account's orders.
    pub fn create_subscribe_order_websocket_request(&self, _request: &SubscribeOrderRequest) -> (r: String)
        ensures
            r@ == "{\"args\":[{\"instType\":\"UTA\",\"topic\":\"order\"}],\"op\":\"subscribe\"}"@,
    {
        string_from("{\"args\":[{\"instType\":\"UTA\",\"topic\":\"order\"}],\"op\":\"subscribe\"}")
    }

    /// Subscribes to the account's fills.
    pub fn create_subscribe_fill_websocket_request(&self, _request: &SubscribeFillRequest) -> (r: String)
        ensures
            r@ == "{\"args\":[{\"instType\":\"UTA\",\"topic\":\"fill\"}],\"op\":\"subscribe\"}"@,
    {
        string_from("{\"args\":[{\"instType\":\"UTA\",\"topic\":\"fill\"}],\"op\":\"subscribe\"}")
    }

    /// Records "op" = "pong" for the text "pong"; otherwise the message's "event", and its
    /// argument's "instType" and "topic" (as "arg.instType" and "arg.topic"), strings as
    /// they are and other values as JSON text.
    pub fn populate_websocket_text_payload_summary(&self, websocket_text: &mut WebSocketText)
        ensures
            bitget_summarized(*old(websocket_text), *final(websocket_text)),
    {
        proof {
            reveal_strlit("event");
            reveal_strlit("arg.instType");
            reveal_strlit("arg.topic");
            assert("event"@.len() == 5);
            assert("arg.instType"@.len() == 12);
            assert("arg.topic"@.len() == 9);
        }
        if str_eq(websocket_text.text.as_str(), "pong") {
            websocket_text.payload_summary.insert(string_from("op"), string_from("pong"));
            return;
        }
        let event = match &websocket_text.json_payload {
            Some(j) => match j.get("event") {
                Some(v) => Some(v.text_of()),
                None => None,
            },
            None => None,
        };
        let (inst_type, topic) = match &websocket_text.json_payload {
            Some(j) => match j.get("arg") {
                Some(a) => (
                    match a.get("instType") {
                        Some(v) => Some(v.text_of()),
                        None => None,
                    },
                    match a.get("topic") {
                        Some(v) => Some(v.text_of()),
                        None => None,
                    },
                ),
                None => (None, None),
            },
            None => (None, None),
        };
        match event {
            Some(e) => websocket_text.payload_summary.insert(string_from("event"), e),
            None => {},
        }
        match inst_type {
            Some(v) => websocket_text.payload_summary.insert(string_from("arg.instType"), v),
            None => {},
        }
        match topic {
            Some(v) => websocket_text.payload_summary.insert(string_from("arg.topic"), v),
            None => {},
        }
    }

    /// What a summarized message comes to: data of the topic's kind (None where it lacks
    /// what its conversion reads, or has no known topic), an acknowledgement, or an error.
    pub open spec fn handled(&self, t: WebSocketText, r: Option<Response>) -> bool {
        if bitget_is_data(t) {
            if t.summary("arg.topic"@) == Some("books1"@) {
                if bitget_book_message_ok(t) { r matches Some(x) && self.top_of_book_data(t, x) } else { r is None }
            } else if t.summary("arg.topic"@) == Some("publicTrade"@) {
                if bitget_trade_message_ok(t) { r matches Some(x) && self.trade_data(t, x) } else { r is None }
            } else if t.summary("arg.topic"@) == Some("order"@) {
                r matches Some(x) && self.order_data(t, x)
            } else if t.summary("arg.topic"@) == Some("fill"@) {
                r matches Some(x) && self.fill_data(t, x)
            } else {
                r is None
            }
        } else if bitget_is_success(t) {
            if t.summary("op"@) == Some("pong"@) {
                r matches Some(Response::Heartbeat(h)) && h.id is None
            } else if t.summary("event"@) == Some("subscribe"@) {
                r matches Some(x) && self.subscribe_response(t, x)
            } else {
                r matches Some(Response::Authenticate(a)) && a.id is None
            }
        } else {
            r matches Some(x) && self.websocket_error_response(t, x)
        }
    }

    /// A message as it was read (its text parsed as JSON where it is JSON, its summary
    /// empty), summarized and then classified: data of a topic, an acknowledgement, or an
    /// error. None for data of no known topic, or without what its conversion reads.
    pub fn handle_websocket_text(&self, websocket_text: WebSocketText) -> (r: Option<Response>)
        ensures
            exists|t: WebSocketText| #[trigger] bitget_summarized(websocket_text, t) && self.handled(t, r),
    {
        let mut websocket_text = websocket_text;
        self.populate_websocket_text_payload_summary(&mut websocket_text);
        if self.is_websocket_text_subscription_data(&websocket_text) {
            if self.is_websocket_text_top_of_book_subscription_data(&websocket_text) {
                if book_message_ok(&websocket_text) {
                    Some(self.create_subscribe_top_of_book_websocket_subscription_data(&websocket_text))
                } else {
                    None
                }
            } else if self.is_websocket_text_trade_subscription_data(&websocket_text) {
                if trade_message_ok(&websocket_text) {
                    Some(self.create_subscribe_trade_websocket_subscription_data(&websocket_text))
                } else {
                    None
                }
            } else if self.is_websocket_text_order_subscription_data(&websocket_text) {
                Some(self.create_subscribe_order_websocket_subscription_data(&websocket_text))
            } else if self.is_websocket_text_fill_subscription_data(&websocket_text) {
                Some(self.create_subscribe_fill_websocket_subscription_data(&websocket_text))
            } else if self.is_unexpected_websocket_text_subscription_data_benign(&websocket_text) {
                Some(Response::Unneeded(websocket_text))
            } else {
                None
            }
        } else if self.is_websocket_text_success_response(&websocket_text) {
            if self.is_websocket_text_heartbeat_response(&websocket_text) {
                Some(self.create_heartbeat_websocket_response(&websocket_text))
            } else if self.is_websocket_text_subscribe_success_response(&websocket_text) {
                Some(self.create_subscribe_websocket_response(&websocket_text))
            } else if self.is_websocket_text_authenticate_success_response(&websocket_text) {
                Some(self.create_authenticate_websocket_response(&websocket_text))
            } else {
                None
            }
        } else {
            let ghost t = websocket_text;
            let e = self.create_websocket_error_response(websocket_text);
            assert(self.handled(t, Some(e)));
            Some(e)
        }
    }

    /// Neither an "event" nor an "op" in the summary.
    pub fn is_websocket_text_subscription_data(&self, websocket_text: &WebSocketText) -> (r: bool)
        ensures
            r == bitget_is_data(*websocket_text),
    {
        websocket_text.payload_summary.get("event").is_none() && websocket_text.payload_summary.get("op").is_none()
    }

    pub fn is_websocket_text_top_of_book_subscription_data(&self, websocket_text: &WebSocketText) -> (r: bool)
        ensures
            r == (websocket_text.summary("arg.topic"@) == Some("books1"@)),
    {
        websocket_text.summary_is("arg.topic", "books1")
    }

    pub fn is_websocket_text_trade_subscription_data(&self, websocket_text: &WebSocketText) -> (r: bool)
        ensures
            r == (websocket_text.summary("arg.topic"@) == Some("publicTrade"@)),
    {
        websocket_text.summary_is("arg.topic", "publicTrade")
    }

    pub fn is_websocket_text_order_subscription_data(&self, websocket_text: &WebSocketText) -> (r: bool)
        ensures
            r == (websocket_text.summary("arg.topic"@) == Some("order"@)),
    {
        websocket_text.summary_is("arg.topic", "order")
    }

    pub fn is_websocket_text_fill_subscription_data(&self, websocket_text: &WebSocketText) -> (r: bool)
        ensures
            r == (websocket_text.summary("arg.topic"@) == Some("fill"@)),
    {
        websocket_text.summary_is("arg.topic", "fill")
    }

    pub fn is_unexpected_websocket_text_subscription_data_benign(&self, _websocket_text: &WebSocketText) -> (r: bool)
        ensures
            !r,
    {
        false
    }

    /// The best bid and ask of the first data item.
    pub open spec fn top_of_book_data(&self, websocket_text: WebSocketText, r: Response) -> bool {
        &&& r matches Response::TopOfBookSubscription(d) && d.data@.len() == 1 && bitget_book_matches(
                d.data@[0],
                websocket_text.json_payload->0,
                self.instrument_type,
            )
    }

    /// The best bid and ask of the first data item.
    pub fn create_subscribe_top_of_book_websocket_subscription_data(&self, websocket_text: &WebSocketText) -> (r: Response)
        requires
            bitget_book_message_ok(*websocket_text),
        ensures
            self.top_of_book_data(*websocket_text, r),
    {
        let json = websocket_text.json_payload.as_ref().unwrap();
        let arg = json.at("arg").unwrap();
        let symbol = required_member_str(arg, "symbol");
        let data = json.at("data").unwrap();
        let item = data.at_index(0).unwrap();
        let timestamp = required_millis(item, "ts");
        let (bid_price, bid_size) = best_level_exec(item, "b");
        let (ask_price, ask_size) = best_level_exec(item, "a");
        let book = TopOfBook {
            exchange_instrument_type: ExchangeInstrumentType::Bitget(self.instrument_type),
            symbol,
            timestamp,
            bid_price,
            bid_size,
            ask_price,
            ask_size,
        };
        let mut books: Vec<TopOfBook> = Vec::new();
        books.push(book);
        Response::TopOfBookSubscription(TopOfBookSubscriptionData { data: books })
    }

    /// A trade per data item.
    pub open spec fn trade_data(&self, websocket_text: WebSocketText, r: Response) -> bool {
        &&& r matches Response::TradeSubscription(d) && d.data@.len() == message_data_items(websocket_text).len()
                && forall|i: int| 0 <= i < d.data@.len() ==> bitget_trade_matches(
                #[trigger] d.data@[i],
                message_data_items(websocket_text)[i],
                field_str(spec_at(websocket_text.json_payload->0, "arg"@), "symbol"@),
                self.instrument_type,
            )
    }

    /// One trade per data item, all of the argument's symbol.
    pub fn create_subscribe_trade_websocket_subscription_data(&self, websocket_text: &WebSocketText) -> (r: Response)
        requires
            bitget_trade_message_ok(*websocket_text),
        ensures
            self.trade_data(*websocket_text, r),
    {
        let json = websocket_text.json_payload.as_ref().unwrap();
        let arg = json.at("arg").unwrap();
        let symbol = required_member_str(arg, "symbol");
        let items = message_data(websocket_text).unwrap();
        let mut trades: Vec<Trade> = Vec::new();
        let mut i: usize = 0;
        while i < items.len()
            invariant
                message_data_items(*websocket_text) == items@,
                forall|k: int| 0 <= k < items@.len() ==> bitget_trade_item_ok(#[trigger] items@[k]),
                i <= items@.len(),
                trades@.len() == i,
                forall|k: int| 0 <= k < i ==> bitget_trade_matches(#[trigger] trades@[k], items@[k], symbol@, self.instrument_type),
            decreases items.len() - i,
        {
            let v = &items[i];
            assert(bitget_trade_item_ok(items@[i as int]));
            let side_text = match v.get("S") {
                Some(s) => s.as_str(),
                None => None,
            };
            let side = match side_text {
                Some(s) => if str_eq(s, "buy") {
                    TakerSide::Buy
                } else if str_eq(s, "sell") {
                    TakerSide::Sell
                } else {
                    TakerSide::Unknown
                },
                None => TakerSide::Unknown,
            };
            let trade = Trade {
                exchange_instrument_type: ExchangeInstrumentType::Bitget(self.instrument_type),
                symbol: symbol.clone(),
                timestamp: required_millis(v, "T"),
                price: required_member_str(v, "p"),
                size: required_member_str(v, "v"),
                side,
            };
            trades.push(trade);
            i = i + 1;
        }
        Response::TradeSubscription(TradeSubscriptionData { data: trades })
    }

    /// An order per data item.
    pub open spec fn order_data(&self, websocket_text: WebSocketText, r: Response) -> bool {
        &&& r matches Response::OrderSubscription(d) && d.data@.len() == message_data_items(websocket_text).len()
                && forall|i: int| 0 <= i < d.data@.len() ==> bitget_order_update_matches(
                #[trigger] d.data@[i],
                message_data_items(websocket_text)[i],
                self.instrument_type,
            )
    }

    /// One order per data item.
    pub fn create_subscribe_order_websocket_subscription_data(&self, websocket_text: &WebSocketText) -> (r: Response)
        ensures
            self.order_data(*websocket_text, r),
    {
        let mut orders: Vec<Order> = Vec::new();
        match message_data(websocket_text) {
            Some(items) => {
                let mut i: usize = 0;
                while i < items.len()
                    invariant
                        message_data_items(*websocket_text) == items@,
                        i <= items@.len(),
                        orders@.len() == i,
                        forall|k: int| 0 <= k < i ==> bitget_order_update_matches(#[trigger] orders@[k], items@[k], self.instrument_type),
                    decreases items.len() - i,
                {
                    let v = &items[i];
                    let status = order_status_text_exec(v);
                    let order_type = v.field_str("orderType");
                    let side = v.field_str("side");
                    let is_maker = match v.get("isMaker") {
                        Some(m) => match m.as_str() {
                            Some(s) => str_eq(s, "true"),
                            None => false,
                        },
                        None => false,
                    };
                    let order = Order {
                        exchange_instrument_type: ExchangeInstrumentType::Bitget(self.instrument_type),
                        symbol: v.field_str("symbol"),
                        order_id: v.field_str("orderId"),
                        client_order_id: v.field_str("clientOid"),
                        order_type: self.convert_string_to_order_type(order_type.as_str()),
                        side: self.convert_string_to_order_side(side.as_str()),
                        price: v.field_str("price"),
                        quantity: v.field_str("qty"),
                        leverage: v.field_str("leverage"),
                        remaining_quantity: String::new(),
                        cumulative_filled_quantity: v.field_str("cumExecQty"),
                        cumulative_filled_quote_quantity: String::new(),
                        average_filled_price: v.field_str("avgPrice"),
                        status: self.convert_string_to_order_status(status.as_str()),
                        fill_price: v.field_str("fillPrice"),
                        fill_quantity: v.field_str("baseVolume"),
                        fill_quote_quantity: String::new(),
                        fill_is_maker: is_maker,
                    };
                    orders.push(order);
                    i = i + 1;
                }
            },
            None => {},
        }
        Response::OrderSubscription(OrderSubscriptionData { data: orders })
    }

    /// A fill per data item.
    pub open spec fn fill_data(&self, websocket_text: WebSocketText, r: Response) -> bool {
        &&& r matches Response::FillSubscription(d) && d.data@.len() == message_data_items(websocket_text).len()
                && forall|i: int| 0 <= i < d.data@.len() ==> bitget_fill_matches(
                #[trigger] d.data@[i],
                message_data_items(websocket_text)[i],
                self.instrument_type,
            )
    }

    /// One fill per data item.
    pub fn create_subscribe_fill_websocket_subscription_data(&self, websocket_text: &WebSocketText) -> (r: Response)
        ensures
            self.fill_data(*websocket_text, r),
    {
        let mut fills: Vec<Fill> = Vec::new();
        match message_data(websocket_text) {
            Some(items) => {
                let mut i: usize = 0;
                while i < items.len()
                    invariant
                        message_data_items(*websocket_text) == items@,
                        i <= items@.len(),
                        fills@.len() == i,
                        forall|k: int| 0 <= k < i ==> bitget_fill_matches(#[trigger] fills@[k], items@[k], self.instrument_type),
                    decreases items.len() - i,
                {
                    let v = &items[i];
                    let is_maker = match v.get("tradeScope") {
                        Some(m) => match m.as_str() {
                            Some(s) => str_eq(s, "maker"),
                            None => false,
                        },
                        None => false,
                    };
                    let side = match v.get("side") {
                        Some(m) => match m.as_str() {
                            Some(s) => if str_eq(s, "buy") {
                                OrderSide::Buy
                            } else if str_eq(s, "sell") {
                                OrderSide::Sell
                            } else {
                                OrderSide::Unknown
                            },
                            None => OrderSide::Unknown,
                        },
                        None => OrderSide::Unknown,
                    };
                    let fill = Fill {
                        exchange_instrument_type: ExchangeInstrumentType::Bitget(self.instrument_type),
                        symbol: v.field_str("symbol"),
                        order_id: v.field_str("orderId"),
                        client_order_id: v.field_str("clientOid"),
                        side,
                        price: v.field_str("execPrice"),
                        quantity: v.field_str("execQty"),
                        quote_quantity: String::new(),
                        is_maker,
                    };
                    fills.push(fill);
                    i = i + 1;
                }
            },
            None => {},
        }
        Response::FillSubscription(FillSubscriptionData { data: fills })
    }

    /// "op" "pong", or "event" "login" or "subscribe".
    pub fn is_websocket_text_success_response(&self, websocket_text: &WebSocketText) -> (r: bool)
        ensures
            r == bitget_is_success(*websocket_text),
    {
        websocket_text.summary_is("op", "pong") || websocket_text.summary_is("event", "login")
            || websocket_text.summary_is("event", "subscribe")
    }

    pub fn is_websocket_text_authenticate_success_response(&self, websocket_text: &WebSocketText) -> (r: bool)
        ensures
            r == (websocket_text.summary("event"@) == Some("login"@)),
    {
        websocket_text.summary_is("event", "login")
    }

    pub fn is_websocket_text_subscribe_success_response(&self, websocket_text: &WebSocketText) -> (r: bool)
        ensures
            r == (websocket_text.summary("event"@) == Some("subscribe"@)),
    {
        websocket_text.summary_is("event", "subscribe")
    }

    pub fn is_websocket_text_heartbeat_response(&self, websocket_text: &WebSocketText) -> (r: bool)
        ensures
            r == (websocket_text.summary("op"@) == Some("pong"@)),
    {
        websocket_text.summary_is("op", "pong")
    }

    pub fn create_authenticate_websocket_response(&self, _websocket_text: &WebSocketText) -> (r: Response)
        ensures
            r matches Response::Authenticate(a) && a.id is None,
    {
        Response::Authenticate(AuthenticateResponse { id: None })
    }

    /// The argument's symbol and what its topic subscribes to.
    pub open spec fn subscribe_response(&self, websocket_text: WebSocketText, r: Response) -> bool {
        &&& r matches Response::Subscribe(s) && s.id is None && match message_arg(websocket_text) {
                Some(arg) => {
                    &&& s.kind == bitget_kind_of(spec_as_str(spec_at(arg, "topic"@)))
                    &&& match spec_as_str(spec_at(arg, "symbol"@)) {
                        Some(sym) => s.symbols@.len() == 1 && s.symbols@[0]@ == sym,
                        None => s.symbols@.len() == 0,
                    }
                },
                None => s.symbols@.len() == 0 && s.kind is None,
            }
    }

    /// The argument's symbol (where it is a string) and what its topic subscribes to.
    pub fn create_subscribe_websocket_response(&self, websocket_text: &WebSocketText) -> (r: Response)
        ensures
            self.subscribe_response(*websocket_text, r),
    {
        let mut symbols: Vec<String> = Vec::new();
        let arg: Option<&JsonValue> = match &websocket_text.json_payload {
            Some(j) => match j.at("arg") {
                Some(a) => match a {
                    JsonValue::Object(_) => Some(a),
                    _ => None,
                },
                None => None,
            },
            None => None,
        };
        let kind = match arg {
            Some(a) => {
                match a.at("symbol") {
                    Some(s) => match s.as_str() {
                        Some(t) => symbols.push(string_from(t)),
                        None => {},
                    },
                    None => {},
                }
                match a.at("topic") {
                    Some(t) => match t.as_str() {
                        Some(topic) => if str_eq(topic, "books1") || str_eq(topic, "books") {
                            Some(SubscribeResponseKind::TopOfBook)
                        } else if str_eq(topic, "publicTrade") {
                            Some(SubscribeResponseKind::Trade)
                        } else if str_eq(topic, "order") {
                            Some(SubscribeResponseKind::Order)
                        } else if str_eq(topic, "fill") {
                            Some(SubscribeResponseKind::Fill)
                        } else {
                            None
                        },
                        None => None,
                    },
                    None => None,
                }
            },
            None => None,
        };
        Response::Subscribe(SubscribeResponse { id: None, symbols, kind })
    }

    pub fn create_heartbeat_websocket_response(&self, _websocket_text: &WebSocketText) -> (r: Response)
        ensures
            r matches Response::Heartbeat(h) && h.id is None,
    {
        Response::Heartbeat(HeartbeatResponse { id: None })
    }

    /// The message with its "code" (as text) and its "msg" (where a string) where it is JSON.
    pub open spec fn websocket_error_response(&self, websocket_text: WebSocketText, r: Response) -> bool {
        &&& r matches Response::WebSocketErrorResponse(t) && t.url == websocket_text.url && t.text
                == websocket_text.text && t.json_payload == websocket_text.json_payload
                && t.payload_summary == websocket_text.payload_summary && match websocket_text.json_payload {
                Some(j) => opt_view(t.error_code) == (match spec_get(j, "code"@) {
                    Some(c) => Some(text_of(c)),
                    None => None,
                }) && opt_view(t.error_message) == (match spec_get(j, "msg"@) {
                    Some(m) => spec_as_str(m),
                    None => None,
                }),
                None => t.error_code == websocket_text.error_code && t.error_message == websocket_text.error_message,
            }
    }

    /// The message with its "code" (as text) and its "msg" (where a string) where it is JSON.
    pub fn create_websocket_error_response(&self, websocket_text: WebSocketText) -> (r: Response)
        ensures
            self.websocket_error_response(websocket_text, r),
    {
        let mut t = websocket_text;
        match &t.json_payload {
            Some(j) => {
                let code = match j.get("code") {
                    Some(c) => Some(c.text_of()),
                    None => None,
                };
                let message = match j.get("msg") {
                    Some(m) => match m.as_str() {
                        Some(s) => Some(string_from(s)),
                        None => None,
                    },
                    None => None,
                };
                t.error_code = code;
                t.error_message = message;
            },
            None => {},
        }
        Response::WebSocketErrorResponse(t)
    }
}

} // verus!
