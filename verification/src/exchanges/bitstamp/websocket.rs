//! Bitstamp's websocket API: connection, subscriptions, and the messages it sends.

use vstd::prelude::*;
use vstd::utf8::encode_utf8;
use crate::exchange_client::common::{
    AuthenticateResponse, FillSubscriptionData, HeartbeatResponse, OrderSubscriptionData, Response,
    SubscribeFillRequest, SubscribeOrderRequest, SubscribeResponse, SubscribeResponseKind,
    SubscribeTopOfBookRequest, SubscribeTradeRequest, TopOfBookSubscriptionData, TradeSubscriptionData,
};
use crate::exchanges::bitstamp::common::{bitstamp_side_of, BitstampClient};
use crate::json::{quoted, spec_as_array, spec_as_i64, spec_as_str, spec_at, spec_get, text_of, write_quoted, JsonValue};
use crate::networking::http::{opt_view, HttpMethod, HttpRequest, HttpResponse, status_is_success};
use crate::networking::websocket::WebSocketText;
use crate::signing::{hex_encode, hex_text, hmac_sha256, hmac_sha256_tag, parse_url_host, url_host};
use crate::text::{before_last, before_last_char, push_str, str_eq, string_from, strip_prefix};
use crate::time::{from_seconds_or_epoch, seconds_in_range, timestamp_from_micros, timestamp_from_seconds_or_epoch};
use crate::types::{
    ExchangeInstrumentType, ExchangeWebSocketEndpoint, Fill, Order, OrderSide, OrderStatus, OrderType,
    TakerSide, Timestamp, TopOfBook, Trade, WebSocketEndpoint,
};

verus! {

/// The first symbol of a subscription, or empty.
pub open spec fn first_symbol(symbols: Seq<String>) -> Seq<char> {
    if symbols.len() > 0 {
        symbols[0]@
    } else {
        Seq::empty()
    }
}

fn first_symbol_exec(symbols: &Vec<String>) -> (r: String)
    ensures
        r@ == first_symbol(symbols@),
{
    if symbols.len() > 0 {
        symbols[0].clone()
    } else {
        String::new()
    }
}

/// `{"data":{"channel":<channel>},"event":"bts:subscribe"}`.
pub open spec fn public_subscription_text(channel: Seq<char>) -> Seq<char> {
    "{\"data\":{\"channel\":"@ + quoted(channel) + "},\"event\":\"bts:subscribe\"}"@
}

/// `{"data":{"auth":<token>,"channel":<channel>},"event":"bts:subscribe"}`.
pub open spec fn private_subscription_text(channel: Seq<char>, token: Seq<char>) -> Seq<char> {
    "{\"data\":{\"auth\":"@ + quoted(token) + ",\"channel\":"@ + quoted(channel)
        + "},\"event\":\"bts:subscribe\"}"@
}

fn public_subscription(channel: &str) -> (r: String)
    ensures
        r@ == public_subscription_text(channel@),
{
    let mut s = string_from("{\"data\":{\"channel\":");
    write_quoted(channel, &mut s);
    push_str(&mut s, "},\"event\":\"bts:subscribe\"}");
    s
}

fn private_subscription(channel: &str, token: &str) -> (r: String)
    ensures
        r@ == private_subscription_text(channel@, token@),
{
    let mut s = string_from("{\"data\":{\"auth\":");
    write_quoted(token, &mut s);
    push_str(&mut s, ",\"channel\":");
    write_quoted(channel, &mut s);
    push_str(&mut s, "},\"event\":\"bts:subscribe\"}");
    s
}

pub open spec fn opt_or_empty(s: Option<String>) -> Seq<char> {
    match s {
        Some(t) => t@,
        None => Seq::empty(),
    }
}

fn opt_or_empty_exec(s: &Option<String>) -> (r: String)
    ensures
        r@ == opt_or_empty(*s),
{
    match s {
        Some(t) => t.clone(),
        None => String::new(),
    }
}

/// Whether the summary's channel starts with the prefix.
pub open spec fn channel_starts(t: WebSocketText, prefix: Seq<char>) -> bool {
    t.summary("channel"@) matches Some(c) && prefix.is_prefix_of(c)
}

/// Whether the summary's event is one that carries subscription data.
pub open spec fn is_data_event(e: Option<Seq<char>>) -> bool {
    e == Some("data"@) || e == Some("trade"@) || e == Some("order_created"@) || e == Some(
        "order_changed"@,
    ) || e == Some("order_deleted"@)
}

/// The text of a member, or empty where there is none.
pub open spec fn opt_text(m: Option<JsonValue>) -> Seq<char> {
    match m {
        Some(v) => text_of(v),
        None => Seq::empty(),
    }
}

/// The symbol in a private channel name: what follows the prefix, up to the last '-'.
pub open spec fn private_symbol(channel: Seq<char>, prefix: Seq<char>) -> Seq<char> {
    let suffix = if prefix.is_prefix_of(channel) {
        channel.subrange(prefix.len() as int, channel.len() as int)
    } else {
        Seq::empty()
    };
    before_last(suffix, '-')
}

/// What follows the prefix in a channel name, or empty.
pub open spec fn after_prefix(channel: Seq<char>, prefix: Seq<char>) -> Seq<char> {
    if prefix.is_prefix_of(channel) {
        channel.subrange(prefix.len() as int, channel.len() as int)
    } else {
        Seq::empty()
    }
}

fn after_prefix_exec(channel: &str, prefix: &str) -> (r: String)
    ensures
        r@ == after_prefix(channel@, prefix@),
{
    match strip_prefix(channel, prefix) {
        Some(s) => s,
        None => String::new(),
    }
}

pub open spec fn summary_or_empty(t: WebSocketText, key: Seq<char>) -> Seq<char> {
    match t.summary(key) {
        Some(v) => v,
        None => Seq::empty(),
    }
}

/// The member of the message's "data" member (null where there is none).
pub open spec fn data_of(t: WebSocketText) -> JsonValue {
    match t.json_payload {
        Some(j) => match spec_get(j, "data"@) {
            Some(d) => d,
            None => JsonValue::Null,
        },
        None => JsonValue::Null,
    }
}

/// `data.get(key)` as text, or empty.
pub open spec fn data_text(t: WebSocketText, key: Seq<char>) -> Seq<char> {
    opt_text(spec_get(data_of(t), key))
}

/// A string member read as an integer.
pub open spec fn parsed_member(d: JsonValue, key: Seq<char>) -> Option<i64> {
    match spec_get(d, key) {
        Some(v) => match spec_as_str(v) {
            Some(s) => crate::text::parse_i64_spec(s),
            None => None,
        },
        None => None,
    }
}

/// The time of a message's data: "microtimestamp" in microseconds, else "timestamp"
/// in seconds, else the epoch.
pub open spec fn data_time_matches(t: Timestamp, d: JsonValue) -> bool {
    let fallback = match parsed_member(d, "timestamp"@) {
        Some(s) => from_seconds_or_epoch(t, s as int),
        None => t.is_epoch(),
    };
    match parsed_member(d, "microtimestamp"@) {
        Some(m) => {
            let exact = t.seconds == (m as int) / 1_000_000 && t.nanoseconds == ((m as int) % 1_000_000) * 1000;
            if seconds_in_range((m as int) / 1_000_000) {
                exact
            } else {
                fallback
            }
        },
        None => fallback,
    }
}

/// The n-th item of the first item of the array under `key`, as text, or empty.
pub open spec fn level_text(d: JsonValue, key: Seq<char>, n: int) -> Seq<char> {
    match spec_get(d, key) {
        Some(levels) => match spec_as_array(levels) {
            Some(ls) => if ls.len() > 0 {
                match spec_as_array(ls[0]) {
                    Some(level) => if n < level.len() { text_of(level[n]) } else { Seq::empty() },
                    None => Seq::empty(),
                }
            } else {
                Seq::empty()
            },
            None => Seq::empty(),
        },
        None => Seq::empty(),
    }
}

/// The order status of an order event; a deleted order whose amount reads as the float
/// zero (`amount.parse::<f64>() == Ok(0.0)`, decided by the caller) is filled.
pub open spec fn bitstamp_order_status(event: Seq<char>, amount_is_zero: bool) -> OrderStatus {
    if event == "order_created"@ || event == "order_changed"@ {
        OrderStatus::Open
    } else if event == "order_deleted"@ {
        if amount_is_zero {
            OrderStatus::Filled
        } else {
            OrderStatus::Canceled
        }
    } else {
        OrderStatus::Unknown
    }
}

pub open spec fn taker_side_of(v: Option<JsonValue>) -> TakerSide {
    match v {
        Some(x) => match spec_as_i64(x) {
            Some(n) => if n == 0 { TakerSide::Buy } else if n == 1 { TakerSide::Sell } else { TakerSide::Unknown },
            None => TakerSide::Unknown,
        },
        None => TakerSide::Unknown,
    }
}

pub open spec fn fill_side_of(v: Option<JsonValue>) -> OrderSide {
    match v {
        Some(x) => match spec_as_i64(x) {
            Some(n) => if n == 0 { OrderSide::Buy } else if n == 1 { OrderSide::Sell } else { OrderSide::Unknown },
            None => OrderSide::Unknown,
        },
        None => OrderSide::Unknown,
    }
}

fn parsed_member_exec(d: &JsonValue, key: &str) -> (r: Option<i64>)
    ensures
        r == parsed_member(*d, key@),
{
    match d.get(key) {
        Some(v) => match v.as_str() {
            Some(s) => crate::text::parse_i64(s),
            None => None,
        },
        None => None,
    }
}

fn data_time(d: &JsonValue) -> (r: Timestamp)
    ensures
        data_time_matches(r, *d),
{
    let fallback = match parsed_member_exec(d, "timestamp") {
        Some(s) => timestamp_from_seconds_or_epoch(s),
        None => Timestamp::epoch(),
    };
    match parsed_member_exec(d, "microtimestamp") {
        Some(m) => match timestamp_from_micros(m) {
            Some(t) => t,
            None => fallback,
        },
        None => fallback,
    }
}

fn level_text_exec(d: &JsonValue, key: &str, n: usize) -> (r: String)
    ensures
        r@ == level_text(*d, key@, n as int),
{
    match d.get(key) {
        Some(levels) => match levels.as_array() {
            Some(ls) => if ls.len() > 0 {
                match ls[0].as_array() {
                    Some(level) => if n < level.len() { level[n].text_of() } else { String::new() },
                    None => String::new(),
                }
            } else {
                String::new()
            },
            None => String::new(),
        },
        None => String::new(),
    }
}

fn data_exec(t: &WebSocketText) -> (r: Option<&JsonValue>)
    ensures
        match r {
            Some(d) => data_of(*t) == *d,
            None => data_of(*t) == JsonValue::Null,
        },
{
    match &t.json_payload {
        Some(j) => j.get("data"),
        None => None,
    }
}

fn data_text_exec(t: &WebSocketText, key: &str) -> (r: String)
    ensures
        r@ == data_text(*t, key@),
{
    match data_exec(t) {
        Some(d) => match d.get(key) {
            Some(v) => v.text_of(),
            None => String::new(),
        },
        None => String::new(),
    }
}

impl BitstampClient {
    /// The URL of the market-data or account-data endpoint.
    pub fn websocket_api_url(&self, endpoint: WebSocketEndpoint) -> (r: String)
        requires
            endpoint == WebSocketEndpoint::Bitstamp(ExchangeWebSocketEndpoint::MarketData)
                || endpoint == WebSocketEndpoint::Bitstamp(ExchangeWebSocketEndpoint::AccountData),
        ensures
            endpoint == WebSocketEndpoint::Bitstamp(ExchangeWebSocketEndpoint::MarketData) ==> r
                == self.websocket_market_data_api_url,
            endpoint == WebSocketEndpoint::Bitstamp(ExchangeWebSocketEndpoint::AccountData) ==> r
                == self.websocket_account_data_api_url,
    {
        match endpoint {
            WebSocketEndpoint::Bitstamp(ExchangeWebSocketEndpoint::MarketData) => self.websocket_market_data_api_url.clone(),
            _ => self.websocket_account_data_api_url.clone(),
        }
    }

    /// `{"event":"bts:heartbeat"}`.
    pub fn create_heartbeat_websocket_request(&self) -> (r: String)
        ensures
            r@ == "{\"event\":\"bts:heartbeat\"}"@,
    {
        string_from("{\"event\":\"bts:heartbeat\"}")
    }

    /// Subscribes to the order book channel of the first symbol.
    pub fn create_subscribe_top_of_book_websocket_request(&self, request: &SubscribeTopOfBookRequest) -> (r: String)
        ensures
            r@ == public_subscription_text("order_book_"@ + first_symbol(request.symbols@)),
    {
        let mut channel = string_from("order_book_");
        let symbol = first_symbol_exec(&request.symbols);
        push_str(&mut channel, symbol.as_str());
        public_subscription(channel.as_str())
    }

    /// Subscribes to the live trades channel of the first symbol.
    pub fn create_subscribe_trade_websocket_request(&self, request: &SubscribeTradeRequest) -> (r: String)
        ensures
            r@ == public_subscription_text("live_trades_"@ + first_symbol(request.symbols@)),
    {
        let mut channel = string_from("live_trades_");
        let symbol = first_symbol_exec(&request.symbols);
        push_str(&mut channel, symbol.as_str());
        public_subscription(channel.as_str())
    }

    /// Subscribes to the user's order channel of the first symbol, with the websocket token.
    pub fn create_subscribe_order_websocket_request(&self, request: &SubscribeOrderRequest) -> (r: String)
        ensures
            r@ == private_subscription_text(
                "private-my_orders_"@ + first_symbol(request.symbols@) + "-"@ + opt_or_empty(self.websocket_user_id),
                opt_or_empty(self.websocket_token),
            ),
    {
        let mut channel = string_from("private-my_orders_");
        let symbol = first_symbol_exec(&request.symbols);
        push_str(&mut channel, symbol.as_str());
        push_str(&mut channel, "-");
        let user_id = opt_or_empty_exec(&self.websocket_user_id);
        push_str(&mut channel, user_id.as_str());
        let token = opt_or_empty_exec(&self.websocket_token);
        private_subscription(channel.as_str(), token.as_str())
    }

    /// Subscribes to the user's trade channel of the first symbol, with the websocket token.
    pub fn create_subscribe_fill_websocket_request(&self, request: &SubscribeFillRequest) -> (r: String)
        ensures
            r@ == private_subscription_text(
                "private-my_trades_"@ + first_symbol(request.symbols@) + "-"@ + opt_or_empty(self.websocket_user_id),
                opt_or_empty(self.websocket_token),
            ),
    {
        let mut channel = string_from("private-my_trades_");
        let symbol = first_symbol_exec(&request.symbols);
        push_str(&mut channel, symbol.as_str());
        push_str(&mut channel, "-");
        let user_id = opt_or_empty_exec(&self.websocket_user_id);
        push_str(&mut channel, user_id.as_str());
        let token = opt_or_empty_exec(&self.websocket_token);
        private_subscription(channel.as_str(), token.as_str())
    }

    /// What a summarized message comes to: data of the channel's kind, a heartbeat or
    /// subscription answer, or an error; None for data of no known channel.
    pub open spec fn handled(&self, t: WebSocketText, r: Option<Response>, amount_is_zero: bool) -> bool {
        if is_data_event(t.summary("event"@)) {
            if channel_starts(t, "order_book_"@) {
                r matches Some(x) && self.top_of_book_data(t, x)
            } else if channel_starts(t, "live_trades_"@) {
                r matches Some(x) && self.trade_data(t, x)
            } else if channel_starts(t, "private-my_orders_"@) {
                r matches Some(x) && self.order_data(t, x, amount_is_zero)
            } else if channel_starts(t, "private-my_trades_"@) {
                r matches Some(x) && self.fill_data(t, x)
            } else {
                r is None
            }
        } else if t.summary("event"@) == Some("bts:heartbeat"@) {
            r matches Some(Response::Heartbeat(h)) && h.id is None
        } else if t.summary("event"@) == Some("bts:subscription_succeeded"@) {
            r matches Some(x) && self.subscribe_response(t, x)
        } else {
            r matches Some(x) && self.error_response(t, x)
        }
    }

    /// A message as it was read (its text parsed as JSON where it is JSON, its summary
    /// empty), summarized and then classified: data of a channel, a heartbeat or
    /// subscription answer, or an error. None for data of no known channel. Whether the
    /// message's order amount (`order_amount_text`) reads as the float zero is the
    /// caller's to say.
    pub fn handle_websocket_text(&self, websocket_text: WebSocketText, amount_is_zero: bool) -> (r: Option<Response>)
        ensures
            exists|t: WebSocketText| #[trigger] self.summarized(websocket_text, t) && self.handled(t, r, amount_is_zero),
    {
        let mut websocket_text = websocket_text;
        self.populate_websocket_text_payload_summary(&mut websocket_text);
        let r = if self.is_websocket_text_subscription_data(&websocket_text) {
            if self.is_websocket_text_top_of_book_subscription_data(&websocket_text) {
                Some(self.create_subscribe_top_of_book_websocket_subscription_data(&websocket_text))
            } else if self.is_websocket_text_trade_subscription_data(&websocket_text) {
                Some(self.create_subscribe_trade_websocket_subscription_data(&websocket_text))
            } else if self.is_websocket_text_order_subscription_data(&websocket_text) {
                Some(self.create_subscribe_order_websocket_subscription_data(&websocket_text, amount_is_zero))
            } else if self.is_websocket_text_fill_subscription_data(&websocket_text) {
                Some(self.create_subscribe_fill_websocket_subscription_data(&websocket_text))
            } else if self.is_websocket_text_unneeded_subscription_data(&websocket_text) {
                Some(Response::Unneeded(websocket_text))
            } else {
                None
            }
        } else if self.is_websocket_text_success_response(&websocket_text) {
            if self.is_websocket_text_heartbeat_response(&websocket_text) {
                Some(self.create_heartbeat_websocket_response(&websocket_text))
            } else if self.is_websocket_text_subscribe_success_response(&websocket_text) {
                Some(self.create_subscribe_websocket_response(&websocket_text))
            } else if self.is_websocket_text_authenticate_success_response(&websocket_text) {
                Some(self.create_authenticate_websocket_response(&websocket_text))
            } else {
                None
            }
        } else {
            let ghost t = websocket_text;
            let e = self.create_websocket_error_response(websocket_text);
            assert(self.handled(t, Some(e), amount_is_zero));
            Some(e)
        };
        r
    }

    /// The message with its "event" and "channel" members (strings as they are, other values as JSON text) in its summary; nothing added where it is not JSON.
    pub open spec fn summarized(&self, o: WebSocketText, n: WebSocketText) -> bool {
        &&& n.url == o.url
        &&& n.text == o.text
        &&& n.json_payload == o.json_payload
        &&& n.error_code == o.error_code
        &&& n.error_message == o.error_message
        &&& match o.json_payload {
                Some(j) => {
                    &&& n.summary("event"@) == match spec_get(j, "event"@) {
                        Some(v) => Some(text_of(v)),
                        None => o.summary("event"@),
                    }
                    &&& n.summary("channel"@) == match spec_get(j, "channel"@) {
                        Some(v) => Some(text_of(v)),
                        None => o.summary("channel"@),
                    }
                    &&& forall|k: Seq<char>| k != "event"@ && k != "channel"@ ==> n.summary(k)
                        == o.summary(k)
                },
                None => n.payload_summary == o.payload_summary,
            }
    }

    /// Records the message's "event" and "channel" members (strings as they are, other
    /// values as JSON text) in its summary; nothing where the message is not JSON.
    pub fn populate_websocket_text_payload_summary(&self, websocket_text: &mut WebSocketText)
        ensures
            self.summarized(*old(websocket_text), *final(websocket_text)),
    {
        proof {
            reveal_strlit("event");
            reveal_strlit("channel");
            assert("event"@.len() != "channel"@.len());
        }
        let ghost before = websocket_text.payload_summary;
        let event = match &websocket_text.json_payload {
            Some(j) => match j.get("event") {
                Some(v) => Some(v.text_of()),
                None => None,
            },
            None => None,
        };
        let channel = match &websocket_text.json_payload {
            Some(j) => match j.get("channel") {
                Some(v) => Some(v.text_of()),
                None => None,
            },
            None => None,
        };
        match event {
            Some(e) => websocket_text.payload_summary.insert(string_from("event"), e),
            None => {},
        }
        match channel {
            Some(c) => websocket_text.payload_summary.insert(string_from("channel"), c),
            None => {},
        }
    }

    /// An event that carries data: "data", "trade", "order_created", "order_changed", "order_deleted".
    pub fn is_websocket_text_subscription_data(&self, websocket_text: &WebSocketText) -> (r: bool)
        ensures
            r == is_data_event(websocket_text.summary("event"@)),
    {
        websocket_text.summary_is("event", "data") || websocket_text.summary_is("event", "trade")
            || websocket_text.summary_is("event", "order_created") || websocket_text.summary_is(
            "event",
            "order_changed",
        ) || websocket_text.summary_is("event", "order_deleted")
    }

    pub fn is_websocket_text_top_of_book_subscription_data(&self, websocket_text: &WebSocketText) -> (r: bool)
        ensures
            r == (websocket_text.summary("channel"@) matches Some(c) && "order_book_"@.is_prefix_of(c)),
    {
        websocket_text.summary_starts_with("channel", "order_book_")
    }

    pub fn is_websocket_text_trade_subscription_data(&self, websocket_text: &WebSocketText) -> (r: bool)
        ensures
            r == (websocket_text.summary("channel"@) matches Some(c) && "live_trades_"@.is_prefix_of(c)),
    {
        websocket_text.summary_starts_with("channel", "live_trades_")
    }

    pub fn is_websocket_text_order_subscription_data(&self, websocket_text: &WebSocketText) -> (r: bool)
        ensures
            r == (websocket_text.summary("channel"@) matches Some(c) && "private-my_orders_"@.is_prefix_of(c)),
    {
        websocket_text.summary_starts_with("channel", "private-my_orders_")
    }

    pub fn is_websocket_text_fill_subscription_data(&self, websocket_text: &WebSocketText) -> (r: bool)
        ensures
            r == (websocket_text.summary("channel"@) matches Some(c) && "private-my_trades_"@.is_prefix_of(c)),
    {
        websocket_text.summary_starts_with("channel", "private-my_trades_")
    }

    pub fn is_websocket_text_unneeded_subscription_data(&self, _websocket_text: &WebSocketText) -> (r: bool)
        ensures
            !r,
    {
        false
    }

    /// "bts:subscription_succeeded" or "bts:heartbeat".
    pub fn is_websocket_text_success_response(&self, websocket_text: &WebSocketText) -> (r: bool)
        ensures
            r == (websocket_text.summary("event"@) == Some("bts:subscription_succeeded"@)
                || websocket_text.summary("event"@) == Some("bts:heartbeat"@)),
    {
        websocket_text.summary_is("event", "bts:subscription_succeeded") || websocket_text.summary_is(
            "event",
            "bts:heartbeat",
        )
    }

    pub fn is_websocket_text_authenticate_success_response(&self, _websocket_text: &WebSocketText) -> (r: bool)
        ensures
            !r,
    {
        false
    }

    pub fn is_websocket_text_subscribe_success_response(&self, websocket_text: &WebSocketText) -> (r: bool)
        ensures
            r == (websocket_text.summary("event"@) == Some("bts:subscription_succeeded"@)),
    {
        websocket_text.summary_is("event", "bts:subscription_succeeded")
    }

    pub fn is_websocket_text_heartbeat_response(&self, websocket_text: &WebSocketText) -> (r: bool)
        ensures
            r == (websocket_text.summary("event"@) == Some("bts:heartbeat"@)),
    {
        websocket_text.summary_is("event", "bts:heartbeat")
    }

    pub fn create_authenticate_websocket_response(&self, _websocket_text: &WebSocketText) -> (r: Response)
        ensures
            r matches Response::Authenticate(a) && a.id is None,
    {
        Response::Authenticate(AuthenticateResponse { id: None })
    }

    pub fn create_heartbeat_websocket_response(&self, _websocket_text: &WebSocketText) -> (r: Response)
        ensures
            r matches Response::Heartbeat(h) && h.id is None,
    {
        Response::Heartbeat(HeartbeatResponse { id: None })
    }

    /// The message, with the "message" member of its "data" member as the error message.
    pub open spec fn error_response(&self, websocket_text: WebSocketText, r: Response) -> bool {
        &&& r matches Response::WebSocketErrorResponse(t) && t.url == websocket_text.url && t.text
                == websocket_text.text && t.json_payload == websocket_text.json_payload
                && t.payload_summary == websocket_text.payload_summary && opt_view(t.error_message)
                == match websocket_text.json_payload {
                Some(j) => match spec_get(j, "data"@) {
                    Some(d) => match spec_get(d, "message"@) {
                        Some(m) => spec_as_str(m),
                        None => None,
                    },
                    None => None,
                },
                None => None,
            }
    }

    /// The message, with the "message" member of its "data" member as the error message.
    pub fn create_websocket_error_response(&self, websocket_text: WebSocketText) -> (r: Response)
        ensures
            self.error_response(websocket_text, r),
    {
        let mut response = websocket_text;
        let message = match &response.json_payload {
            Some(j) => match j.get("data") {
                Some(d) => match d.get("message") {
                    Some(m) => match m.as_str() {
                        Some(s) => Some(string_from(s)),
                        None => None,
                    },
                    None => None,
                },
                None => None,
            },
            None => None,
        };
        response.error_message = message;
        Response::WebSocketErrorResponse(response)
    }

    /// The best bid and ask of the order book channel's symbol.
    pub open spec fn top_of_book_data(&self, websocket_text: WebSocketText, r: Response) -> bool {
        &&& r matches Response::TopOfBookSubscription(s) && s.data@.len() == 1 && ({
                let b = s.data@[0];
                let d = data_of(websocket_text);
                &&& b.exchange_instrument_type == ExchangeInstrumentType::Bitstamp
                &&& b.symbol@ == after_prefix(summary_or_empty(websocket_text, "channel"@), "order_book_"@)
                &&& data_time_matches(b.timestamp, d)
                &&& b.bid_price@ == level_text(d, "bids"@, 0)
                &&& b.bid_size@ == level_text(d, "bids"@, 1)
                &&& b.ask_price@ == level_text(d, "asks"@, 0)
                &&& b.ask_size@ == level_text(d, "asks"@, 1)
            })
    }

    /// The best bid and ask of the order book channel's symbol.
    pub fn create_subscribe_top_of_book_websocket_subscription_data(&self, websocket_text: &WebSocketText) -> (r: Response)
        ensures
            self.top_of_book_data(*websocket_text, r),
    {
        let null = JsonValue::Null;
        let d = match data_exec(websocket_text) {
            Some(d) => d,
            None => &null,
        };
        let channel = websocket_text.summary_or_empty("channel");
        let book = TopOfBook {
            exchange_instrument_type: ExchangeInstrumentType::Bitstamp,
            symbol: after_prefix_exec(channel.as_str(), "order_book_"),
            timestamp: data_time(d),
            bid_price: level_text_exec(d, "bids", 0),
            bid_size: level_text_exec(d, "bids", 1),
            ask_price: level_text_exec(d, "asks", 0),
            ask_size: level_text_exec(d, "asks", 1),
        };
        let mut data: Vec<TopOfBook> = Vec::new();
        data.push(book);
        Response::TopOfBookSubscription(TopOfBookSubscriptionData { data })
    }

    /// The trade of the trades channel's symbol.
    pub open spec fn trade_data(&self, websocket_text: WebSocketText, r: Response) -> bool {
        &&& r matches Response::TradeSubscription(s) && s.data@.len() == 1 && ({
                let t = s.data@[0];
                let d = data_of(websocket_text);
                &&& t.exchange_instrument_type == ExchangeInstrumentType::Bitstamp
                &&& t.symbol@ == after_prefix(summary_or_empty(websocket_text, "channel"@), "live_trades_"@)
                &&& data_time_matches(t.timestamp, d)
                &&& t.price@ == data_text(websocket_text, "price"@)
                &&& t.size@ == data_text(websocket_text, "amount"@)
                &&& t.side == taker_side_of(spec_get(d, "type"@))
            })
    }

    /// The trade on the live trades channel's symbol.
    pub fn create_subscribe_trade_websocket_subscription_data(&self, websocket_text: &WebSocketText) -> (r: Response)
        ensures
            self.trade_data(*websocket_text, r),
    {
        let null = JsonValue::Null;
        let d = match data_exec(websocket_text) {
            Some(d) => d,
            None => &null,
        };
        let channel = websocket_text.summary_or_empty("channel");
        let side = match d.get("type") {
            Some(v) => match v.as_i64() {
                Some(n) => if n == 0 { TakerSide::Buy } else if n == 1 { TakerSide::Sell } else { TakerSide::Unknown },
                None => TakerSide::Unknown,
            },
            None => TakerSide::Unknown,
        };
        let trade = Trade {
            exchange_instrument_type: ExchangeInstrumentType::Bitstamp,
            symbol: after_prefix_exec(channel.as_str(), "live_trades_"),
            timestamp: data_time(d),
            price: data_text_exec(websocket_text, "price"),
            size: data_text_exec(websocket_text, "amount"),
            side,
        };
        let mut data: Vec<Trade> = Vec::new();
        data.push(trade);
        Response::TradeSubscription(TradeSubscriptionData { data })
    }

    /// The order of a private orders message.
    pub open spec fn order_data(&self, websocket_text: WebSocketText, r: Response, amount_is_zero: bool) -> bool {
        &&& r matches Response::OrderSubscription(s) && s.data@.len() == 1 && ({
                let o = s.data@[0];
                let d = data_of(websocket_text);
                &&& o.exchange_instrument_type == ExchangeInstrumentType::Bitstamp
                &&& o.symbol@ == private_symbol(summary_or_empty(websocket_text, "channel"@), "private-my_orders_"@)
                &&& o.order_id@ == data_text(websocket_text, "id"@)
                &&& o.client_order_id@ == data_text(websocket_text, "client_order_id"@)
                &&& o.side == bitstamp_side_of(match spec_get(d, "order_type"@) { Some(v) => v, None => JsonValue::Null })
                &&& o.order_type == OrderType::Unknown
                &&& o.price@ == data_text(websocket_text, "price"@)
                &&& o.quantity@ == data_text(websocket_text, "amount"@)
                &&& o.remaining_quantity@ == data_text(websocket_text, "amount"@)
                &&& o.status == bitstamp_order_status(summary_or_empty(websocket_text, "event"@), amount_is_zero)
                &&& o.leverage@.len() == 0
                &&& o.cumulative_filled_quantity@.len() == 0
                &&& o.cumulative_filled_quote_quantity@.len() == 0
                &&& o.average_filled_price@.len() == 0
                &&& o.fill_price@.len() == 0
                &&& o.fill_quantity@.len() == 0
                &&& o.fill_quote_quantity@.len() == 0
                &&& !o.fill_is_maker
            })
    }

    /// The amount of an order event, as text: what decides, read as a float, whether a
    /// deleted order was filled.
    pub fn order_amount_text(&self, websocket_text: &WebSocketText) -> (r: String)
        ensures
            r@ == data_text(*websocket_text, "amount"@),
    {
        data_text_exec(websocket_text, "amount")
    }

    /// The order of an order event on the user's order channel. Whether the amount reads
    /// as the float zero is the caller's to say (floats stay outside this library): where
    /// it does, a deleted order is filled, else canceled.
    pub fn create_subscribe_order_websocket_subscription_data(&self, websocket_text: &WebSocketText, amount_is_zero: bool) -> (r: Response)
        ensures
            self.order_data(*websocket_text, r, amount_is_zero),
    {
        let null = JsonValue::Null;
        let d = match data_exec(websocket_text) {
            Some(d) => d,
            None => &null,
        };
        let event = websocket_text.summary_or_empty("event");
        let channel = websocket_text.summary_or_empty("channel");
        let suffix = after_prefix_exec(channel.as_str(), "private-my_orders_");
        let remaining_quantity = data_text_exec(websocket_text, "amount");
        let status = if str_eq(event.as_str(), "order_created") || str_eq(event.as_str(), "order_changed") {
            OrderStatus::Open
        } else if str_eq(event.as_str(), "order_deleted") {
            if amount_is_zero {
                OrderStatus::Filled
            } else {
                OrderStatus::Canceled
            }
        } else {
            OrderStatus::Unknown
        };
        let side = match d.get("order_type") {
            Some(v) => self.convert_string_to_order_side(v),
            None => self.convert_string_to_order_side(&null),
        };
        let order = Order {
            exchange_instrument_type: ExchangeInstrumentType::Bitstamp,
            symbol: before_last_char(suffix.as_str(), '-'),
            order_id: data_text_exec(websocket_text, "id"),
            client_order_id: data_text_exec(websocket_text, "client_order_id"),
            order_type: OrderType::Unknown,
            side,
            price: data_text_exec(websocket_text, "price"),
            quantity: data_text_exec(websocket_text, "amount"),
            leverage: String::new(),
            remaining_quantity,
            cumulative_filled_quantity: String::new(),
            cumulative_filled_quote_quantity: String::new(),
            average_filled_price: String::new(),
            status,
            fill_price: String::new(),
            fill_quantity: String::new(),
            fill_quote_quantity: String::new(),
            fill_is_maker: false,
        };
        let mut data: Vec<Order> = Vec::new();
        data.push(order);
        Response::OrderSubscription(OrderSubscriptionData { data })
    }

    /// The fill of a private trades message.
    pub open spec fn fill_data(&self, websocket_text: WebSocketText, r: Response) -> bool {
        &&& r matches Response::FillSubscription(s) && s.data@.len() == 1 && ({
                let f = s.data@[0];
                let d = data_of(websocket_text);
                &&& f.exchange_instrument_type == ExchangeInstrumentType::Bitstamp
                &&& f.symbol@ == private_symbol(summary_or_empty(websocket_text, "channel"@), "private-my_trades_"@)
                &&& f.order_id@ == data_text(websocket_text, "order_id"@)
                &&& f.client_order_id@ == data_text(websocket_text, "client_order_id"@)
                &&& f.side == fill_side_of(spec_get(d, "type"@))
                &&& f.price@ == data_text(websocket_text, "price"@)
                &&& f.quantity@ == data_text(websocket_text, "amount"@)
                &&& f.quote_quantity@.len() == 0
                &&& !f.is_maker
            })
    }

    /// The fill of a trade event on the user's trade channel. Its quote quantity, the
    /// product of price and quantity in floating point, is left empty for the caller.
    pub fn create_subscribe_fill_websocket_subscription_data(&self, websocket_text: &WebSocketText) -> (r: Response)
        ensures
            self.fill_data(*websocket_text, r),
    {
        let null = JsonValue::Null;
        let d = match data_exec(websocket_text) {
            Some(d) => d,
            None => &null,
        };
        let channel = websocket_text.summary_or_empty("channel");
        let suffix = after_prefix_exec(channel.as_str(), "private-my_trades_");
        let side = match d.get("type") {
            Some(v) => match v.as_i64() {
                Some(n) => if n == 0 { OrderSide::Buy } else if n == 1 { OrderSide::Sell } else { OrderSide::Unknown },
                None => OrderSide::Unknown,
            },
            None => OrderSide::Unknown,
        };
        let fill = Fill {
            exchange_instrument_type: ExchangeInstrumentType::Bitstamp,
            symbol: before_last_char(suffix.as_str(), '-'),
            order_id: data_text_exec(websocket_text, "order_id"),
            client_order_id: data_text_exec(websocket_text, "client_order_id"),
            side,
            price: data_text_exec(websocket_text, "price"),
            quantity: data_text_exec(websocket_text, "amount"),
            quote_quantity: String::new(),
            is_maker: false,
        };
        let mut data: Vec<Fill> = Vec::new();
        data.push(fill);
        Response::FillSubscription(FillSubscriptionData { data })
    }

    /// The subscription the channel names.
    pub open spec fn subscribe_response(&self, websocket_text: WebSocketText, r: Response) -> bool {
        &&& r matches Response::Subscribe(s) && s.id is None && ({
                let channel = summary_or_empty(websocket_text, "channel"@);
                let (symbol, kind) = subscription_of_channel(channel);
                &&& s.kind == kind
                &&& if symbol.len() == 0 { s.symbols@.len() == 0 } else { s.symbols@.len() == 1 && s.symbols@[0]@ == symbol }
            })
    }

    /// The symbol and kind of a confirmed subscription, from its channel name.
    pub fn create_subscribe_websocket_response(&self, websocket_text: &WebSocketText) -> (r: Response)
        ensures
            self.subscribe_response(*websocket_text, r),
    {
        let channel = websocket_text.summary_or_empty("channel");
        let (symbol, kind) = if starts_with_exec(channel.as_str(), "order_book_") {
            (after_prefix_exec(channel.as_str(), "order_book_"), Some(SubscribeResponseKind::TopOfBook))
        } else if starts_with_exec(channel.as_str(), "live_trades_") {
            (after_prefix_exec(channel.as_str(), "live_trades_"), Some(SubscribeResponseKind::Trade))
        } else if starts_with_exec(channel.as_str(), "private-my_orders_") {
            let suffix = after_prefix_exec(channel.as_str(), "private-my_orders_");
            (before_last_char(suffix.as_str(), '-'), Some(SubscribeResponseKind::Order))
        } else if starts_with_exec(channel.as_str(), "private-my_trades_") {
            let suffix = after_prefix_exec(channel.as_str(), "private-my_trades_");
            (before_last_char(suffix.as_str(), '-'), Some(SubscribeResponseKind::Fill))
        } else {
            (String::new(), None)
        };
        let mut symbols: Vec<String> = Vec::new();
        if symbol.as_str().unicode_len() != 0 {
            symbols.push(symbol);
        }
        Response::Subscribe(SubscribeResponse { id: None, symbols, kind })
    }
}

impl BitstampClient {
    /// The POST that obtains a websocket token, signed like a REST request with the given
    /// nonce and time; none without a credential, an error where the REST URL has no host.
    pub fn create_websocket_token_http_request_with(&self, nonce: &str, timestamp: &str) -> (r: Result<Option<HttpRequest>, String>)
        ensures
            self.credential is None ==> r == Ok::<Option<HttpRequest>, String>(None),
            self.credential is Some && url_host(self.rest_api_base_url@) is None ==> r is Err,
            self.credential is Some && url_host(self.rest_api_base_url@) is Some ==> (r matches Ok(Some(q)) && ({
                let c = self.credential->0;
                let x_auth = "BITSTAMP "@ + c.api_key@;
                let message = x_auth + "POST"@ + url_host(self.rest_api_base_url@)->0
                    + "/api/v2/websockets_token/"@ + nonce@ + timestamp@ + "v2"@;
                &&& q.base_url@ == self.rest_api_base_url@
                &&& q.method == HttpMethod::Post
                &&& q.path@ == "/api/v2/websockets_token/"@
                &&& q.query_string is None
                &&& q.payload is None
                &&& q.headers.spec_get("x-auth"@) == Some(x_auth)
                &&& q.headers.spec_get("x-auth-signature"@) == Some(
                    hex_text(hmac_sha256_tag(encode_utf8(c.api_secret@), encode_utf8(message))))
                &&& q.headers.spec_get("x-auth-nonce"@) == Some(nonce@)
                &&& q.headers.spec_get("x-auth-timestamp"@) == Some(timestamp@)
                &&& q.headers.spec_get("x-auth-version"@) == Some("v2"@)
            })),
    {
        let c = match &self.credential {
            Some(c) => c,
            None => return Ok(None),
        };
        let host = match parse_url_host(self.rest_api_base_url.as_str()) {
            Some(h) => h,
            None => return Err(string_from("Bitstamp REST URL has no host")),
        };
        let mut x_auth = string_from("BITSTAMP ");
        push_str(&mut x_auth, c.api_key.as_str());
        let mut message = x_auth.clone();
        push_str(&mut message, "POST");
        push_str(&mut message, host.as_str());
        push_str(&mut message, "/api/v2/websockets_token/");
        push_str(&mut message, nonce);
        push_str(&mut message, timestamp);
        push_str(&mut message, "v2");
        let tag = hmac_sha256(c.api_secret.as_str().as_bytes(), message.as_str().as_bytes());
        let signature = hex_encode(tag.as_slice());
        let mut request = HttpRequest::new(
            self.rest_api_base_url.as_str(),
            HttpMethod::Post,
            "/api/v2/websockets_token/",
            None,
            None,
        );
        let ghost xa = x_auth@;
        let ghost sg = signature@;
        proof {
            reveal_strlit("x-auth");
            reveal_strlit("x-auth-signature");
            reveal_strlit("x-auth-nonce");
            reveal_strlit("x-auth-timestamp");
            reveal_strlit("x-auth-version");
            assert("x-auth"@.len() == 6);
            assert("x-auth-signature"@.len() == 16);
            assert("x-auth-nonce"@.len() == 12);
            assert("x-auth-timestamp"@.len() == 16);
            assert("x-auth-version"@.len() == 14);
            assert("x-auth-signature"@[7] != "x-auth-timestamp"@[7]);
        }
        request.headers.insert(string_from("x-auth"), x_auth);
        request.headers.insert(string_from("x-auth-signature"), signature);
        assert(request.headers.spec_get("x-auth"@) == Some(xa));
        request.headers.insert(string_from("x-auth-nonce"), string_from(nonce));
        request.headers.insert(string_from("x-auth-timestamp"), string_from(timestamp));
        request.headers.insert(string_from("x-auth-version"), string_from("v2"));
        assert(request.headers.spec_get("x-auth"@) == Some(xa));
        assert(request.headers.spec_get("x-auth-signature"@) == Some(sg));
        Ok(Some(request))
    }

    /// The websocket token request, with a fresh random nonce and the given time; an error
    /// also where the system's random source fails.
    pub fn create_websocket_token_http_request(&self, now: Timestamp) -> (r: Result<Option<HttpRequest>, String>)
        requires
            crate::time::timestamp_valid(now),
        ensures
            self.credential is None ==> r == Ok::<Option<HttpRequest>, String>(None),
            self.credential is Some && url_host(self.rest_api_base_url@) is None ==> r is Err,
            self.credential is Some && url_host(self.rest_api_base_url@) is Some ==> (r is Err || (r matches Ok(Some(q))
                && q.path@ == "/api/v2/websockets_token/"@ && q.headers.spec_get("x-auth-timestamp"@)
                == Some(crate::text::int_text(crate::time::millis_of(now))))),
    {
        if self.credential.is_none() {
            return Ok(None);
        }
        let uuid = match crate::signing::new_uuid_v4() {
            Some(u) => u,
            None => return Err(string_from("could not retrieve random bytes for the nonce")),
        };
        let nonce = crate::text::to_lowercase(uuid.as_str());
        let timestamp = crate::text::i64_to_string(crate::time::timestamp_millis(now));
        self.create_websocket_token_http_request_with(nonce.as_str(), timestamp.as_str())
    }

    /// Keeps the token and user id of a successful token response; an error, with the
    /// client unchanged, where the status is not 2xx, the body not JSON, or either is missing.
    pub fn apply_websocket_token_response(&mut self, http_response: &HttpResponse) -> (r: Result<(), String>)
        ensures
            ({
                let ok = status_is_success(http_response.status) && http_response.json_payload is Some
                    && spec_get(http_response.json_payload->0, "token"@) is Some
                    && spec_as_str(spec_get(http_response.json_payload->0, "token"@)->0) is Some
                    && spec_get(http_response.json_payload->0, "user_id"@) is Some;
                &&& (r is Ok) == ok
                &&& ok ==> opt_view(final(self).websocket_token) == spec_as_str(
                    spec_get(http_response.json_payload->0, "token"@)->0,
                ) && opt_view(final(self).websocket_user_id) == Some(
                    text_of(spec_get(http_response.json_payload->0, "user_id"@)->0),
                )
                &&& !ok ==> final(self).websocket_token == old(self).websocket_token
                    && final(self).websocket_user_id == old(self).websocket_user_id
                &&& final(self).credential == old(self).credential
                &&& final(self).rest_api_base_url == old(self).rest_api_base_url
                &&& final(self).websocket_market_data_api_url == old(self).websocket_market_data_api_url
                &&& final(self).websocket_account_data_api_url == old(self).websocket_account_data_api_url
            }),
    {
        if !http_response.is_status_success() {
            return Err(string_from("Failed to obtain Bitstamp websocket token"));
        }
        let json = match &http_response.json_payload {
            Some(j) => j,
            None => return Err(string_from("Bitstamp websocket token response is not JSON")),
        };
        let token = match json.get("token") {
            Some(t) => match t.as_str() {
                Some(s) => string_from(s),
                None => return Err(string_from("Bitstamp websocket token is missing")),
            },
            None => return Err(string_from("Bitstamp websocket token is missing")),
        };
        let user_id = match json.get("user_id") {
            Some(u) => u.text_of(),
            None => return Err(string_from("Bitstamp websocket user_id is missing")),
        };
        self.websocket_token = Some(token);
        self.websocket_user_id = Some(user_id);
        Ok(())
    }
}

/// The symbol and kind that a channel name stands for.
pub open spec fn subscription_of_channel(channel: Seq<char>) -> (Seq<char>, Option<SubscribeResponseKind>) {
    if "order_book_"@.is_prefix_of(channel) {
        (after_prefix(channel, "order_book_"@), Some(SubscribeResponseKind::TopOfBook))
    } else if "live_trades_"@.is_prefix_of(channel) {
        (after_prefix(channel, "live_trades_"@), Some(SubscribeResponseKind::Trade))
    } else if "private-my_orders_"@.is_prefix_of(channel) {
        (private_symbol(channel, "private-my_orders_"@), Some(SubscribeResponseKind::Order))
    } else if "private-my_trades_"@.is_prefix_of(channel) {
        (private_symbol(channel, "private-my_trades_"@), Some(SubscribeResponseKind::Fill))
    } else {
        (Seq::empty(), None)
    }
}

fn starts_with_exec(s: &str, prefix: &str) -> (r: bool)
    ensures
        r == prefix@.is_prefix_of(s@),
{
    crate::text::starts_with(s, prefix)
}

} // verus!
