//! Hyperliquid's websocket API: subscriptions, how a message is classified by its
//! "channel", and the data it carries.

use vstd::prelude::*;
use crate::exchange_client::common::{
    AuthenticateResponse, FillSubscriptionData, HeartbeatResponse, OrderSubscriptionData, Response,
    SubscribeFillRequest, SubscribeOrderRequest, SubscribeResponse, SubscribeResponseKind, SubscribeTopOfBookRequest,
    SubscribeTradeRequest, TopOfBookSubscriptionData, TradeSubscriptionData,
};
use crate::exchanges::htx_spot::common::member_or;
use crate::exchanges::htx_usdt_margined_futures::rest::{add_member, members_of, object_of};
use crate::exchanges::hyperliquid::common::{hl_instrument_type_of, hl_side_of, HyperliquidClient};
use crate::json::{
    array_at, field_str, json_text, members_text, quoted, spec_as_array, spec_as_bool, spec_as_i64, spec_as_str,
    spec_as_u64, spec_at, spec_get, str_object, str_object_text, text_of, JsonValue,
};
use crate::networking::http::push_pair;
use crate::networking::websocket::WebSocketText;
use crate::signing::pair_views;
use crate::text::{ascii_lowercase, is_ascii_text, nat_digits, str_eq, string_from, u64_to_string, unicode_lowercase};
use crate::time::{from_millis_or_epoch, timestamp_from_millis_or_epoch};
use crate::types::{
    ExchangeInstrumentType, ExchangeWebSocketEndpoint, Fill, Order, OrderSide, OrderStatus, OrderType, TakerSide,
    TopOfBook, Trade, WebSocketEndpoint,
};

verus! {

/// A subscription message: `{"method":"subscribe","subscription":{...}}` with the
/// subscription's string members.
pub open spec fn hl_subscribe_text(pairs: Seq<(Seq<char>, Seq<char>)>) -> Seq<char> {
    object_of(seq![("method"@, quoted("subscribe"@)), ("subscription"@, str_object_text(pairs))])
}

/// The first symbol of a list, or the empty text.
pub open spec fn first_or_empty(symbols: Seq<String>) -> Seq<char> {
    if symbols.len() > 0 { symbols[0]@ } else { Seq::empty() }
}

fn subscribe_text(pairs: Vec<(String, String)>) -> (r: String)
    ensures
        r@ == hl_subscribe_text(pair_views(pairs@)),
{
    let inner = str_object(&pairs);
    let mut entries: Vec<(String, JsonValue)> = Vec::new();
    let ghost m0: Seq<(Seq<char>, Seq<char>)> = Seq::empty();
    assert(members_text(entries@) == members_of(m0));
    add_member(&mut entries, "method", JsonValue::Str(string_from("subscribe")), Ghost(m0));
    let ghost m1 = m0.push(("method"@, quoted("subscribe"@)));
    let ghost it = json_text(inner);
    add_member(&mut entries, "subscription", inner, Ghost(m1));
    let body = JsonValue::Object(entries);
    assert(m1.push(("subscription"@, it)) =~= seq![("method"@, quoted("subscribe"@)), ("subscription"@, it)]);
    body.to_text()
}

fn first_or_empty_exec(symbols: &Vec<String>) -> (r: String)
    ensures
        r@ == first_or_empty(symbols@),
{
    if symbols.len() > 0 { symbols[0].clone() } else { String::new() }
}

/// The status of an order update: "…canceled" and "…rejected" (in any case) for the
/// ends of an order, "open" and "filled" as they are.
pub open spec fn hl_status_of(status: Seq<char>) -> OrderStatus {
    let s = unicode_lowercase(status);
    if "canceled"@.is_suffix_of(s) {
        OrderStatus::Canceled
    } else if "rejected"@.is_suffix_of(s) {
        OrderStatus::Rejected
    } else if s == "open"@ {
        OrderStatus::Open
    } else if s == "filled"@ {
        OrderStatus::Filled
    } else {
        OrderStatus::Unknown
    }
}

pub open spec fn hl_taker_side_of(v: Option<JsonValue>) -> TakerSide {
    match v {
        Some(x) => match spec_as_str(x) {
            Some(s) => if s == "B"@ { TakerSide::Buy } else if s == "A"@ { TakerSide::Sell } else { TakerSide::Unknown },
            None => TakerSide::Unknown,
        },
        None => TakerSide::Unknown,
    }
}

pub open spec fn hl_order_side_of(v: Option<JsonValue>) -> OrderSide {
    match v {
        Some(x) => match spec_as_str(x) {
            Some(s) => hl_side_of(s),
            None => OrderSide::Unknown,
        },
        None => OrderSide::Unknown,
    }
}

/// A data message's "data".
pub open spec fn hl_data(t: WebSocketText) -> JsonValue {
    spec_at(t.json_payload->0, "data"@)
}

/// What a best-bid-and-offer message must carry: a coin, a time, and two levels with a
/// price and size each.
pub open spec fn hl_bbo_ok(t: WebSocketText) -> bool {
    let d = hl_data(t);
    &&& t.json_payload is Some
    &&& spec_get(t.json_payload->0, "data"@) is Some
    &&& spec_get(d, "coin"@) matches Some(c) && spec_as_str(c) is Some
    &&& spec_get(d, "time"@) matches Some(x) && spec_as_i64(x) is Some
    &&& spec_get(d, "bbo"@) matches Some(b) && spec_as_array(b) matches Some(levels) && levels.len() >= 2 && (forall|i: int|
        0 <= i < 2 ==> (spec_get(#[trigger] levels[i], "px"@) matches Some(p) && spec_as_str(p) is Some) && (spec_get(
        levels[i],
        "sz"@,
    ) matches Some(z) && spec_as_str(z) is Some))
}

pub open spec fn hl_trade_ok(v: JsonValue) -> bool {
    &&& spec_get(v, "coin"@) matches Some(c) && spec_as_str(c) is Some
    &&& spec_get(v, "time"@) matches Some(x) && spec_as_i64(x) is Some
    &&& spec_get(v, "px"@) matches Some(p) && spec_as_str(p) is Some
    &&& spec_get(v, "sz"@) matches Some(z) && spec_as_str(z) is Some
}

pub open spec fn hl_all_trades_ok(items: Seq<JsonValue>) -> bool {
    forall|i: int| 0 <= i < items.len() ==> hl_trade_ok(#[trigger] items[i])
}

pub open spec fn hl_all_orders_ok(items: Seq<JsonValue>) -> bool {
    forall|i: int| 0 <= i < items.len() ==> hl_order_update_ok(#[trigger] items[i])
}

pub open spec fn hl_all_fills_ok(items: Seq<JsonValue>) -> bool {
    forall|i: int| 0 <= i < items.len() ==> hl_fill_ok(#[trigger] items[i])
}

pub open spec fn hl_trades_ok(t: WebSocketText) -> bool {
    match t.json_payload {
        Some(j) => match spec_get(j, "data"@) {
            Some(d) => match spec_as_array(d) {
                Some(items) => hl_all_trades_ok(items),
                None => false,
            },
            None => false,
        },
        None => false,
    }
}

pub open spec fn hl_trade_matches(r: Trade, v: JsonValue) -> bool {
    let coin = field_str(v, "coin"@);
    &&& r.exchange_instrument_type == ExchangeInstrumentType::Hyperliquid(hl_instrument_type_of(coin))
    &&& r.symbol@ == coin
    &&& from_millis_or_epoch(r.timestamp, spec_as_i64(spec_at(v, "time"@))->0 as int)
    &&& r.price@ == field_str(v, "px"@)
    &&& r.size@ == field_str(v, "sz"@)
    &&& r.side == hl_taker_side_of(spec_get(v, "side"@))
}

pub open spec fn hl_order_update_ok(v: JsonValue) -> bool {
    spec_get(v, "order"@) matches Some(o) && (spec_get(o, "coin"@) matches Some(c) && spec_as_str(c) is Some)
}

pub open spec fn hl_orders_ok(t: WebSocketText) -> bool {
    match t.json_payload {
        Some(j) => match spec_get(j, "data"@) {
            Some(d) => match spec_as_array(d) {
                Some(items) => hl_all_orders_ok(items),
                None => false,
            },
            None => false,
        },
        None => false,
    }
}

pub open spec fn u64_text_or_zero(v: Option<JsonValue>) -> Seq<char> {
    nat_digits(match v {
        Some(x) => match spec_as_u64(x) {
            Some(n) => n as nat,
            None => 0,
        },
        None => 0,
    })
}

pub open spec fn str_member_or_empty(v: JsonValue, key: Seq<char>) -> Seq<char> {
    match spec_get(v, key) {
        Some(x) => match spec_as_str(x) {
            Some(s) => s,
            None => Seq::empty(),
        },
        None => Seq::empty(),
    }
}

pub open spec fn hl_order_update_matches(r: Order, v: JsonValue) -> bool {
    let o = spec_get(v, "order"@)->0;
    let coin = field_str(o, "coin"@);
    &&& r.exchange_instrument_type == ExchangeInstrumentType::Hyperliquid(hl_instrument_type_of(coin))
    &&& r.symbol@ == coin
    &&& r.order_id@ == u64_text_or_zero(spec_get(o, "oid"@))
    &&& r.client_order_id@ == str_member_or_empty(o, "cloid"@)
    &&& r.order_type == OrderType::Limit
    &&& r.side == hl_side_of(str_member_or_empty(o, "side"@))
    &&& r.price@ == str_member_or_empty(o, "limitPx"@)
    &&& r.quantity@ == str_member_or_empty(o, "origSz"@)
    &&& r.remaining_quantity@ == str_member_or_empty(o, "sz"@)
    &&& r.status == hl_status_of(str_member_or_empty(v, "status"@))
    &&& r.leverage@.len() == 0
    &&& r.cumulative_filled_quantity@.len() == 0
    &&& r.cumulative_filled_quote_quantity@.len() == 0
    &&& r.average_filled_price@.len() == 0
    &&& r.fill_price@.len() == 0
    &&& r.fill_quantity@.len() == 0
    &&& r.fill_quote_quantity@.len() == 0
    &&& !r.fill_is_maker
}

pub open spec fn hl_fill_ok(v: JsonValue) -> bool {
    &&& spec_get(v, "coin"@) matches Some(c) && spec_as_str(c) is Some
    &&& spec_get(v, "px"@) matches Some(p) && spec_as_str(p) is Some
    &&& spec_get(v, "sz"@) matches Some(z) && spec_as_str(z) is Some
}

pub open spec fn hl_fills_ok(t: WebSocketText) -> bool {
    match t.json_payload {
        Some(j) => match spec_get(j, "data"@) {
            Some(d) => match spec_get(d, "fills"@) {
                Some(f) => match spec_as_array(f) {
                    Some(items) => hl_all_fills_ok(items),
                    None => false,
                },
                None => false,
            },
            None => false,
        },
        None => false,
    }
}

/// A fill; its fee in the quote-quantity field, as the original puts it, and a maker
/// fill where it did not cross.
pub open spec fn hl_fill_matches(r: Fill, v: JsonValue) -> bool {
    let coin = field_str(v, "coin"@);
    &&& r.exchange_instrument_type == ExchangeInstrumentType::Hyperliquid(hl_instrument_type_of(coin))
    &&& r.symbol@ == coin
    &&& r.order_id@ == u64_text_or_zero(spec_get(v, "oid"@))
    &&& r.client_order_id@ == str_member_or_empty(v, "cloid"@)
    &&& r.side == hl_order_side_of(spec_get(v, "side"@))
    &&& r.price@ == field_str(v, "px"@)
    &&& r.quantity@ == field_str(v, "sz"@)
    &&& r.quote_quantity@ == str_member_or_empty(v, "fee"@)
    &&& r.is_maker == !(match spec_get(v, "crossed"@) {
        Some(c) => match spec_as_bool(c) {
            Some(b) => b,
            None => false,
        },
        None => false,
    })
}

fn str_member_or_empty_exec(v: &JsonValue, key: &str) -> (r: String)
    ensures
        r@ == str_member_or_empty(*v, key@),
{
    match v.get(key) {
        Some(x) => match x.as_str() {
            Some(s) => string_from(s),
            None => String::new(),
        },
        None => String::new(),
    }
}

fn u64_text_or_zero_exec(v: Option<&JsonValue>) -> (r: String)
    ensures
        r@ == u64_text_or_zero(match v {
            Some(x) => Some(*x),
            None => None,
        }),
{
    let n: u64 = match v {
        Some(x) => match x.as_u64() {
            Some(n) => n,
            None => 0,
        },
        None => 0,
    };
    u64_to_string(n)
}

fn ends_with_ascii(s: &str, suffix: &str) -> (r: bool)
    ensures
        r == suffix@.is_suffix_of(s@),
{
    crate::text::ends_with_text(s, suffix)
}

impl HyperliquidClient {
    pub fn websocket_api_url(&self, endpoint: WebSocketEndpoint) -> (r: String)
        requires
            endpoint == WebSocketEndpoint::Hyperliquid(ExchangeWebSocketEndpoint::MarketData)
                || endpoint == WebSocketEndpoint::Hyperliquid(ExchangeWebSocketEndpoint::AccountData),
        ensures
            r == self.websocket_url,
    {
        self.websocket_url.clone()
    }

    /// No authentication message: the empty text.
    pub fn create_authenticate_websocket_request(&self) -> (r: String)
        ensures
            r@.len() == 0,
    {
        String::new()
    }

    /// The heartbeat: `{"method":"ping"}`.
    pub fn create_heartbeat_websocket_request(&self) -> (r: String)
        ensures
            r@ == str_object_text(seq![("method"@, "ping"@)]),
    {
        let mut pairs: Vec<(String, String)> = Vec::new();
        assert(pair_views(pairs@) =~= Seq::empty());
        push_pair(&mut pairs, "method", "ping");
        assert(pair_views(pairs@) =~= seq![("method"@, "ping"@)]);
        str_object(&pairs).to_text()
    }

    /// The best-bid-and-offer subscription of a coin.
    pub fn subscribe_top_of_book_text(&self, coin: &str) -> (r: String)
        ensures
            r@ == hl_subscribe_text(seq![("coin"@, coin@), ("type"@, "bbo"@)]),
    {
        let mut pairs: Vec<(String, String)> = Vec::new();
        assert(pair_views(pairs@) =~= Seq::empty());
        push_pair(&mut pairs, "coin", coin);
        push_pair(&mut pairs, "type", "bbo");
        assert(pair_views(pairs@) =~= seq![("coin"@, coin@), ("type"@, "bbo"@)]);
        subscribe_text(pairs)
    }

    /// The trades subscription of a coin.
    pub fn subscribe_trade_text(&self, coin: &str) -> (r: String)
        ensures
            r@ == hl_subscribe_text(seq![("coin"@, coin@), ("type"@, "trades"@)]),
    {
        let mut pairs: Vec<(String, String)> = Vec::new();
        assert(pair_views(pairs@) =~= Seq::empty());
        push_pair(&mut pairs, "coin", coin);
        push_pair(&mut pairs, "type", "trades");
        assert(pair_views(pairs@) =~= seq![("coin"@, coin@), ("type"@, "trades"@)]);
        subscribe_text(pairs)
    }

    /// The subscription to the first symbol's best bid and offer (one message per symbol
    /// goes out when subscribing).
    pub fn create_subscribe_top_of_book_websocket_request(&self, request: &SubscribeTopOfBookRequest) -> (r: String)
        ensures
            r@ == hl_subscribe_text(seq![("coin"@, first_or_empty(request.symbols@)), ("type"@, "bbo"@)]),
    {
        let coin = first_or_empty_exec(&request.symbols);
        self.subscribe_top_of_book_text(coin.as_str())
    }

    pub fn create_subscribe_trade_websocket_request(&self, request: &SubscribeTradeRequest) -> (r: String)
        ensures
            r@ == hl_subscribe_text(seq![("coin"@, first_or_empty(request.symbols@)), ("type"@, "trades"@)]),
    {
        let coin = first_or_empty_exec(&request.symbols);
        self.subscribe_trade_text(coin.as_str())
    }

    pub fn create_subscribe_order_websocket_request(&self, _request: &SubscribeOrderRequest) -> (r: String)
        ensures
            r@ == hl_subscribe_text(seq![("type"@, "orderUpdates"@), ("user"@, self.wallet_address@)]),
    {
        let mut pairs: Vec<(String, String)> = Vec::new();
        assert(pair_views(pairs@) =~= Seq::empty());
        push_pair(&mut pairs, "type", "orderUpdates");
        push_pair(&mut pairs, "user", self.wallet_address.as_str());
        assert(pair_views(pairs@) =~= seq![("type"@, "orderUpdates"@), ("user"@, self.wallet_address@)]);
        subscribe_text(pairs)
    }

    pub fn create_subscribe_fill_websocket_request(&self, _request: &SubscribeFillRequest) -> (r: String)
        ensures
            r@ == hl_subscribe_text(seq![("type"@, "userFills"@), ("user"@, self.wallet_address@)]),
    {
        let mut pairs: Vec<(String, String)> = Vec::new();
        assert(pair_views(pairs@) =~= Seq::empty());
        push_pair(&mut pairs, "type", "userFills");
        push_pair(&mut pairs, "user", self.wallet_address.as_str());
        assert(pair_views(pairs@) =~= seq![("type"@, "userFills"@), ("user"@, self.wallet_address@)]);
        subscribe_text(pairs)
    }

    /// The message with its "channel" (a string as it is, another value as JSON text) in
    /// its summary; nothing else changed, and nothing added where it is not JSON.
    pub open spec fn summarized(&self, o: WebSocketText, n: WebSocketText) -> bool {
        &&& n.url == o.url
        &&& n.text == o.text
        &&& n.json_payload == o.json_payload
        &&& n.error_code == o.error_code
        &&& n.error_message == o.error_message
        &&& match o.json_payload {
            Some(j) => {
                &&& n.summary("channel"@) == match spec_get(j, "channel"@) {
                    Some(v) => Some(text_of(v)),
                    None => o.summary("channel"@),
                }
                &&& forall|k: Seq<char>| k != "channel"@ ==> n.summary(k) == o.summary(k)
            },
            None => n.payload_summary == o.payload_summary,
        }
    }

    pub fn populate_websocket_text_payload_summary(&self, websocket_text: &mut WebSocketText)
        ensures
            self.summarized(*old(websocket_text), *final(websocket_text)),
    {
        let channel = match &websocket_text.json_payload {
            Some(j) => match j.get("channel") {
                Some(v) => Some(v.text_of()),
                None => None,
            },
            None => None,
        };
        match channel {
            Some(c) => websocket_text.payload_summary.insert(string_from("channel"), c),
            None => {},
        }
    }

    pub open spec fn channel_is(t: WebSocketText, c: Seq<char>) -> bool {
        t.summary("channel"@) == Some(c)
    }

    pub fn is_websocket_text_subscription_data(&self, websocket_text: &WebSocketText) -> (r: bool)
        ensures
            r == (Self::channel_is(*websocket_text, "bbo"@) || Self::channel_is(*websocket_text, "trades"@)
                || Self::channel_is(*websocket_text, "orderUpdates"@) || Self::channel_is(*websocket_text, "userFills"@)),
    {
        websocket_text.summary_is("channel", "bbo") || websocket_text.summary_is("channel", "trades")
            || websocket_text.summary_is("channel", "orderUpdates") || websocket_text.summary_is("channel", "userFills")
    }

    pub fn is_websocket_text_top_of_book_subscription_data(&self, websocket_text: &WebSocketText) -> (r: bool)
        ensures
            r == Self::channel_is(*websocket_text, "bbo"@),
    {
        websocket_text.summary_is("channel", "bbo")
    }

    pub fn is_websocket_text_trade_subscription_data(&self, websocket_text: &WebSocketText) -> (r: bool)
        ensures
            r == Self::channel_is(*websocket_text, "trades"@),
    {
        websocket_text.summary_is("channel", "trades")
    }

    pub fn is_websocket_text_order_subscription_data(&self, websocket_text: &WebSocketText) -> (r: bool)
        ensures
            r == Self::channel_is(*websocket_text, "orderUpdates"@),
    {
        websocket_text.summary_is("channel", "orderUpdates")
    }

    pub fn is_websocket_text_fill_subscription_data(&self, websocket_text: &WebSocketText) -> (r: bool)
        ensures
            r == Self::channel_is(*websocket_text, "userFills"@),
    {
        websocket_text.summary_is("channel", "userFills")
    }

    /// No unexpected data is benign.
    pub fn is_unexpected_websocket_text_subscription_data_benign(&self, _websocket_text: &WebSocketText) -> (r: bool)
        ensures
            !r,
    {
        false
    }

    pub fn is_websocket_text_success_response(&self, websocket_text: &WebSocketText) -> (r: bool)
        ensures
            r == (Self::channel_is(*websocket_text, "subscriptionResponse"@) || Self::channel_is(*websocket_text, "pong"@)),
    {
        websocket_text.summary_is("channel", "subscriptionResponse") || websocket_text.summary_is("channel", "pong")
    }

    /// There is no authentication to answer.
    pub fn is_websocket_text_authenticate_success_response(&self, _websocket_text: &WebSocketText) -> (r: bool)
        ensures
            !r,
    {
        false
    }

    pub fn is_websocket_text_subscribe_success_response(&self, websocket_text: &WebSocketText) -> (r: bool)
        ensures
            r == Self::channel_is(*websocket_text, "subscriptionResponse"@),
    {
        websocket_text.summary_is("channel", "subscriptionResponse")
    }

    pub fn is_websocket_text_heartbeat_response(&self, websocket_text: &WebSocketText) -> (r: bool)
        ensures
            r == Self::channel_is(*websocket_text, "pong"@),
    {
        websocket_text.summary_is("channel", "pong")
    }

    /// The best bid and offer of a "bbo" message: the first level the bid, the second the ask.
    pub open spec fn top_of_book_data(&self, t: WebSocketText, r: Response) -> bool {
        let d = hl_data(t);
        let levels = spec_as_array(spec_at(d, "bbo"@))->0;
        let coin = field_str(d, "coin"@);
        r matches Response::TopOfBookSubscription(s) && s.data@.len() == 1 && ({
            let b = s.data@[0];
            &&& b.exchange_instrument_type == ExchangeInstrumentType::Hyperliquid(hl_instrument_type_of(coin))
            &&& b.symbol@ == coin
            &&& from_millis_or_epoch(b.timestamp, spec_as_i64(spec_at(d, "time"@))->0 as int)
            &&& b.bid_price@ == field_str(levels[0], "px"@)
            &&& b.bid_size@ == field_str(levels[0], "sz"@)
            &&& b.ask_price@ == field_str(levels[1], "px"@)
            &&& b.ask_size@ == field_str(levels[1], "sz"@)
        })
    }

    pub fn create_subscribe_top_of_book_websocket_subscription_data(&self, websocket_text: &WebSocketText) -> (r: Response)
        requires
            hl_bbo_ok(*websocket_text),
        ensures
            self.top_of_book_data(*websocket_text, r),
    {
        let json = websocket_text.json_payload.as_ref().unwrap();
        let null = JsonValue::Null;
        let d = member_or(json, "data", &null);
        let coin = d.field_str("coin");
        let millis: i64 = match d.at("time") {
            Some(t) => match t.as_i64() {
                Some(n) => n,
                None => 0,
            },
            None => 0,
        };
        let levels = member_or(d, "bbo", &null).as_array().unwrap();
        let bid = &levels[0];
        let ask = &levels[1];
        let mut data = Vec::new();
        data.push(TopOfBook {
            exchange_instrument_type: ExchangeInstrumentType::Hyperliquid(self.convert_symbol_to_instrument_type(coin.as_str())),
            symbol: coin,
            timestamp: timestamp_from_millis_or_epoch(millis),
            bid_price: bid.field_str("px"),
            bid_size: bid.field_str("sz"),
            ask_price: ask.field_str("px"),
            ask_size: ask.field_str("sz"),
        });
        Response::TopOfBookSubscription(TopOfBookSubscriptionData { data })
    }

    pub open spec fn trade_data(&self, t: WebSocketText, r: Response) -> bool {
        let items = spec_as_array(hl_data(t))->0;
        r matches Response::TradeSubscription(s) && s.data@.len() == items.len() && forall|i: int|
            0 <= i < items.len() ==> hl_trade_matches(#[trigger] s.data@[i], items[i])
    }

    pub fn create_subscribe_trade_websocket_subscription_data(&self, websocket_text: &WebSocketText) -> (r: Response)
        requires
            hl_trades_ok(*websocket_text),
        ensures
            self.trade_data(*websocket_text, r),
    {
        let json = websocket_text.json_payload.as_ref().unwrap();
        let null = JsonValue::Null;
        let items = member_or(json, "data", &null).as_array().unwrap();
        let mut data: Vec<Trade> = Vec::new();
        let mut i: usize = 0;
        while i < items.len()
            invariant
                items@ == spec_as_array(hl_data(*websocket_text))->0,
                forall|k: int| 0 <= k < items@.len() ==> hl_trade_ok(#[trigger] items@[k]),
                i <= items@.len(),
                data@.len() == i,
                forall|k: int| 0 <= k < i ==> hl_trade_matches(#[trigger] data@[k], items@[k]),
            decreases items.len() - i,
        {
            let v = &items[i];
            assert(hl_trade_ok(*v));
            let coin = v.field_str("coin");
            let millis: i64 = match v.at("time") {
                Some(t) => match t.as_i64() {
                    Some(n) => n,
                    None => 0,
                },
                None => 0,
            };
            let side = match v.get("side") {
                Some(x) => match x.as_str() {
                    Some(s) => if str_eq(s, "B") {
                        TakerSide::Buy
                    } else if str_eq(s, "A") {
                        TakerSide::Sell
                    } else {
                        TakerSide::Unknown
                    },
                    None => TakerSide::Unknown,
                },
                None => TakerSide::Unknown,
            };
            data.push(Trade {
                exchange_instrument_type: ExchangeInstrumentType::Hyperliquid(self.convert_symbol_to_instrument_type(coin.as_str())),
                symbol: coin,
                timestamp: timestamp_from_millis_or_epoch(millis),
                price: v.field_str("px"),
                size: v.field_str("sz"),
                side,
            });
            i = i + 1;
        }
        Response::TradeSubscription(TradeSubscriptionData { data })
    }

    pub open spec fn order_data(&self, t: WebSocketText, r: Response) -> bool {
        let items = spec_as_array(hl_data(t))->0;
        r matches Response::OrderSubscription(s) && s.data@.len() == items.len() && forall|i: int|
            0 <= i < items.len() ==> hl_order_update_matches(#[trigger] s.data@[i], items[i])
    }

    fn order_status_exec(status: &str) -> (r: OrderStatus)
        ensures
            r == hl_status_of(status@),
    {
        let s = crate::text::to_lowercase(status);
        if ends_with_ascii(s.as_str(), "canceled") {
            OrderStatus::Canceled
        } else if ends_with_ascii(s.as_str(), "rejected") {
            OrderStatus::Rejected
        } else if str_eq(s.as_str(), "open") {
            OrderStatus::Open
        } else if str_eq(s.as_str(), "filled") {
            OrderStatus::Filled
        } else {
            OrderStatus::Unknown
        }
    }

    pub fn create_subscribe_order_websocket_subscription_data(&self, websocket_text: &WebSocketText) -> (r: Response)
        requires
            hl_orders_ok(*websocket_text),
        ensures
            self.order_data(*websocket_text, r),
    {
        let json = websocket_text.json_payload.as_ref().unwrap();
        let null = JsonValue::Null;
        let items = member_or(json, "data", &null).as_array().unwrap();
        let mut data: Vec<Order> = Vec::new();
        let mut i: usize = 0;
        while i < items.len()
            invariant
                items@ == spec_as_array(hl_data(*websocket_text))->0,
                forall|k: int| 0 <= k < items@.len() ==> hl_order_update_ok(#[trigger] items@[k]),
                i <= items@.len(),
                data@.len() == i,
                forall|k: int| 0 <= k < i ==> hl_order_update_matches(#[trigger] data@[k], items@[k]),
            decreases items.len() - i,
        {
            let v = &items[i];
            assert(hl_order_update_ok(*v));
            let o = v.get("order").unwrap();
            let status = str_member_or_empty_exec(v, "status");
            let coin = o.field_str("coin");
            let side = str_member_or_empty_exec(o, "side");
            data.push(Order {
                exchange_instrument_type: ExchangeInstrumentType::Hyperliquid(self.convert_symbol_to_instrument_type(coin.as_str())),
                symbol: coin,
                order_id: u64_text_or_zero_exec(o.get("oid")),
                client_order_id: str_member_or_empty_exec(o, "cloid"),
                order_type: OrderType::Limit,
                side: self.convert_side_str_to_order_side(side.as_str()),
                price: str_member_or_empty_exec(o, "limitPx"),
                quantity: str_member_or_empty_exec(o, "origSz"),
                leverage: String::new(),
                remaining_quantity: str_member_or_empty_exec(o, "sz"),
                cumulative_filled_quantity: String::new(),
                cumulative_filled_quote_quantity: String::new(),
                average_filled_price: String::new(),
                status: Self::order_status_exec(status.as_str()),
                fill_price: String::new(),
                fill_quantity: String::new(),
                fill_quote_quantity: String::new(),
                fill_is_maker: false,
            });
            i = i + 1;
        }
        Response::OrderSubscription(OrderSubscriptionData { data })
    }

    pub open spec fn fill_data(&self, t: WebSocketText, r: Response) -> bool {
        let items = spec_as_array(spec_at(hl_data(t), "fills"@))->0;
        r matches Response::FillSubscription(s) && s.data@.len() == items.len() && forall|i: int|
            0 <= i < items.len() ==> hl_fill_matches(#[trigger] s.data@[i], items[i])
    }

    pub fn create_subscribe_fill_websocket_subscription_data(&self, websocket_text: &WebSocketText) -> (r: Response)
        requires
            hl_fills_ok(*websocket_text),
        ensures
            self.fill_data(*websocket_text, r),
    {
        let json = websocket_text.json_payload.as_ref().unwrap();
        let null = JsonValue::Null;
        let items = member_or(member_or(json, "data", &null), "fills", &null).as_array().unwrap();
        let mut data: Vec<Fill> = Vec::new();
        let mut i: usize = 0;
        while i < items.len()
            invariant
                items@ == spec_as_array(spec_at(hl_data(*websocket_text), "fills"@))->0,
                forall|k: int| 0 <= k < items@.len() ==> hl_fill_ok(#[trigger] items@[k]),
                i <= items@.len(),
                data@.len() == i,
                forall|k: int| 0 <= k < i ==> hl_fill_matches(#[trigger] data@[k], items@[k]),
            decreases items.len() - i,
        {
            let v = &items[i];
            let coin = v.field_str("coin");
            let side = match v.get("side") {
                Some(x) => match x.as_str() {
                    Some(s) => self.convert_side_str_to_order_side(s),
                    None => OrderSide::Unknown,
                },
                None => OrderSide::Unknown,
            };
            let crossed = match v.get("crossed") {
                Some(c) => match c.as_bool() {
                    Some(b) => b,
                    None => false,
                },
                None => false,
            };
            data.push(Fill {
                exchange_instrument_type: ExchangeInstrumentType::Hyperliquid(self.convert_symbol_to_instrument_type(coin.as_str())),
                symbol: coin,
                order_id: u64_text_or_zero_exec(v.get("oid")),
                client_order_id: str_member_or_empty_exec(v, "cloid"),
                side,
                price: v.field_str("px"),
                quantity: v.field_str("sz"),
                quote_quantity: str_member_or_empty_exec(v, "fee"),
                is_maker: !crossed,
            });
            i = i + 1;
        }
        Response::FillSubscription(FillSubscriptionData { data })
    }

    pub fn create_authenticate_websocket_response(&self, _websocket_text: &WebSocketText) -> (r: Response)
        ensures
            r matches Response::Authenticate(a) && a.id is None,
    {
        Response::Authenticate(AuthenticateResponse { id: None })
    }

    /// The kind of subscription that an answer confirms: orders or fills; none for others.
    pub open spec fn subscribe_kind(t: WebSocketText) -> Option<SubscribeResponseKind> {
        match spec_as_str(spec_at(spec_at(spec_at(t.json_payload->0, "data"@), "subscription"@), "type"@)) {
            Some(k) => if k == "orderUpdates"@ {
                Some(SubscribeResponseKind::Order)
            } else if k == "userFills"@ {
                Some(SubscribeResponseKind::Fill)
            } else {
                None
            },
            None => None,
        }
    }

    pub fn create_subscribe_websocket_response(&self, websocket_text: &WebSocketText) -> (r: Response)
        requires
            websocket_text.json_payload is Some,
        ensures
            r matches Response::Subscribe(s) && s.id is None && s.symbols@.len() == 0 && s.kind == Self::subscribe_kind(
                *websocket_text,
            ),
    {
        let json = websocket_text.json_payload.as_ref().unwrap();
        let null = JsonValue::Null;
        let kind = match member_or(member_or(member_or(json, "data", &null), "subscription", &null), "type", &null).as_str() {
            Some(k) => if str_eq(k, "orderUpdates") {
                Some(SubscribeResponseKind::Order)
            } else if str_eq(k, "userFills") {
                Some(SubscribeResponseKind::Fill)
            } else {
                None
            },
            None => None,
        };
        Response::Subscribe(SubscribeResponse { id: None, symbols: Vec::new(), kind })
    }

    pub fn create_heartbeat_websocket_response(&self, _websocket_text: &WebSocketText) -> (r: Response)
        ensures
            r matches Response::Heartbeat(h) && h.id is None,
    {
        Response::Heartbeat(HeartbeatResponse { id: None })
    }

    /// The message itself, with its "data" text (else its "error" text) as the error
    /// message where it is JSON.
    pub open spec fn websocket_error_response(&self, t: WebSocketText, r: Response) -> bool {
        r matches Response::WebSocketErrorResponse(e) && e.url == t.url && e.text == t.text && e.json_payload
            == t.json_payload && e.payload_summary == t.payload_summary && e.error_code == t.error_code && match t.json_payload {
            Some(j) => crate::networking::http::opt_view(e.error_message) == match (match spec_get(j, "data"@) {
                Some(m) => spec_as_str(m),
                None => None,
            }) {
                Some(m) => Some(m),
                None => match spec_get(j, "error"@) {
                    Some(m) => spec_as_str(m),
                    None => None,
                },
            },
            None => e.error_message == t.error_message,
        }
    }

    pub fn create_websocket_error_response(&self, websocket_text: WebSocketText) -> (r: Response)
        ensures
            self.websocket_error_response(websocket_text, r),
    {
        let mut t = websocket_text;
        match &t.json_payload {
            Some(j) => {
                let from_data = match j.get("data") {
                    Some(m) => match m.as_str() {
                        Some(x) => Some(string_from(x)),
                        None => None,
                    },
                    None => None,
                };
                let message = match from_data {
                    Some(m) => Some(m),
                    None => match j.get("error") {
                        Some(m) => match m.as_str() {
                            Some(x) => Some(string_from(x)),
                            None => None,
                        },
                        None => None,
                    },
                };
                t.error_message = message;
            },
            None => {},
        }
        Response::WebSocketErrorResponse(t)
    }
}

fn has_str_member(v: &JsonValue, key: &str) -> (r: bool)
    ensures
        r == (spec_get(*v, key@) matches Some(x) && spec_as_str(x) is Some),
{
    match v.get(key) {
        Some(x) => x.as_str().is_some(),
        None => false,
    }
}

fn has_i64_member(v: &JsonValue, key: &str) -> (r: bool)
    ensures
        r == (spec_get(*v, key@) matches Some(x) && spec_as_i64(x) is Some),
{
    match v.get(key) {
        Some(x) => x.as_i64().is_some(),
        None => false,
    }
}

fn bbo_ok(t: &WebSocketText) -> (r: bool)
    ensures
        r == hl_bbo_ok(*t),
{
    let json = match &t.json_payload {
        Some(j) => j,
        None => return false,
    };
    let d = match json.get("data") {
        Some(d) => d,
        None => return false,
    };
    assert(hl_data(*t) == *d);
    if !has_str_member(d, "coin") || !has_i64_member(d, "time") {
        return false;
    }
    match d.get("bbo") {
        Some(b) => match b.as_array() {
            Some(levels) => {
                if levels.len() < 2 {
                    return false;
                }
                let ok = has_str_member(&levels[0], "px") && has_str_member(&levels[0], "sz") && has_str_member(
                    &levels[1],
                    "px",
                ) && has_str_member(&levels[1], "sz");
                proof {
                    if ok {
                        assert forall|i: int| 0 <= i < 2 implies (spec_get(#[trigger] levels@[i], "px"@) matches Some(p)
                            && spec_as_str(p) is Some) && (spec_get(levels@[i], "sz"@) matches Some(z) && spec_as_str(z) is Some) by {
                            if i == 0 {
                            } else {
                                assert(i == 1);
                            }
                        }
                    }
                }
                ok
            },
            None => false,
        },
        None => false,
    }
}

fn all_trades_ok(items: &Vec<JsonValue>) -> (r: bool)
    ensures
        r == hl_all_trades_ok(items@),
{
    let mut i: usize = 0;
    while i < items.len()
        invariant
            i <= items@.len(),
            forall|k: int| 0 <= k < i ==> hl_trade_ok(#[trigger] items@[k]),
        decreases items.len() - i,
    {
        let v = &items[i];
        let ok = has_str_member(v, "coin") && has_i64_member(v, "time") && has_str_member(v, "px") && has_str_member(v, "sz");
        if !ok {
            return false;
        }
        i = i + 1;
    }
    true
}

fn all_orders_ok(items: &Vec<JsonValue>) -> (r: bool)
    ensures
        r == hl_all_orders_ok(items@),
{
    let mut i: usize = 0;
    while i < items.len()
        invariant
            i <= items@.len(),
            forall|k: int| 0 <= k < i ==> hl_order_update_ok(#[trigger] items@[k]),
        decreases items.len() - i,
    {
        let v = &items[i];
        let ok = match v.get("order") {
            Some(o) => has_str_member(o, "coin"),
            None => false,
        };
        if !ok {
            return false;
        }
        i = i + 1;
    }
    true
}

fn all_fills_ok(items: &Vec<JsonValue>) -> (r: bool)
    ensures
        r == hl_all_fills_ok(items@),
{
    let mut i: usize = 0;
    while i < items.len()
        invariant
            i <= items@.len(),
            forall|k: int| 0 <= k < i ==> hl_fill_ok(#[trigger] items@[k]),
        decreases items.len() - i,
    {
        let v = &items[i];
        let ok = has_str_member(v, "coin") && has_str_member(v, "px") && has_str_member(v, "sz");
        if !ok {
            return false;
        }
        i = i + 1;
    }
    true
}

fn data_items_ok(t: &WebSocketText, kind: u8) -> (r: bool)
    requires
        kind < 3,
    ensures
        kind == 0 ==> r == hl_trades_ok(*t),
        kind == 1 ==> r == hl_orders_ok(*t),
        kind == 2 ==> r == hl_fills_ok(*t),
{
    let json = match &t.json_payload {
        Some(j) => j,
        None => return false,
    };
    let d = match json.get("data") {
        Some(d) => d,
        None => return false,
    };
    if kind == 2 {
        match d.get("fills") {
            Some(f) => match f.as_array() {
                Some(items) => all_fills_ok(items),
                None => false,
            },
            None => false,
        }
    } else {
        match d.as_array() {
            Some(items) => if kind == 0 {
                all_trades_ok(items)
            } else {
                all_orders_ok(items)
            },
            None => false,
        }
    }
}

impl HyperliquidClient {
    /// What a summarized message comes to: the data of its channel where it carries the
    /// members the conversion reads (none where it does not, where the original panics),
    /// a subscription or heartbeat answer, or an error.
    pub open spec fn handled(&self, t: WebSocketText, r: Option<Response>) -> bool {
        if Self::channel_is(t, "bbo"@) {
            if hl_bbo_ok(t) { r matches Some(x) && self.top_of_book_data(t, x) } else { r is None }
        } else if Self::channel_is(t, "trades"@) {
            if hl_trades_ok(t) { r matches Some(x) && self.trade_data(t, x) } else { r is None }
        } else if Self::channel_is(t, "orderUpdates"@) {
            if hl_orders_ok(t) { r matches Some(x) && self.order_data(t, x) } else { r is None }
        } else if Self::channel_is(t, "userFills"@) {
            if hl_fills_ok(t) { r matches Some(x) && self.fill_data(t, x) } else { r is None }
        } else if Self::channel_is(t, "pong"@) {
            r matches Some(x) && x matches Response::Heartbeat(h) && h.id is None
        } else if Self::channel_is(t, "subscriptionResponse"@) {
            if t.json_payload is Some {
                r matches Some(x) && x matches Response::Subscribe(s) && s.id is None && s.symbols@.len() == 0 && s.kind
                    == Self::subscribe_kind(t)
            } else {
                r is None
            }
        } else {
            r matches Some(x) && self.websocket_error_response(t, x)
        }
    }

    /// A message as it was read, summarized and then classified.
    pub fn handle_websocket_text(&self, websocket_text: WebSocketText) -> (r: Option<Response>)
        ensures
            exists|t: WebSocketText| #[trigger] self.summarized(websocket_text, t) && self.handled(t, r),
    {
        let mut websocket_text = websocket_text;
        self.populate_websocket_text_payload_summary(&mut websocket_text);
        let ghost t = websocket_text;
        let r = if self.is_websocket_text_top_of_book_subscription_data(&websocket_text) {
            if bbo_ok(&websocket_text) {
                Some(self.create_subscribe_top_of_book_websocket_subscription_data(&websocket_text))
            } else {
                None
            }
        } else if self.is_websocket_text_trade_subscription_data(&websocket_text) {
            if data_items_ok(&websocket_text, 0) {
                Some(self.create_subscribe_trade_websocket_subscription_data(&websocket_text))
            } else {
                None
            }
        } else if self.is_websocket_text_order_subscription_data(&websocket_text) {
            if data_items_ok(&websocket_text, 1) {
                Some(self.create_subscribe_order_websocket_subscription_data(&websocket_text))
            } else {
                None
            }
        } else if self.is_websocket_text_fill_subscription_data(&websocket_text) {
            if data_items_ok(&websocket_text, 2) {
                Some(self.create_subscribe_fill_websocket_subscription_data(&websocket_text))
            } else {
                None
            }
        } else if self.is_websocket_text_heartbeat_response(&websocket_text) {
            Some(self.create_heartbeat_websocket_response(&websocket_text))
        } else if self.is_websocket_text_subscribe_success_response(&websocket_text) {
            if websocket_text.json_payload.is_some() {
                Some(self.create_subscribe_websocket_response(&websocket_text))
            } else {
                None
            }
        } else {
            Some(self.create_websocket_error_response(websocket_text))
        };
        assert(self.handled(t, r));
        r
    }
}

} // verus!
