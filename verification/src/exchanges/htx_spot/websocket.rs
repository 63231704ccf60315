//! HTX spot websocket API: the signed authentication, the subscriptions, the answers to
//! the exchange's pings, and the messages the streams send.

use vstd::prelude::*;
use vstd::utf8::encode_utf8;
use crate::compression::{gunzip_text, gunzip_to_string};
use crate::exchange_client::common::{
    AuthenticateResponse, FillSubscriptionData, OrderSubscriptionData, Response, SubscribeFillRequest,
    SubscribeOrderRequest, SubscribeResponse, SubscribeTopOfBookRequest, SubscribeTradeRequest,
    TopOfBookSubscriptionData, TradeSubscriptionData,
};
use crate::exchanges::htx_spot::common::{
    htx_encoded, htx_number_text, htx_side_of, htx_status_of, htx_type_of, member_or, HtxSpotClient,
};
use crate::exchanges::htx_spot::rest::{htx_channel_symbol, items_exec, items_of};
use crate::json::{field_str, json_text, quoted, spec_as_bool, spec_as_i64, spec_as_str, spec_as_u64, spec_at, spec_get, write_quoted, JsonValue};
use crate::networking::http::opt_view;
use crate::networking::websocket::WebSocketText;
use crate::signing::{base64_encode, base64_standard, hmac_sha256, hmac_sha256_tag, parse_url_host, parse_url_path, url_host, url_path};
use crate::text::{ends_with_text, i64_to_string, int_text, nat_digits, push_str, starts_with, str_eq, string_from, u64_to_string};
use crate::time::{format_utc_seconds, from_millis_or_epoch, timestamp_from_millis_or_epoch, utc_now, utc_seconds_text};
use crate::types::{
    ExchangeInstrumentType, ExchangeWebSocketEndpoint, Fill, Order, OrderSide, TakerSide, TopOfBook, Trade,
    WebSocketEndpoint,
};

verus! {

/// The URL the authentication signs for: the account-data URL where it parses, else HTX's.
pub open spec fn htx_auth_url(url: Seq<char>) -> Seq<char> {
    if url_path(url) is Some { url } else { "wss://api.huobi.pro/ws/v2"@ }
}

/// The host of that URL, HTX's where it has none.
pub open spec fn htx_auth_host(url: Seq<char>) -> Seq<char> {
    match url_host(htx_auth_url(url)) {
        Some(h) => h,
        None => "api.huobi.pro"@,
    }
}

/// The path of that URL.
pub open spec fn htx_auth_path(url: Seq<char>) -> Seq<char> {
    match url_path(htx_auth_url(url)) {
        Some(p) => p,
        None => Seq::empty(),
    }
}

/// The query that the authentication signs.
pub open spec fn htx_auth_query(api_key: Seq<char>, timestamp: Seq<char>) -> Seq<char> {
    "accessKey="@ + api_key + "&signatureMethod=HmacSHA256&signatureVersion=2.1&timestamp="@ + htx_encoded(
        encode_utf8(timestamp),
    )
}

/// The Base64 HMAC-SHA256 tag of the GET of the URL's host and path with that query.
pub open spec fn htx_auth_signature(secret: Seq<char>, api_key: Seq<char>, url: Seq<char>, timestamp: Seq<char>) -> Seq<char> {
    base64_standard(
        hmac_sha256_tag(
            encode_utf8(secret),
            encode_utf8(
                "GET\n"@ + htx_auth_host(url) + "\n"@ + htx_auth_path(url) + "\n"@ + htx_auth_query(api_key, timestamp),
            ),
        ),
    )
}

/// The authentication request.
pub open spec fn htx_auth_text(api_key: Seq<char>, signature: Seq<char>, timestamp: Seq<char>) -> Seq<char> {
    "{\"action\":\"req\",\"ch\":\"auth\",\"params\":{\"accessKey\":"@ + quoted(api_key)
        + ",\"authType\":\"api\",\"signature\":"@ + quoted(signature)
        + ",\"signatureMethod\":\"HmacSHA256\",\"signatureVersion\":\"2.1\",\"timestamp\":"@ + quoted(timestamp)
        + "}}"@
}

/// One market subscription: its id (the prefix and the symbol's place) and its topic.
pub open spec fn htx_market_sub_line(symbol: Seq<char>, i: nat, topic_suffix: Seq<char>, id_prefix: Seq<char>) -> Seq<char> {
    "{\"id\":"@ + quoted(id_prefix + nat_digits(i)) + ",\"sub\":"@ + quoted("market."@ + symbol + topic_suffix) + "}"@
}

/// The market subscriptions of the symbols, one per line.
pub open spec fn htx_market_sub_text(symbols: Seq<String>, topic_suffix: Seq<char>, id_prefix: Seq<char>) -> Seq<char>
    decreases symbols.len(),
{
    if symbols.len() == 0 {
        Seq::empty()
    } else if symbols.len() == 1 {
        htx_market_sub_line(symbols[0]@, 0, topic_suffix, id_prefix)
    } else {
        htx_market_sub_text(symbols.drop_last(), topic_suffix, id_prefix) + "\n"@ + htx_market_sub_line(
            symbols.last()@,
            (symbols.len() - 1) as nat,
            topic_suffix,
            id_prefix,
        )
    }
}

/// One account subscription.
pub open spec fn htx_account_sub_line(ch: Seq<char>) -> Seq<char> {
    "{\"action\":\"sub\",\"ch\":"@ + quoted(ch) + "}"@
}

pub open spec fn htx_account_sub_lines(symbols: Seq<String>, prefix: Seq<char>, suffix: Seq<char>) -> Seq<char>
    decreases symbols.len(),
{
    if symbols.len() == 0 {
        Seq::empty()
    } else if symbols.len() == 1 {
        htx_account_sub_line(prefix + symbols[0]@ + suffix)
    } else {
        htx_account_sub_lines(symbols.drop_last(), prefix, suffix) + "\n"@ + htx_account_sub_line(
            prefix + symbols.last()@ + suffix,
        )
    }
}

/// The account subscriptions of the symbols, one per line; that of every symbol ("*")
/// where none is named.
pub open spec fn htx_account_sub_text(symbols: Seq<String>, prefix: Seq<char>, suffix: Seq<char>) -> Seq<char> {
    if symbols.len() == 0 {
        htx_account_sub_line(prefix + "*"@ + suffix)
    } else {
        htx_account_sub_lines(symbols, prefix, suffix)
    }
}

/// The answer to a market ping: `{"pong":ts}` where the message is `{"ping":ts}`.
pub open spec fn htx_market_pong(json: Option<JsonValue>) -> Option<Seq<char>> {
    match json {
        Some(j) => match spec_get(j, "ping"@) {
            Some(v) => match spec_as_i64(v) {
                Some(ts) => Some("{\"pong\":"@ + int_text(ts as int) + "}"@),
                None => None,
            },
            None => None,
        },
        None => None,
    }
}

/// The answer to an account ping (`"action":"ping"`): the same "ts" in its data, or null.
pub open spec fn htx_account_pong(json: Option<JsonValue>) -> Option<Seq<char>> {
    match json {
        Some(j) => if spec_get(j, "action"@) matches Some(a) && spec_as_str(a) == Some("ping"@) {
            let ts = match spec_get(j, "data"@) {
                Some(d) => match spec_get(d, "ts"@) {
                    Some(t) => t,
                    None => JsonValue::Null,
                },
                None => JsonValue::Null,
            };
            Some("{\"action\":\"pong\",\"data\":{\"ts\":"@ + json_text(ts) + "}}"@)
        } else {
            None
        },
        None => None,
    }
}

/// A summary value: a string itself, anything else its JSON text.
pub open spec fn summary_value(v: JsonValue) -> Seq<char> {
    match spec_as_str(v) {
        Some(s) => s,
        None => json_text(v),
    }
}

pub open spec fn summarized_key(o: WebSocketText, n: WebSocketText, j: JsonValue, key: Seq<char>) -> bool {
    n.summary(key) == match spec_get(j, key) {
        Some(v) => Some(summary_value(v)),
        None => o.summary(key),
    }
}

pub open spec fn htx_is_data(t: WebSocketText) -> bool {
    (t.summary("ch"@) is Some && t.summary("status"@) is None && t.summary("subbed"@) is None && t.summary(
        "action"@,
    ) is None) || t.summary("action"@) == Some("push"@)
}

pub open spec fn htx_is_market_subscribed(t: WebSocketText) -> bool {
    t.summary("status"@) == Some("ok"@) && t.summary("subbed"@) is Some
}

pub open spec fn htx_is_authenticated(t: WebSocketText) -> bool {
    t.summary("action"@) == Some("req"@) && t.summary("ch"@) == Some("auth"@) && t.summary("code"@) == Some("200"@)
}

pub open spec fn htx_is_account_subscribed(t: WebSocketText) -> bool {
    t.summary("action"@) == Some("sub"@) && t.summary("code"@) == Some("200"@)
}

/// A summary value that ends with the suffix / starts with the prefix.
pub open spec fn summary_ends_with(t: WebSocketText, key: Seq<char>, suffix: Seq<char>) -> bool {
    t.summary(key) matches Some(v) && suffix.is_suffix_of(v)
}

pub open spec fn summary_starts_with(t: WebSocketText, key: Seq<char>, prefix: Seq<char>) -> bool {
    t.summary(key) matches Some(v) && prefix.is_prefix_of(v)
}

/// An id that is a string or an unsigned integer, written out; else empty.
pub open spec fn htx_id_text(v: JsonValue) -> Seq<char> {
    match spec_as_str(v) {
        Some(s) => s,
        None => match spec_as_u64(v) {
            Some(n) => nat_digits(n as nat),
            None => Seq::empty(),
        },
    }
}

/// "buy" and "sell", as a side.
pub open spec fn htx_direction(v: JsonValue) -> Seq<char> {
    match spec_as_str(v) {
        Some(s) => s,
        None => Seq::empty(),
    }
}

/// `!aggressor.as_bool().unwrap_or(true)`.
pub open spec fn htx_is_maker(v: JsonValue) -> bool {
    match spec_as_bool(v) {
        Some(b) => !b,
        None => false,
    }
}

/// The millisecond time of a message, zero where it has none.
pub open spec fn millis_or_zero(v: JsonValue) -> int {
    match spec_as_i64(v) {
        Some(n) => n as int,
        None => 0,
    }
}

pub open spec fn htx_trade_matches(x: Trade, d: JsonValue, symbol: Seq<char>, kind: ExchangeInstrumentType) -> bool {
    &&& x.exchange_instrument_type == kind
    &&& x.symbol@ == symbol
    &&& from_millis_or_epoch(x.timestamp, millis_or_zero(spec_at(d, "ts"@)))
    &&& x.price@ == htx_number_text(spec_at(d, "price"@))
    &&& x.size@ == htx_number_text(spec_at(d, "amount"@))
    &&& x.side == if htx_direction(spec_at(d, "direction"@)) == "buy"@ {
        TakerSide::Buy
    } else if htx_direction(spec_at(d, "direction"@)) == "sell"@ {
        TakerSide::Sell
    } else {
        TakerSide::Unknown
    }
}

pub open spec fn htx_ws_order_matches(r: Order, j: JsonValue) -> bool {
    let d = spec_at(j, "data"@);
    let order_type = field_str(d, "type"@);
    &&& r.exchange_instrument_type == ExchangeInstrumentType::HtxSpot
    &&& r.symbol@ == field_str(d, "symbol"@)
    &&& r.order_id@ == htx_id_text(spec_at(d, "orderId"@))
    &&& r.client_order_id@ == field_str(d, "clientOrderId"@)
    &&& r.order_type == htx_type_of(order_type)
    &&& r.side == htx_side_of(order_type)
    &&& r.price@ == field_str(d, "orderPrice"@)
    &&& r.quantity@ == field_str(d, "orderSize"@)
    &&& r.leverage@.len() == 0
    &&& r.remaining_quantity@.len() == 0
    &&& r.cumulative_filled_quantity@ == field_str(d, "filledAmount"@)
    &&& r.cumulative_filled_quote_quantity@ == field_str(d, "filledCashAmount"@)
    &&& r.average_filled_price@.len() == 0
    &&& r.status == htx_status_of(field_str(d, "orderStatus"@))
    &&& r.fill_price@ == field_str(d, "tradePrice"@)
    &&& r.fill_quantity@ == field_str(d, "tradeVolume"@)
    &&& r.fill_quote_quantity@.len() == 0
    &&& r.fill_is_maker == htx_is_maker(spec_at(d, "aggressor"@))
}

pub open spec fn htx_ws_fill_matches(f: Fill, j: JsonValue) -> bool {
    let d = spec_at(j, "data"@);
    &&& f.exchange_instrument_type == ExchangeInstrumentType::HtxSpot
    &&& f.symbol@ == field_str(d, "symbol"@)
    &&& f.order_id@ == htx_id_text(spec_at(d, "orderId"@))
    &&& f.client_order_id@ == field_str(d, "clientOrderId"@)
    &&& f.side == if htx_direction(spec_at(d, "orderSide"@)) == "buy"@ {
        OrderSide::Buy
    } else if htx_direction(spec_at(d, "orderSide"@)) == "sell"@ {
        OrderSide::Sell
    } else {
        OrderSide::Unknown
    }
    &&& f.price@ == field_str(d, "tradePrice"@)
    &&& f.quantity@ == field_str(d, "tradeVolume"@)
    &&& f.quote_quantity@.len() == 0
    &&& f.is_maker == htx_is_maker(spec_at(d, "aggressor"@))
}

/// A book update must name its channel.
pub open spec fn htx_book_message_ok(t: WebSocketText) -> bool {
    t.json_payload matches Some(j) && spec_as_str(spec_at(j, "ch"@)) is Some
}

/// A trade update must name its channel and hold an array of trades.
pub open spec fn htx_trade_message_ok(t: WebSocketText) -> bool {
    t.json_payload matches Some(j) && spec_as_str(spec_at(j, "ch"@)) is Some && crate::json::spec_as_array(
        spec_at(spec_at(j, "tick"@), "data"@),
    ) is Some
}

/// `{"pong":ts}` for a message `{"ping":ts}`.
pub fn market_pong_text(json: &Option<JsonValue>) -> (r: Option<String>)
    ensures
        opt_view(r) == htx_market_pong(*json),
{
    match json {
        Some(j) => match j.get("ping") {
            Some(v) => match v.as_i64() {
                Some(ts) => {
                    let mut s = string_from("{\"pong\":");
                    let digits = i64_to_string(ts);
                    push_str(&mut s, digits.as_str());
                    push_str(&mut s, "}");
                    Some(s)
                },
                None => None,
            },
            None => None,
        },
        None => None,
    }
}

pub(crate) fn write_market_subs(out: &mut String, symbols: &Vec<String>, topic_suffix: &str, id_prefix: &str)
    ensures
        final(out)@ == old(out)@ + htx_market_sub_text(symbols@, topic_suffix@, id_prefix@),
{
    let ghost start = out@;
    let mut i: usize = 0;
    while i < symbols.len()
        invariant
            i <= symbols@.len(),
            out@ == start + htx_market_sub_text(symbols@.take(i as int), topic_suffix@, id_prefix@),
        decreases symbols.len() - i,
    {
        assert(symbols@.take(i + 1).drop_last() =~= symbols@.take(i as int));
        if i > 0 {
            push_str(out, "\n");
        }
        let mut id = string_from(id_prefix);
        let digits = u64_to_string(i as u64);
        push_str(&mut id, digits.as_str());
        let mut topic = string_from("market.");
        push_str(&mut topic, symbols[i].as_str());
        push_str(&mut topic, topic_suffix);
        push_str(out, "{\"id\":");
        write_quoted(id.as_str(), out);
        push_str(out, ",\"sub\":");
        write_quoted(topic.as_str(), out);
        push_str(out, "}");
        i = i + 1;
    }
    assert(symbols@.take(symbols@.len() as int) =~= symbols@);
}

pub(crate) fn write_account_sub(out: &mut String, prefix: &str, middle: &str, suffix: &str)
    ensures
        final(out)@ == old(out)@ + htx_account_sub_line(prefix@ + middle@ + suffix@),
{
    let mut ch = string_from(prefix);
    push_str(&mut ch, middle);
    push_str(&mut ch, suffix);
    push_str(out, "{\"action\":\"sub\",\"ch\":");
    write_quoted(ch.as_str(), out);
    push_str(out, "}");
}

fn account_subs(symbols: &Vec<String>, prefix: &str, suffix: &str) -> (r: String)
    ensures
        r@ == htx_account_sub_text(symbols@, prefix@, suffix@),
{
    let mut out = String::new();
    if symbols.len() == 0 {
        write_account_sub(&mut out, prefix, "*", suffix);
        proof {
            reveal_strlit("*");
        }
        return out;
    }
    let mut i: usize = 0;
    while i < symbols.len()
        invariant
            i <= symbols@.len(),
            out@ == htx_account_sub_lines(symbols@.take(i as int), prefix@, suffix@),
        decreases symbols.len() - i,
    {
        assert(symbols@.take(i + 1).drop_last() =~= symbols@.take(i as int));
        if i > 0 {
            push_str(&mut out, "\n");
        }
        write_account_sub(&mut out, prefix, symbols[i].as_str(), suffix);
        i = i + 1;
    }
    assert(symbols@.take(symbols@.len() as int) =~= symbols@);
    out
}

pub(crate) fn summary_value_exec(v: &JsonValue) -> (r: String)
    ensures
        r@ == summary_value(*v),
{
    match v.as_str() {
        Some(s) => string_from(s),
        None => v.to_text(),
    }
}

pub(crate) fn summary_of(j: &JsonValue, key: &str) -> (r: Option<String>)
    ensures
        opt_view(r) == match spec_get(*j, key@) {
            Some(v) => Some(summary_value(v)),
            None => None,
        },
{
    match j.get(key) {
        Some(v) => Some(summary_value_exec(v)),
        None => None,
    }
}

pub(crate) fn id_text_exec(v: &JsonValue) -> (r: String)
    ensures
        r@ == htx_id_text(*v),
{
    match v.as_str() {
        Some(s) => string_from(s),
        None => match v.as_u64() {
            Some(n) => u64_to_string(n),
            None => String::new(),
        },
    }
}

pub(crate) fn is_maker_exec(v: &JsonValue) -> (r: bool)
    ensures
        r == htx_is_maker(*v),
{
    match v.as_bool() {
        Some(b) => !b,
        None => false,
    }
}

pub(crate) fn millis_exec(v: &JsonValue) -> (r: i64)
    ensures
        r == millis_or_zero(*v),
{
    match v.as_i64() {
        Some(n) => n,
        None => 0,
    }
}

impl HtxSpotClient {
    pub fn websocket_api_url(&self, endpoint: WebSocketEndpoint) -> (r: String)
        requires
            endpoint == WebSocketEndpoint::HtxSpot(ExchangeWebSocketEndpoint::MarketData)
                || endpoint == WebSocketEndpoint::HtxSpot(ExchangeWebSocketEndpoint::AccountData),
        ensures
            endpoint == WebSocketEndpoint::HtxSpot(ExchangeWebSocketEndpoint::MarketData) ==> r@
                == self.websocket_market_data_api_url@,
            endpoint == WebSocketEndpoint::HtxSpot(ExchangeWebSocketEndpoint::AccountData) ==> r@
                == self.websocket_account_data_api_url@,
    {
        if endpoint == WebSocketEndpoint::HtxSpot(ExchangeWebSocketEndpoint::MarketData) {
            self.websocket_market_data_api_url.clone()
        } else {
            self.websocket_account_data_api_url.clone()
        }
    }

    /// The authentication request signed at the given time (seconds since the epoch);
    /// empty without a credential.
    pub fn create_authenticate_websocket_request_at(&self, seconds: i64) -> (r: String)
        ensures
            match self.credential {
                Some(c) => r@ == htx_auth_text(
                    c.api_key@,
                    htx_auth_signature(
                        c.api_secret@,
                        c.api_key@,
                        self.websocket_account_data_api_url@,
                        utc_seconds_text(seconds),
                    ),
                    utc_seconds_text(seconds),
                ),
                None => r@.len() == 0,
            },
    {
        let c = match &self.credential {
            Some(c) => c,
            None => return String::new(),
        };
        let timestamp = format_utc_seconds(seconds);
        let encoded_timestamp = HtxSpotClient::percent_encode_htx(timestamp.as_str());
        let mut query = string_from("accessKey=");
        push_str(&mut query, c.api_key.as_str());
        push_str(&mut query, "&signatureMethod=HmacSHA256&signatureVersion=2.1&timestamp=");
        push_str(&mut query, encoded_timestamp.as_str());
        let url = match parse_url_path(self.websocket_account_data_api_url.as_str()) {
            Some(_) => string_from(self.websocket_account_data_api_url.as_str()),
            None => string_from("wss://api.huobi.pro/ws/v2"),
        };
        let host = match parse_url_host(url.as_str()) {
            Some(h) => h,
            None => string_from("api.huobi.pro"),
        };
        let path = match parse_url_path(url.as_str()) {
            Some(p) => p,
            None => String::new(),
        };
        let mut prehash = string_from("GET\n");
        push_str(&mut prehash, host.as_str());
        push_str(&mut prehash, "\n");
        push_str(&mut prehash, path.as_str());
        push_str(&mut prehash, "\n");
        push_str(&mut prehash, query.as_str());
        let tag = hmac_sha256(c.api_secret.as_str().as_bytes(), prehash.as_str().as_bytes());
        let signature = base64_encode(tag.as_slice());
        let mut s = string_from("{\"action\":\"req\",\"ch\":\"auth\",\"params\":{\"accessKey\":");
        write_quoted(c.api_key.as_str(), &mut s);
        push_str(&mut s, ",\"authType\":\"api\",\"signature\":");
        write_quoted(signature.as_str(), &mut s);
        push_str(&mut s, ",\"signatureMethod\":\"HmacSHA256\",\"signatureVersion\":\"2.1\",\"timestamp\":");
        write_quoted(timestamp.as_str(), &mut s);
        push_str(&mut s, "}}");
        s
    }

    /// The authentication request, signed at the current time; empty without a credential.
    pub fn create_authenticate_websocket_request(&self) -> (r: String)
        ensures
            match self.credential {
                Some(c) => exists|seconds: i64| r@ == #[trigger] htx_auth_text(
                    c.api_key@,
                    htx_auth_signature(
                        c.api_secret@,
                        c.api_key@,
                        self.websocket_account_data_api_url@,
                        utc_seconds_text(seconds),
                    ),
                    utc_seconds_text(seconds),
                ),
                None => r@.len() == 0,
            },
    {
        let now = utc_now();
        self.create_authenticate_websocket_request_at(now.seconds)
    }

    /// No heartbeat text: the connection is kept alive with ping frames, and the
    /// exchange's own pings are answered.
    pub fn create_heartbeat_websocket_request(&self) -> (r: String)
        ensures
            r@.len() == 0,
    {
        String::new()
    }

    /// One best-bid-and-offer subscription per symbol, one per line.
    pub fn create_subscribe_top_of_book_websocket_request(&self, request: &SubscribeTopOfBookRequest) -> (r: String)
        ensures
            r@ == htx_market_sub_text(request.symbols@, ".bbo"@, "bbo-"@),
    {
        let mut s = String::new();
        write_market_subs(&mut s, &request.symbols, ".bbo", "bbo-");
        s
    }

    /// One trade-detail subscription per symbol, one per line.
    pub fn create_subscribe_trade_websocket_request(&self, request: &SubscribeTradeRequest) -> (r: String)
        ensures
            r@ == htx_market_sub_text(request.symbols@, ".trade.detail"@, "trade-"@),
    {
        let mut s = String::new();
        write_market_subs(&mut s, &request.symbols, ".trade.detail", "trade-");
        s
    }

    /// The order updates of each symbol (of all where none is named), one per line.
    pub fn create_subscribe_order_websocket_request(&self, request: &SubscribeOrderRequest) -> (r: String)
        ensures
            r@ == htx_account_sub_text(request.symbols@, "orders#"@, ""@),
    {
        account_subs(&request.symbols, "orders#", "")
    }

    /// The trade clearings of each symbol (of all where none is named), one per line.
    pub fn create_subscribe_fill_websocket_request(&self, request: &SubscribeFillRequest) -> (r: String)
        ensures
            r@ == htx_account_sub_text(request.symbols@, "trade.clearing#"@, "#0"@),
    {
        account_subs(&request.symbols, "trade.clearing#", "#0")
    }

    /// The text of a binary message: its gzip data decompressed; none where it is not
    /// gzip of UTF-8 text.
    pub fn convert_binary_websocket_message_to_text(&self, bytes: &[u8]) -> (r: Option<String>)
        ensures
            opt_view(r) == gunzip_text(bytes@),
    {
        gunzip_to_string(bytes)
    }

    /// The answer to a ping of the market stream (a binary message): `{"pong":ts}`.
    pub fn market_pong(&self, json: &Option<JsonValue>) -> (r: Option<String>)
        ensures
            opt_view(r) == htx_market_pong(*json),
    {
        market_pong_text(json)
    }

    /// The answer to a ping of the account stream (a text message).
    pub fn account_pong(&self, json: &Option<JsonValue>) -> (r: Option<String>)
        ensures
            opt_view(r) == htx_account_pong(*json),
    {
        let j = match json {
            Some(j) => j,
            None => return None,
        };
        let is_ping = match j.get("action") {
            Some(a) => match a.as_str() {
                Some(s) => str_eq(s, "ping"),
                None => false,
            },
            None => false,
        };
        if !is_ping {
            return None;
        }
        let mut s = string_from("{\"action\":\"pong\",\"data\":{\"ts\":");
        let null = JsonValue::Null;
        let ts: &JsonValue = match j.get("data") {
            Some(d) => match d.get("ts") {
                Some(t) => t,
                None => &null,
            },
            None => &null,
        };
        ts.write_text(&mut s);
        push_str(&mut s, "}}");
        Some(s)
    }

    /// The message with its "status", "subbed", "action", "code" and "ch" where it has
    /// them: strings as they are, other values as JSON text.
    pub open spec fn summarized(&self, o: WebSocketText, n: WebSocketText) -> bool {
        &&& n.url == o.url
        &&& n.text == o.text
        &&& n.json_payload == o.json_payload
        &&& n.error_code == o.error_code
        &&& n.error_message == o.error_message
        &&& match o.json_payload {
            Some(j) => {
                &&& summarized_key(o, n, j, "status"@)
                &&& summarized_key(o, n, j, "subbed"@)
                &&& summarized_key(o, n, j, "action"@)
                &&& summarized_key(o, n, j, "code"@)
                &&& summarized_key(o, n, j, "ch"@)
            },
            None => n.payload_summary == o.payload_summary,
        }
    }

    pub fn populate_websocket_text_payload_summary(&self, websocket_text: &mut WebSocketText)
        ensures
            self.summarized(*old(websocket_text), *final(websocket_text)),
    {
        proof {
            reveal_strlit("status");
            reveal_strlit("subbed");
            reveal_strlit("action");
            reveal_strlit("code");
            reveal_strlit("ch");
            assert("status"@.len() == 6);
            assert("subbed"@.len() == 6);
            assert("action"@.len() == 6);
            assert("code"@.len() == 4);
            assert("ch"@.len() == 2);
            assert("status"@[1] != "subbed"@[1]);
            assert("status"@[0] != "action"@[0]);
            assert("subbed"@[0] != "action"@[0]);
        }
        let (status, subbed, action, code, ch) = match &websocket_text.json_payload {
            Some(j) => (
                summary_of(j, "status"),
                summary_of(j, "subbed"),
                summary_of(j, "action"),
                summary_of(j, "code"),
                summary_of(j, "ch"),
            ),
            None => (None, None, None, None, None),
        };
        match status {
            Some(s) => websocket_text.payload_summary.insert(string_from("status"), s),
            None => {},
        }
        match subbed {
            Some(s) => websocket_text.payload_summary.insert(string_from("subbed"), s),
            None => {},
        }
        match action {
            Some(s) => websocket_text.payload_summary.insert(string_from("action"), s),
            None => {},
        }
        match code {
            Some(s) => websocket_text.payload_summary.insert(string_from("code"), s),
            None => {},
        }
        match ch {
            Some(s) => websocket_text.payload_summary.insert(string_from("ch"), s),
            None => {},
        }
    }
}

impl HtxSpotClient {
    /// The best bid and offer of a book update, at the message's time.
    pub open spec fn top_of_book_data(&self, t: WebSocketText, r: Response) -> bool {
        let j = t.json_payload->0;
        let tick = spec_at(j, "tick"@);
        r matches Response::TopOfBookSubscription(s) && s.data@.len() == 1 && ({
            let b = s.data@[0];
            &&& b.exchange_instrument_type == ExchangeInstrumentType::HtxSpot
            &&& b.symbol@ == htx_channel_symbol(field_str(j, "ch"@))
            &&& from_millis_or_epoch(b.timestamp, millis_or_zero(spec_at(j, "ts"@)))
            &&& b.bid_price@ == htx_number_text(spec_at(tick, "bid"@))
            &&& b.bid_size@ == htx_number_text(spec_at(tick, "bidSize"@))
            &&& b.ask_price@ == htx_number_text(spec_at(tick, "ask"@))
            &&& b.ask_size@ == htx_number_text(spec_at(tick, "askSize"@))
        })
    }

    pub fn create_subscribe_top_of_book_websocket_subscription_data(&self, websocket_text: &WebSocketText) -> (r: Response)
        requires
            htx_book_message_ok(*websocket_text),
        ensures
            self.top_of_book_data(*websocket_text, r),
    {
        let json = websocket_text.json_payload.as_ref().unwrap();
        let null = JsonValue::Null;
        let ch = json.field_str("ch");
        let tick = member_or(json, "tick", &null);
        let book = TopOfBook {
            exchange_instrument_type: ExchangeInstrumentType::HtxSpot,
            symbol: channel_symbol_exec(ch.as_str()),
            timestamp: timestamp_from_millis_or_epoch(millis_exec(member_or(json, "ts", &null))),
            bid_price: HtxSpotClient::json_number_to_string(member_or(tick, "bid", &null)),
            bid_size: HtxSpotClient::json_number_to_string(member_or(tick, "bidSize", &null)),
            ask_price: HtxSpotClient::json_number_to_string(member_or(tick, "ask", &null)),
            ask_size: HtxSpotClient::json_number_to_string(member_or(tick, "askSize", &null)),
        };
        let mut data: Vec<TopOfBook> = Vec::new();
        data.push(book);
        Response::TopOfBookSubscription(TopOfBookSubscriptionData { data })
    }

    /// One trade per item of the tick's data, all of the channel's symbol.
    pub open spec fn trade_data(&self, t: WebSocketText, r: Response) -> bool {
        let j = t.json_payload->0;
        let items = items_of(spec_at(spec_at(j, "tick"@), "data"@));
        r matches Response::TradeSubscription(s) && s.data@.len() == items.len() && forall|i: int|
            0 <= i < items.len() ==> htx_trade_matches(
                #[trigger] s.data@[i],
                items[i],
                htx_channel_symbol(field_str(j, "ch"@)),
                ExchangeInstrumentType::HtxSpot,
            )
    }

    pub fn create_subscribe_trade_websocket_subscription_data(&self, websocket_text: &WebSocketText) -> (r: Response)
        requires
            htx_trade_message_ok(*websocket_text),
        ensures
            self.trade_data(*websocket_text, r),
    {
        let json = websocket_text.json_payload.as_ref().unwrap();
        let null = JsonValue::Null;
        let ch = json.field_str("ch");
        let symbol = channel_symbol_exec(ch.as_str());
        let empty: Vec<JsonValue> = Vec::new();
        let items = items_exec(member_or(member_or(json, "tick", &null), "data", &null), &empty);
        let mut data: Vec<Trade> = Vec::new();
        let mut i: usize = 0;
        while i < items.len()
            invariant
                items@ == items_of(spec_at(spec_at(*json, "tick"@), "data"@)),
                null == JsonValue::Null,
                symbol@ == htx_channel_symbol(field_str(*json, "ch"@)),
                i <= items@.len(),
                data@.len() == i,
                forall|k: int| 0 <= k < i ==> htx_trade_matches(#[trigger] data@[k], items@[k], symbol@, ExchangeInstrumentType::HtxSpot),
            decreases items.len() - i,
        {
            let d = &items[i];
            let direction = match d.get("direction") {
                Some(v) => match v.as_str() {
                    Some(s) => string_from(s),
                    None => String::new(),
                },
                None => String::new(),
            };
            proof {
                reveal_strlit("buy");
                reveal_strlit("sell");
            }
            let side = if str_eq(direction.as_str(), "buy") {
                TakerSide::Buy
            } else if str_eq(direction.as_str(), "sell") {
                TakerSide::Sell
            } else {
                TakerSide::Unknown
            };
            assert(direction@ == htx_direction(spec_at(*d, "direction"@)));
            data.push(Trade {
                exchange_instrument_type: ExchangeInstrumentType::HtxSpot,
                symbol: string_from(symbol.as_str()),
                timestamp: timestamp_from_millis_or_epoch(millis_exec(member_or(d, "ts", &null))),
                price: HtxSpotClient::json_number_to_string(member_or(d, "price", &null)),
                size: HtxSpotClient::json_number_to_string(member_or(d, "amount", &null)),
                side,
            });
            i = i + 1;
        }
        Response::TradeSubscription(TradeSubscriptionData { data })
    }

    pub open spec fn order_data(&self, t: WebSocketText, r: Response) -> bool {
        r matches Response::OrderSubscription(s) && s.data@.len() == 1 && htx_ws_order_matches(
            s.data@[0],
            t.json_payload->0,
        )
    }

    pub fn create_subscribe_order_websocket_subscription_data(&self, websocket_text: &WebSocketText) -> (r: Response)
        requires
            websocket_text.json_payload is Some,
        ensures
            self.order_data(*websocket_text, r),
    {
        let json = websocket_text.json_payload.as_ref().unwrap();
        let null = JsonValue::Null;
        let d = member_or(json, "data", &null);
        let order_type = d.field_str("type");
        let status = d.field_str("orderStatus");
        let order = Order {
            exchange_instrument_type: ExchangeInstrumentType::HtxSpot,
            symbol: d.field_str("symbol"),
            order_id: id_text_exec(member_or(d, "orderId", &null)),
            client_order_id: d.field_str("clientOrderId"),
            order_type: self.convert_string_to_order_type(order_type.as_str()),
            side: self.convert_string_to_order_side(order_type.as_str()),
            price: d.field_str("orderPrice"),
            quantity: d.field_str("orderSize"),
            leverage: String::new(),
            remaining_quantity: String::new(),
            cumulative_filled_quantity: d.field_str("filledAmount"),
            cumulative_filled_quote_quantity: d.field_str("filledCashAmount"),
            average_filled_price: String::new(),
            status: self.convert_string_to_order_status(status.as_str()),
            fill_price: d.field_str("tradePrice"),
            fill_quantity: d.field_str("tradeVolume"),
            fill_quote_quantity: String::new(),
            fill_is_maker: is_maker_exec(member_or(d, "aggressor", &null)),
        };
        let mut data: Vec<Order> = Vec::new();
        data.push(order);
        Response::OrderSubscription(OrderSubscriptionData { data })
    }

    pub open spec fn fill_data(&self, t: WebSocketText, r: Response) -> bool {
        r matches Response::FillSubscription(s) && s.data@.len() == 1 && htx_ws_fill_matches(
            s.data@[0],
            t.json_payload->0,
        )
    }

    pub fn create_subscribe_fill_websocket_subscription_data(&self, websocket_text: &WebSocketText) -> (r: Response)
        requires
            websocket_text.json_payload is Some,
        ensures
            self.fill_data(*websocket_text, r),
    {
        let json = websocket_text.json_payload.as_ref().unwrap();
        let null = JsonValue::Null;
        let d = member_or(json, "data", &null);
        let order_side = match d.get("orderSide") {
            Some(v) => match v.as_str() {
                Some(s) => string_from(s),
                None => String::new(),
            },
            None => String::new(),
        };
        proof {
            reveal_strlit("buy");
            reveal_strlit("sell");
        }
        assert(order_side@ == htx_direction(spec_at(*d, "orderSide"@)));
        let side = if str_eq(order_side.as_str(), "buy") {
            OrderSide::Buy
        } else if str_eq(order_side.as_str(), "sell") {
            OrderSide::Sell
        } else {
            OrderSide::Unknown
        };
        let fill = Fill {
            exchange_instrument_type: ExchangeInstrumentType::HtxSpot,
            symbol: d.field_str("symbol"),
            order_id: id_text_exec(member_or(d, "orderId", &null)),
            client_order_id: d.field_str("clientOrderId"),
            side,
            price: d.field_str("tradePrice"),
            quantity: d.field_str("tradeVolume"),
            quote_quantity: String::new(),
            is_maker: is_maker_exec(member_or(d, "aggressor", &null)),
        };
        let mut data: Vec<Fill> = Vec::new();
        data.push(fill);
        Response::FillSubscription(FillSubscriptionData { data })
    }

    /// The message with its "code" (a string, or an integer written out) and its
    /// "message" (or, where it has none, its "err-msg"), where it is JSON.
    pub open spec fn websocket_error_response(&self, t: WebSocketText, r: Response) -> bool {
        r matches Response::WebSocketErrorResponse(e) && e.url == t.url && e.text == t.text && e.json_payload
            == t.json_payload && e.payload_summary == t.payload_summary && match t.json_payload {
            Some(j) => {
                &&& opt_view(e.error_code) == match spec_get(j, "code"@) {
                    Some(c) => match spec_as_str(c) {
                        Some(s) => Some(s),
                        None => match spec_as_i64(c) {
                            Some(n) => Some(int_text(n as int)),
                            None => None,
                        },
                    },
                    None => None,
                }
                &&& opt_view(e.error_message) == match spec_get(j, "message"@) {
                    Some(m) => spec_as_str(m),
                    None => match spec_get(j, "err-msg"@) {
                        Some(m) => spec_as_str(m),
                        None => None,
                    },
                }
            },
            None => e.error_code == t.error_code && e.error_message == t.error_message,
        }
    }

    pub fn create_websocket_error_response(&self, websocket_text: WebSocketText) -> (r: Response)
        ensures
            self.websocket_error_response(websocket_text, r),
    {
        let mut t = websocket_text;
        match &t.json_payload {
            Some(j) => {
                let code = match j.get("code") {
                    Some(c) => match c.as_str() {
                        Some(s) => Some(string_from(s)),
                        None => match c.as_i64() {
                            Some(n) => Some(i64_to_string(n)),
                            None => None,
                        },
                    },
                    None => None,
                };
                let message_value = match j.get("message") {
                    Some(m) => Some(m),
                    None => j.get("err-msg"),
                };
                let message = match message_value {
                    Some(m) => match m.as_str() {
                        Some(s) => Some(string_from(s)),
                        None => None,
                    },
                    None => None,
                };
                t.error_code = code;
                t.error_message = message;
            },
            None => {},
        }
        Response::WebSocketErrorResponse(t)
    }

    /// What a summarized message comes to: data of its channel's kind (None where it lacks
    /// what the conversion reads, or is of no known kind), the answer to a subscription or
    /// to the authentication, or an error.
    pub open spec fn handled(&self, t: WebSocketText, r: Option<Response>) -> bool {
        if htx_is_data(t) {
            if summary_ends_with(t, "ch"@, ".bbo"@) {
                if htx_book_message_ok(t) { r matches Some(x) && self.top_of_book_data(t, x) } else { r is None }
            } else if summary_ends_with(t, "ch"@, ".trade.detail"@) {
                if htx_trade_message_ok(t) { r matches Some(x) && self.trade_data(t, x) } else { r is None }
            } else if summary_starts_with(t, "ch"@, "orders#"@) {
                if t.json_payload is Some { r matches Some(x) && self.order_data(t, x) } else { r is None }
            } else if summary_starts_with(t, "ch"@, "trade.clearing#"@) {
                if t.json_payload is Some { r matches Some(x) && self.fill_data(t, x) } else { r is None }
            } else {
                r is None
            }
        } else if htx_is_market_subscribed(t) || htx_is_account_subscribed(t) {
            r matches Some(Response::Subscribe(s)) && s.id is None && s.symbols@.len() == 0 && s.kind is None
        } else if htx_is_authenticated(t) {
            r == Some(Response::Authenticate(AuthenticateResponse { id: None }))
        } else {
            r matches Some(x) && self.websocket_error_response(t, x)
        }
    }

    /// A text message as it was read, summarized and then classified.
    pub fn handle_websocket_text(&self, websocket_text: WebSocketText) -> (r: Option<Response>)
        ensures
            exists|t: WebSocketText| #[trigger] self.summarized(websocket_text, t) && self.handled(t, r),
    {
        let mut websocket_text = websocket_text;
        self.populate_websocket_text_payload_summary(&mut websocket_text);
        let has_ch = websocket_text.payload_summary.get("ch").is_some();
        let has_status = websocket_text.payload_summary.get("status").is_some();
        let has_subbed = websocket_text.payload_summary.get("subbed").is_some();
        let has_action = websocket_text.payload_summary.get("action").is_some();
        let is_push = websocket_text.summary_is("action", "push");
        let ch = websocket_text.summary_or_empty("ch");
        if (has_ch && !has_status && !has_subbed && !has_action) || is_push {
            if has_ch && ends_with_text(ch.as_str(), ".bbo") {
                if book_message_ok(&websocket_text) {
                    Some(self.create_subscribe_top_of_book_websocket_subscription_data(&websocket_text))
                } else {
                    None
                }
            } else if has_ch && ends_with_text(ch.as_str(), ".trade.detail") {
                if trade_message_ok(&websocket_text) {
                    Some(self.create_subscribe_trade_websocket_subscription_data(&websocket_text))
                } else {
                    None
                }
            } else if has_ch && starts_with(ch.as_str(), "orders#") {
                if websocket_text.json_payload.is_some() {
                    Some(self.create_subscribe_order_websocket_subscription_data(&websocket_text))
                } else {
                    None
                }
            } else if has_ch && starts_with(ch.as_str(), "trade.clearing#") {
                if websocket_text.json_payload.is_some() {
                    Some(self.create_subscribe_fill_websocket_subscription_data(&websocket_text))
                } else {
                    None
                }
            } else {
                None
            }
        } else {
            let market = websocket_text.summary_is("status", "ok") && has_subbed;
            let code_ok = websocket_text.summary_is("code", "200");
            let authenticated = websocket_text.summary_is("action", "req") && websocket_text.summary_is("ch", "auth")
                && code_ok;
            let account = websocket_text.summary_is("action", "sub") && code_ok;
            if market || account {
                Some(Response::Subscribe(SubscribeResponse { id: None, symbols: Vec::new(), kind: None }))
            } else if authenticated {
                Some(Response::Authenticate(AuthenticateResponse { id: None }))
            } else {
                let ghost t = websocket_text;
                let e = self.create_websocket_error_response(websocket_text);
                assert(self.handled(t, Some(e)));
                Some(e)
            }
        }
    }
}

pub(crate) fn channel_symbol_exec(ch: &str) -> (r: String)
    ensures
        r@ == htx_channel_symbol(ch@),
{
    let (_, rest) = crate::text::split_first_char(ch, '.');
    let (symbol, _) = crate::text::split_first_char(rest.as_str(), '.');
    symbol
}

fn book_message_ok(t: &WebSocketText) -> (r: bool)
    ensures
        r == htx_book_message_ok(*t),
{
    match &t.json_payload {
        Some(j) => match j.at("ch") {
            Some(c) => c.as_str().is_some(),
            None => false,
        },
        None => false,
    }
}

fn trade_message_ok(t: &WebSocketText) -> (r: bool)
    ensures
        r == htx_trade_message_ok(*t),
{
    match &t.json_payload {
        Some(j) => {
            let null = JsonValue::Null;
            let ch_ok = match j.at("ch") {
                Some(c) => c.as_str().is_some(),
                None => false,
            };
            ch_ok && member_or(member_or(j, "tick", &null), "data", &null).as_array().is_some()
        },
        None => false,
    }
}

} // verus!
