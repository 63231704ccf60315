//! HTX USDT-margined swaps websocket API: the signed authentication, the subscriptions,
//! the answers to the exchange's pings, and the messages the streams send.

use vstd::prelude::*;
use vstd::utf8::encode_utf8;
use crate::compression::{gunzip_text, gunzip_to_string};
use crate::exchange_client::common::{
    AuthenticateResponse, FillSubscriptionData, OrderSubscriptionData, Response, SubscribeFillRequest,
    SubscribeOrderRequest, SubscribeResponse, SubscribeTopOfBookRequest, SubscribeTradeRequest,
    TopOfBookSubscriptionData, TradeSubscriptionData,
};
use crate::exchanges::htx_spot::common::{htx_encoded, htx_number_text, member_or, HtxSpotClient};
use crate::exchanges::htx_spot::rest::{htx_channel_symbol, items_exec, items_of};
use crate::exchanges::htx_spot::websocket::{
    channel_symbol_exec, htx_direction, htx_market_pong, market_pong_text, htx_market_sub_text, htx_trade_matches, millis_exec,
    millis_or_zero, summarized_key, summary_ends_with, summary_of, write_market_subs,
};
use crate::exchanges::htx_usdt_margined_futures::common::{htx_futures_order_matches, HtxUsdtMarginedFuturesClient};
use crate::json::{array_at, field_str, json_text, quoted, spec_as_i64, spec_as_str, spec_at, spec_get, write_quoted, JsonValue};
use crate::networking::http::opt_view;
use crate::networking::websocket::WebSocketText;
use crate::signing::{base64_encode, base64_standard, hmac_sha256, hmac_sha256_tag, parse_url_host, parse_url_path, url_host, url_path};
use crate::text::{ends_with_text, i64_to_string, int_text, push_str, str_eq, string_from};
use crate::time::{format_utc_seconds, from_millis_or_epoch, timestamp_from_millis_or_epoch, utc_now, utc_seconds_text};
use crate::types::{
    ExchangeInstrumentType, ExchangeWebSocketEndpoint, Fill, Order, OrderSide, TakerSide, TopOfBook, Trade,
    WebSocketEndpoint,
};

verus! {

/// The URL the authentication signs for: the account-data URL where it parses, else HTX's.
pub open spec fn futures_auth_url(url: Seq<char>) -> Seq<char> {
    if url_path(url) is Some { url } else { "wss://api.hbdm.com/linear-swap-notification"@ }
}

pub open spec fn futures_auth_host(url: Seq<char>) -> Seq<char> {
    match url_host(futures_auth_url(url)) {
        Some(h) => h,
        None => "api.hbdm.com"@,
    }
}

pub open spec fn futures_auth_path(url: Seq<char>) -> Seq<char> {
    match url_path(futures_auth_url(url)) {
        Some(p) => p,
        None => Seq::empty(),
    }
}

pub open spec fn futures_auth_query(api_key: Seq<char>, timestamp: Seq<char>) -> Seq<char> {
    "AccessKeyId="@ + api_key + "&SignatureMethod=HmacSHA256&SignatureVersion=2&Timestamp="@ + htx_encoded(
        encode_utf8(timestamp),
    )
}

/// The Base64 HMAC-SHA256 tag of the GET of the URL's host and path with that query.
pub open spec fn futures_auth_signature(secret: Seq<char>, api_key: Seq<char>, url: Seq<char>, timestamp: Seq<char>) -> Seq<char> {
    base64_standard(
        hmac_sha256_tag(
            encode_utf8(secret),
            encode_utf8(
                "GET\n"@ + futures_auth_host(url) + "\n"@ + futures_auth_path(url) + "\n"@ + futures_auth_query(
                    api_key,
                    timestamp,
                ),
            ),
        ),
    )
}

pub open spec fn futures_auth_text(api_key: Seq<char>, signature: Seq<char>, timestamp: Seq<char>) -> Seq<char> {
    "{\"AccessKeyId\":"@ + quoted(api_key) + ",\"Signature\":"@ + quoted(signature)
        + ",\"SignatureMethod\":\"HmacSHA256\",\"SignatureVersion\":\"2\",\"Timestamp\":"@ + quoted(timestamp)
        + ",\"op\":\"auth\",\"type\":\"api\"}"@
}

/// One account subscription: the topic of one contract.
pub open spec fn futures_sub_line(code: Seq<char>, topic: Seq<char>) -> Seq<char> {
    "{\"contract_code\":"@ + quoted(code) + ",\"op\":\"sub\",\"topic\":"@ + quoted(topic) + "}"@
}

pub open spec fn futures_sub_lines(symbols: Seq<String>, topic: Seq<char>) -> Seq<char>
    decreases symbols.len(),
{
    if symbols.len() == 0 {
        Seq::empty()
    } else if symbols.len() == 1 {
        futures_sub_line(symbols[0]@, topic)
    } else {
        futures_sub_lines(symbols.drop_last(), topic) + "\n"@ + futures_sub_line(symbols.last()@, topic)
    }
}

/// The topic's subscriptions of the contracts, one per line; that of every contract
/// ("*") where none is named.
pub open spec fn futures_sub_text(symbols: Seq<String>, topic: Seq<char>) -> Seq<char> {
    if symbols.len() == 0 { futures_sub_line("*"@, topic) } else { futures_sub_lines(symbols, topic) }
}

/// The answer to an account ping (`"op":"ping"`): the same "ts", or null.
pub open spec fn futures_account_pong(json: Option<JsonValue>) -> Option<Seq<char>> {
    match json {
        Some(j) => if spec_get(j, "op"@) matches Some(a) && spec_as_str(a) == Some("ping"@) {
            let ts = match spec_get(j, "ts"@) {
                Some(t) => t,
                None => JsonValue::Null,
            };
            Some("{\"op\":\"pong\",\"ts\":"@ + json_text(ts) + "}"@)
        } else {
            None
        },
        None => None,
    }
}

pub open spec fn futures_is_data(t: WebSocketText) -> bool {
    (t.summary("ch"@) is Some && t.summary("status"@) is None && t.summary("subbed"@) is None && t.summary("op"@)
        is None) || t.summary("op"@) == Some("notify"@)
}

pub open spec fn futures_is_authenticated(t: WebSocketText) -> bool {
    t.summary("op"@) == Some("auth"@) && t.summary("err-code"@) == Some("0"@)
}

pub open spec fn futures_is_subscribed(t: WebSocketText) -> bool {
    (t.summary("status"@) == Some("ok"@) && t.summary("subbed"@) is Some) || (t.summary("op"@) == Some("sub"@)
        && t.summary("err-code"@) == Some("0"@))
}

/// A number or string at a place of an array; empty where there is none.
pub open spec fn number_text_at(v: JsonValue, i: int) -> Seq<char> {
    match array_at(v, i) {
        Some(x) => htx_number_text(x),
        None => htx_number_text(JsonValue::Null),
    }
}

/// A client order id: a string, or an integer written out; else empty.
pub open spec fn futures_client_id(v: JsonValue) -> Seq<char> {
    match spec_as_str(v) {
        Some(s) => s,
        None => match spec_as_i64(v) {
            Some(n) => int_text(n as int),
            None => Seq::empty(),
        },
    }
}

pub open spec fn futures_fill_matches(f: Fill, v: JsonValue) -> bool {
    let direction = field_str(v, "direction"@);
    &&& f.exchange_instrument_type == ExchangeInstrumentType::HtxUsdtMarginedFutures
    &&& f.symbol@ == field_str(v, "contract_code"@)
    &&& f.order_id@ == field_str(v, "order_id"@)
    &&& f.client_order_id@ == futures_client_id(spec_at(v, "client_order_id"@))
    &&& f.side == if direction == "buy"@ {
        OrderSide::Buy
    } else if direction == "sell"@ {
        OrderSide::Sell
    } else {
        OrderSide::Unknown
    }
    &&& f.price@ == htx_number_text(spec_at(v, "trade_price"@))
    &&& f.quantity@ == htx_number_text(spec_at(v, "trade_volume"@))
    &&& f.quote_quantity@ == htx_number_text(spec_at(v, "trade_turnover"@))
    &&& f.is_maker == (spec_get(v, "role"@) matches Some(r) && spec_as_str(r) == Some("maker"@))
}

pub open spec fn futures_book_message_ok(t: WebSocketText) -> bool {
    t.json_payload matches Some(j) && spec_as_str(spec_at(j, "ch"@)) is Some
}

pub open spec fn futures_trade_message_ok(t: WebSocketText) -> bool {
    t.json_payload matches Some(j) && spec_as_str(spec_at(j, "ch"@)) is Some && crate::json::spec_as_array(
        spec_at(spec_at(j, "tick"@), "data"@),
    ) is Some
}

pub open spec fn futures_order_message_ok(t: WebSocketText) -> bool {
    t.json_payload matches Some(j) && spec_get(j, "data"@) is Some
}

fn write_sub_line(out: &mut String, code: &str, topic: &str)
    ensures
        final(out)@ == old(out)@ + futures_sub_line(code@, topic@),
{
    push_str(out, "{\"contract_code\":");
    write_quoted(code, out);
    push_str(out, ",\"op\":\"sub\",\"topic\":");
    write_quoted(topic, out);
    push_str(out, "}");
}

fn sub_text(symbols: &Vec<String>, topic: &str) -> (r: String)
    ensures
        r@ == futures_sub_text(symbols@, topic@),
{
    let mut out = String::new();
    if symbols.len() == 0 {
        write_sub_line(&mut out, "*", topic);
        proof {
            reveal_strlit("*");
        }
        return out;
    }
    let mut i: usize = 0;
    while i < symbols.len()
        invariant
            i <= symbols@.len(),
            out@ == futures_sub_lines(symbols@.take(i as int), topic@),
        decreases symbols.len() - i,
    {
        assert(symbols@.take(i + 1).drop_last() =~= symbols@.take(i as int));
        if i > 0 {
            push_str(&mut out, "\n");
        }
        write_sub_line(&mut out, symbols[i].as_str(), topic);
        i = i + 1;
    }
    assert(symbols@.take(symbols@.len() as int) =~= symbols@);
    out
}

fn number_text_at_exec(v: &JsonValue, i: usize) -> (r: String)
    ensures
        r@ == number_text_at(*v, i as int),
{
    let null = JsonValue::Null;
    match v.at_index(i) {
        Some(x) => HtxSpotClient::json_number_to_string(x),
        None => HtxSpotClient::json_number_to_string(&null),
    }
}

fn futures_client_id_exec(v: &JsonValue) -> (r: String)
    ensures
        r@ == futures_client_id(*v),
{
    match v.as_str() {
        Some(s) => string_from(s),
        None => match v.as_i64() {
            Some(n) => i64_to_string(n),
            None => String::new(),
        },
    }
}

impl HtxUsdtMarginedFuturesClient {
    pub fn websocket_api_url(&self, endpoint: WebSocketEndpoint) -> (r: String)
        requires
            endpoint == WebSocketEndpoint::HtxUsdtMarginedFutures(ExchangeWebSocketEndpoint::MarketData)
                || endpoint == WebSocketEndpoint::HtxUsdtMarginedFutures(ExchangeWebSocketEndpoint::AccountData),
        ensures
            endpoint == WebSocketEndpoint::HtxUsdtMarginedFutures(ExchangeWebSocketEndpoint::MarketData) ==> r@
                == self.websocket_market_data_api_url@,
            endpoint == WebSocketEndpoint::HtxUsdtMarginedFutures(ExchangeWebSocketEndpoint::AccountData) ==> r@
                == self.websocket_account_data_api_url@,
    {
        if endpoint == WebSocketEndpoint::HtxUsdtMarginedFutures(ExchangeWebSocketEndpoint::MarketData) {
            self.websocket_market_data_api_url.clone()
        } else {
            self.websocket_account_data_api_url.clone()
        }
    }

    /// The authentication request signed at the given time (seconds since the epoch);
    /// empty without a credential.
    pub fn create_authenticate_websocket_request_at(&self, seconds: i64) -> (r: String)
        ensures
            match self.credential {
                Some(c) => r@ == futures_auth_text(
                    c.api_key@,
                    futures_auth_signature(
                        c.api_secret@,
                        c.api_key@,
                        self.websocket_account_data_api_url@,
                        utc_seconds_text(seconds),
                    ),
                    utc_seconds_text(seconds),
                ),
                None => r@.len() == 0,
            },
    {
        let c = match &self.credential {
            Some(c) => c,
            None => return String::new(),
        };
        let timestamp = format_utc_seconds(seconds);
        let encoded_timestamp = HtxSpotClient::percent_encode_htx(timestamp.as_str());
        let mut query = string_from("AccessKeyId=");
        push_str(&mut query, c.api_key.as_str());
        push_str(&mut query, "&SignatureMethod=HmacSHA256&SignatureVersion=2&Timestamp=");
        push_str(&mut query, encoded_timestamp.as_str());
        let url = match parse_url_path(self.websocket_account_data_api_url.as_str()) {
            Some(_) => string_from(self.websocket_account_data_api_url.as_str()),
            None => string_from("wss://api.hbdm.com/linear-swap-notification"),
        };
        let host = match parse_url_host(url.as_str()) {
            Some(h) => h,
            None => string_from("api.hbdm.com"),
        };
        let path = match parse_url_path(url.as_str()) {
            Some(p) => p,
            None => String::new(),
        };
        let mut prehash = string_from("GET\n");
        push_str(&mut prehash, host.as_str());
        push_str(&mut prehash, "\n");
        push_str(&mut prehash, path.as_str());
        push_str(&mut prehash, "\n");
        push_str(&mut prehash, query.as_str());
        let tag = hmac_sha256(c.api_secret.as_str().as_bytes(), prehash.as_str().as_bytes());
        let signature = base64_encode(tag.as_slice());
        let mut s = string_from("{\"AccessKeyId\":");
        write_quoted(c.api_key.as_str(), &mut s);
        push_str(&mut s, ",\"Signature\":");
        write_quoted(signature.as_str(), &mut s);
        push_str(&mut s, ",\"SignatureMethod\":\"HmacSHA256\",\"SignatureVersion\":\"2\",\"Timestamp\":");
        write_quoted(timestamp.as_str(), &mut s);
        push_str(&mut s, ",\"op\":\"auth\",\"type\":\"api\"}");
        s
    }

    /// The authentication request, signed at the current time; empty without a credential.
    pub fn create_authenticate_websocket_request(&self) -> (r: String)
        ensures
            match self.credential {
                Some(c) => exists|seconds: i64| r@ == #[trigger] futures_auth_text(
                    c.api_key@,
                    futures_auth_signature(
                        c.api_secret@,
                        c.api_key@,
                        self.websocket_account_data_api_url@,
                        utc_seconds_text(seconds),
                    ),
                    utc_seconds_text(seconds),
                ),
                None => r@.len() == 0,
            },
    {
        let now = utc_now();
        self.create_authenticate_websocket_request_at(now.seconds)
    }

    /// No heartbeat text: the connection is kept alive with ping frames, and the
    /// exchange's own pings are answered.
    pub fn create_heartbeat_websocket_request(&self) -> (r: String)
        ensures
            r@.len() == 0,
    {
        String::new()
    }

    pub fn create_subscribe_top_of_book_websocket_request(&self, request: &SubscribeTopOfBookRequest) -> (r: String)
        ensures
            r@ == htx_market_sub_text(request.symbols@, ".bbo"@, "bbo-"@),
    {
        let mut s = String::new();
        write_market_subs(&mut s, &request.symbols, ".bbo", "bbo-");
        s
    }

    pub fn create_subscribe_trade_websocket_request(&self, request: &SubscribeTradeRequest) -> (r: String)
        ensures
            r@ == htx_market_sub_text(request.symbols@, ".trade.detail"@, "trade-"@),
    {
        let mut s = String::new();
        write_market_subs(&mut s, &request.symbols, ".trade.detail", "trade-");
        s
    }

    pub fn create_subscribe_order_websocket_request(&self, request: &SubscribeOrderRequest) -> (r: String)
        ensures
            r@ == futures_sub_text(request.symbols@, "orders"@),
    {
        sub_text(&request.symbols, "orders")
    }

    pub fn create_subscribe_fill_websocket_request(&self, request: &SubscribeFillRequest) -> (r: String)
        ensures
            r@ == futures_sub_text(request.symbols@, "trade"@),
    {
        sub_text(&request.symbols, "trade")
    }

    /// The text of a binary message: its gzip data decompressed; none where it is not
    /// gzip of UTF-8 text.
    pub fn convert_binary_websocket_message_to_text(&self, bytes: &[u8]) -> (r: Option<String>)
        ensures
            opt_view(r) == gunzip_text(bytes@),
    {
        gunzip_to_string(bytes)
    }

    /// The answer to a ping of the market stream (a binary message): `{"pong":ts}`.
    pub fn market_pong(&self, json: &Option<JsonValue>) -> (r: Option<String>)
        ensures
            opt_view(r) == htx_market_pong(*json),
    {
        market_pong_text(json)
    }

    /// The answer to a ping of the account stream (a text message).
    pub fn account_pong(&self, json: &Option<JsonValue>) -> (r: Option<String>)
        ensures
            opt_view(r) == futures_account_pong(*json),
    {
        let j = match json {
            Some(j) => j,
            None => return None,
        };
        let is_ping = match j.get("op") {
            Some(a) => match a.as_str() {
                Some(s) => str_eq(s, "ping"),
                None => false,
            },
            None => false,
        };
        if !is_ping {
            return None;
        }
        let mut s = string_from("{\"op\":\"pong\",\"ts\":");
        let null = JsonValue::Null;
        let ts: &JsonValue = match j.get("ts") {
            Some(t) => t,
            None => &null,
        };
        ts.write_text(&mut s);
        push_str(&mut s, "}");
        Some(s)
    }

    /// The message with its "status", "subbed", "ch", "op", "topic", "ping", "pong" and
    /// "err-code" where it has them: strings as they are, other values as JSON text.
    pub open spec fn summarized(&self, o: WebSocketText, n: WebSocketText) -> bool {
        &&& n.url == o.url
        &&& n.text == o.text
        &&& n.json_payload == o.json_payload
        &&& n.error_code == o.error_code
        &&& n.error_message == o.error_message
        &&& match o.json_payload {
            Some(j) => {
                &&& summarized_key(o, n, j, "status"@)
                &&& summarized_key(o, n, j, "subbed"@)
                &&& summarized_key(o, n, j, "ch"@)
                &&& summarized_key(o, n, j, "op"@)
                &&& summarized_key(o, n, j, "topic"@)
                &&& summarized_key(o, n, j, "ping"@)
                &&& summarized_key(o, n, j, "pong"@)
                &&& summarized_key(o, n, j, "err-code"@)
            },
            None => n.payload_summary == o.payload_summary,
        }
    }

    pub fn populate_websocket_text_payload_summary(&self, websocket_text: &mut WebSocketText)
        ensures
            self.summarized(*old(websocket_text), *final(websocket_text)),
    {
        proof {
            reveal_strlit("status");
            reveal_strlit("subbed");
            reveal_strlit("ch");
            reveal_strlit("op");
            reveal_strlit("topic");
            reveal_strlit("ping");
            reveal_strlit("pong");
            reveal_strlit("err-code");
            assert("status"@.len() == 6);
            assert("subbed"@.len() == 6);
            assert("ch"@.len() == 2);
            assert("op"@.len() == 2);
            assert("topic"@.len() == 5);
            assert("ping"@.len() == 4);
            assert("pong"@.len() == 4);
            assert("err-code"@.len() == 8);
            assert("status"@[1] != "subbed"@[1]);
            assert("ch"@[0] != "op"@[0]);
            assert("ping"@[1] != "pong"@[1]);
        }
        let keys = match &websocket_text.json_payload {
            Some(j) => (
                summary_of(j, "status"),
                summary_of(j, "subbed"),
                summary_of(j, "ch"),
                summary_of(j, "op"),
                summary_of(j, "topic"),
                summary_of(j, "ping"),
                summary_of(j, "pong"),
                summary_of(j, "err-code"),
            ),
            None => (None, None, None, None, None, None, None, None),
        };
        let (status, subbed, ch, op, topic, ping, pong, err_code) = keys;
        match status {
            Some(s) => websocket_text.payload_summary.insert(string_from("status"), s),
            None => {},
        }
        match subbed {
            Some(s) => websocket_text.payload_summary.insert(string_from("subbed"), s),
            None => {},
        }
        match ch {
            Some(s) => websocket_text.payload_summary.insert(string_from("ch"), s),
            None => {},
        }
        match op {
            Some(s) => websocket_text.payload_summary.insert(string_from("op"), s),
            None => {},
        }
        match topic {
            Some(s) => websocket_text.payload_summary.insert(string_from("topic"), s),
            None => {},
        }
        match ping {
            Some(s) => websocket_text.payload_summary.insert(string_from("ping"), s),
            None => {},
        }
        match pong {
            Some(s) => websocket_text.payload_summary.insert(string_from("pong"), s),
            None => {},
        }
        match err_code {
            Some(s) => websocket_text.payload_summary.insert(string_from("err-code"), s),
            None => {},
        }
    }
}

impl HtxUsdtMarginedFuturesClient {
    /// The best bid and offer of a book update, at the message's time.
    pub open spec fn top_of_book_data(&self, t: WebSocketText, r: Response) -> bool {
        let j = t.json_payload->0;
        let tick = spec_at(j, "tick"@);
        r matches Response::TopOfBookSubscription(s) && s.data@.len() == 1 && ({
            let b = s.data@[0];
            &&& b.exchange_instrument_type == ExchangeInstrumentType::HtxUsdtMarginedFutures
            &&& b.symbol@ == htx_channel_symbol(field_str(j, "ch"@))
            &&& from_millis_or_epoch(b.timestamp, millis_or_zero(spec_at(j, "ts"@)))
            &&& b.bid_price@ == number_text_at(spec_at(tick, "bid"@), 0)
            &&& b.bid_size@ == number_text_at(spec_at(tick, "bid"@), 1)
            &&& b.ask_price@ == number_text_at(spec_at(tick, "ask"@), 0)
            &&& b.ask_size@ == number_text_at(spec_at(tick, "ask"@), 1)
        })
    }

    pub fn create_subscribe_top_of_book_websocket_subscription_data(&self, websocket_text: &WebSocketText) -> (r: Response)
        requires
            futures_book_message_ok(*websocket_text),
        ensures
            self.top_of_book_data(*websocket_text, r),
    {
        let json = websocket_text.json_payload.as_ref().unwrap();
        let null = JsonValue::Null;
        let ch = json.field_str("ch");
        let tick = member_or(json, "tick", &null);
        let book = TopOfBook {
            exchange_instrument_type: ExchangeInstrumentType::HtxUsdtMarginedFutures,
            symbol: channel_symbol_exec(ch.as_str()),
            timestamp: timestamp_from_millis_or_epoch(millis_exec(member_or(json, "ts", &null))),
            bid_price: number_text_at_exec(member_or(tick, "bid", &null), 0),
            bid_size: number_text_at_exec(member_or(tick, "bid", &null), 1),
            ask_price: number_text_at_exec(member_or(tick, "ask", &null), 0),
            ask_size: number_text_at_exec(member_or(tick, "ask", &null), 1),
        };
        let mut data: Vec<TopOfBook> = Vec::new();
        data.push(book);
        Response::TopOfBookSubscription(TopOfBookSubscriptionData { data })
    }

    /// One trade per item of the tick's data, all of the channel's contract.
    pub open spec fn trade_data(&self, t: WebSocketText, r: Response) -> bool {
        let j = t.json_payload->0;
        let items = items_of(spec_at(spec_at(j, "tick"@), "data"@));
        r matches Response::TradeSubscription(s) && s.data@.len() == items.len() && forall|i: int|
            0 <= i < items.len() ==> htx_trade_matches(
                #[trigger] s.data@[i],
                items[i],
                htx_channel_symbol(field_str(j, "ch"@)),
                ExchangeInstrumentType::HtxUsdtMarginedFutures,
            )
    }

    pub fn create_subscribe_trade_websocket_subscription_data(&self, websocket_text: &WebSocketText) -> (r: Response)
        requires
            futures_trade_message_ok(*websocket_text),
        ensures
            self.trade_data(*websocket_text, r),
    {
        let json = websocket_text.json_payload.as_ref().unwrap();
        let null = JsonValue::Null;
        let ch = json.field_str("ch");
        let symbol = channel_symbol_exec(ch.as_str());
        let empty: Vec<JsonValue> = Vec::new();
        let items = items_exec(member_or(member_or(json, "tick", &null), "data", &null), &empty);
        let mut data: Vec<Trade> = Vec::new();
        let mut i: usize = 0;
        while i < items.len()
            invariant
                items@ == items_of(spec_at(spec_at(*json, "tick"@), "data"@)),
                null == JsonValue::Null,
                symbol@ == htx_channel_symbol(field_str(*json, "ch"@)),
                i <= items@.len(),
                data@.len() == i,
                forall|k: int| 0 <= k < i ==> htx_trade_matches(
                    #[trigger] data@[k],
                    items@[k],
                    symbol@,
                    ExchangeInstrumentType::HtxUsdtMarginedFutures,
                ),
            decreases items.len() - i,
        {
            let d = &items[i];
            let direction = match d.get("direction") {
                Some(v) => match v.as_str() {
                    Some(s) => string_from(s),
                    None => String::new(),
                },
                None => String::new(),
            };
            proof {
                reveal_strlit("buy");
                reveal_strlit("sell");
            }
            let side = if str_eq(direction.as_str(), "buy") {
                TakerSide::Buy
            } else if str_eq(direction.as_str(), "sell") {
                TakerSide::Sell
            } else {
                TakerSide::Unknown
            };
            assert(direction@ == htx_direction(spec_at(*d, "direction"@)));
            data.push(Trade {
                exchange_instrument_type: ExchangeInstrumentType::HtxUsdtMarginedFutures,
                symbol: string_from(symbol.as_str()),
                timestamp: timestamp_from_millis_or_epoch(millis_exec(member_or(d, "ts", &null))),
                price: HtxSpotClient::json_number_to_string(member_or(d, "price", &null)),
                size: HtxSpotClient::json_number_to_string(member_or(d, "amount", &null)),
                side,
            });
            i = i + 1;
        }
        Response::TradeSubscription(TradeSubscriptionData { data })
    }

    /// The order in the message's data.
    pub open spec fn order_data(&self, t: WebSocketText, r: Response) -> bool {
        r matches Response::OrderSubscription(s) && s.data@.len() == 1 && htx_futures_order_matches(
            s.data@[0],
            spec_at(t.json_payload->0, "data"@),
        )
    }

    pub fn create_subscribe_order_websocket_subscription_data(&self, websocket_text: &WebSocketText) -> (r: Response)
        requires
            futures_order_message_ok(*websocket_text),
        ensures
            self.order_data(*websocket_text, r),
    {
        let json = websocket_text.json_payload.as_ref().unwrap();
        let null = JsonValue::Null;
        let order = self.convert_json_value_to_order(member_or(json, "data", &null));
        let mut data: Vec<Order> = Vec::new();
        data.push(order);
        Response::OrderSubscription(OrderSubscriptionData { data })
    }

    /// One fill per item of the message's data, where it is an array.
    pub open spec fn fill_data(&self, t: WebSocketText, r: Response) -> bool {
        let items = items_of(spec_at(t.json_payload->0, "data"@));
        r matches Response::FillSubscription(s) && s.data@.len() == items.len() && forall|i: int|
            0 <= i < items.len() ==> futures_fill_matches(#[trigger] s.data@[i], items[i])
    }

    pub fn create_subscribe_fill_websocket_subscription_data(&self, websocket_text: &WebSocketText) -> (r: Response)
        requires
            websocket_text.json_payload is Some,
        ensures
            self.fill_data(*websocket_text, r),
    {
        let json = websocket_text.json_payload.as_ref().unwrap();
        let null = JsonValue::Null;
        let empty: Vec<JsonValue> = Vec::new();
        let items = items_exec(member_or(json, "data", &null), &empty);
        let mut data: Vec<Fill> = Vec::new();
        let mut i: usize = 0;
        while i < items.len()
            invariant
                items@ == items_of(spec_at(*json, "data"@)),
                null == JsonValue::Null,
                i <= items@.len(),
                data@.len() == i,
                forall|k: int| 0 <= k < i ==> futures_fill_matches(#[trigger] data@[k], items@[k]),
            decreases items.len() - i,
        {
            let v = &items[i];
            let direction = v.field_str("direction");
            let side = if str_eq(direction.as_str(), "buy") {
                OrderSide::Buy
            } else if str_eq(direction.as_str(), "sell") {
                OrderSide::Sell
            } else {
                OrderSide::Unknown
            };
            let is_maker = match v.get("role") {
                Some(r) => match r.as_str() {
                    Some(s) => str_eq(s, "maker"),
                    None => false,
                },
                None => false,
            };
            data.push(Fill {
                exchange_instrument_type: ExchangeInstrumentType::HtxUsdtMarginedFutures,
                symbol: v.field_str("contract_code"),
                order_id: v.field_str("order_id"),
                client_order_id: futures_client_id_exec(member_or(v, "client_order_id", &null)),
                side,
                price: HtxSpotClient::json_number_to_string(member_or(v, "trade_price", &null)),
                quantity: HtxSpotClient::json_number_to_string(member_or(v, "trade_volume", &null)),
                quote_quantity: HtxSpotClient::json_number_to_string(member_or(v, "trade_turnover", &null)),
                is_maker,
            });
            i = i + 1;
        }
        Response::FillSubscription(FillSubscriptionData { data })
    }

    /// The message with its "err-code" (a string, or an integer written out) and its
    /// "err-msg", where it is JSON.
    pub open spec fn websocket_error_response(&self, t: WebSocketText, r: Response) -> bool {
        r matches Response::WebSocketErrorResponse(e) && e.url == t.url && e.text == t.text && e.json_payload
            == t.json_payload && e.payload_summary == t.payload_summary && match t.json_payload {
            Some(j) => {
                &&& opt_view(e.error_code) == match spec_get(j, "err-code"@) {
                    Some(c) => match spec_as_str(c) {
                        Some(s) => Some(s),
                        None => match spec_as_i64(c) {
                            Some(n) => Some(int_text(n as int)),
                            None => None,
                        },
                    },
                    None => None,
                }
                &&& opt_view(e.error_message) == match spec_get(j, "err-msg"@) {
                    Some(m) => spec_as_str(m),
                    None => None,
                }
            },
            None => e.error_code == t.error_code && e.error_message == t.error_message,
        }
    }

    pub fn create_websocket_error_response(&self, websocket_text: WebSocketText) -> (r: Response)
        ensures
            self.websocket_error_response(websocket_text, r),
    {
        let mut t = websocket_text;
        match &t.json_payload {
            Some(j) => {
                let code = match j.get("err-code") {
                    Some(c) => match c.as_str() {
                        Some(s) => Some(string_from(s)),
                        None => match c.as_i64() {
                            Some(n) => Some(i64_to_string(n)),
                            None => None,
                        },
                    },
                    None => None,
                };
                let message = match j.get("err-msg") {
                    Some(m) => match m.as_str() {
                        Some(s) => Some(string_from(s)),
                        None => None,
                    },
                    None => None,
                };
                t.error_code = code;
                t.error_message = message;
            },
            None => {},
        }
        Response::WebSocketErrorResponse(t)
    }

    /// What a summarized message comes to: data of its kind (None where it lacks what the
    /// conversion reads, or is of no known kind), the answer to a subscription or to the
    /// authentication, or an error.
    pub open spec fn handled(&self, t: WebSocketText, r: Option<Response>) -> bool {
        if futures_is_data(t) {
            if summary_ends_with(t, "ch"@, ".bbo"@) {
                if futures_book_message_ok(t) { r matches Some(x) && self.top_of_book_data(t, x) } else { r is None }
            } else if summary_ends_with(t, "ch"@, ".trade.detail"@) {
                if futures_trade_message_ok(t) { r matches Some(x) && self.trade_data(t, x) } else { r is None }
            } else if t.summary("topic"@) == Some("orders"@) {
                if futures_order_message_ok(t) { r matches Some(x) && self.order_data(t, x) } else { r is None }
            } else if t.summary("topic"@) == Some("trade"@) {
                if t.json_payload is Some { r matches Some(x) && self.fill_data(t, x) } else { r is None }
            } else {
                r is None
            }
        } else if futures_is_subscribed(t) {
            r matches Some(Response::Subscribe(s)) && s.id is None && s.symbols@.len() == 0 && s.kind is None
        } else if futures_is_authenticated(t) {
            r == Some(Response::Authenticate(AuthenticateResponse { id: None }))
        } else {
            r matches Some(x) && self.websocket_error_response(t, x)
        }
    }

    /// A text message as it was read, summarized and then classified.
    pub fn handle_websocket_text(&self, websocket_text: WebSocketText) -> (r: Option<Response>)
        ensures
            exists|t: WebSocketText| #[trigger] self.summarized(websocket_text, t) && self.handled(t, r),
    {
        let mut websocket_text = websocket_text;
        self.populate_websocket_text_payload_summary(&mut websocket_text);
        let has_ch = websocket_text.payload_summary.get("ch").is_some();
        let has_status = websocket_text.payload_summary.get("status").is_some();
        let has_subbed = websocket_text.payload_summary.get("subbed").is_some();
        let has_op = websocket_text.payload_summary.get("op").is_some();
        let is_notify = websocket_text.summary_is("op", "notify");
        let ch = websocket_text.summary_or_empty("ch");
        if (has_ch && !has_status && !has_subbed && !has_op) || is_notify {
            if has_ch && ends_with_text(ch.as_str(), ".bbo") {
                if book_ok(&websocket_text) {
                    Some(self.create_subscribe_top_of_book_websocket_subscription_data(&websocket_text))
                } else {
                    None
                }
            } else if has_ch && ends_with_text(ch.as_str(), ".trade.detail") {
                if trade_ok(&websocket_text) {
                    Some(self.create_subscribe_trade_websocket_subscription_data(&websocket_text))
                } else {
                    None
                }
            } else if websocket_text.summary_is("topic", "orders") {
                let ok = match &websocket_text.json_payload {
                    Some(j) => j.get("data").is_some(),
                    None => false,
                };
                if ok {
                    Some(self.create_subscribe_order_websocket_subscription_data(&websocket_text))
                } else {
                    None
                }
            } else if websocket_text.summary_is("topic", "trade") {
                if websocket_text.json_payload.is_some() {
                    Some(self.create_subscribe_fill_websocket_subscription_data(&websocket_text))
                } else {
                    None
                }
            } else {
                None
            }
        } else {
            let code_ok = websocket_text.summary_is("err-code", "0");
            let subscribed = (websocket_text.summary_is("status", "ok") && has_subbed) || (websocket_text.summary_is(
                "op",
                "sub",
            ) && code_ok);
            let authenticated = websocket_text.summary_is("op", "auth") && code_ok;
            if subscribed {
                Some(Response::Subscribe(SubscribeResponse { id: None, symbols: Vec::new(), kind: None }))
            } else if authenticated {
                Some(Response::Authenticate(AuthenticateResponse { id: None }))
            } else {
                let ghost t = websocket_text;
                let e = self.create_websocket_error_response(websocket_text);
                assert(self.handled(t, Some(e)));
                Some(e)
            }
        }
    }
}

fn book_ok(t: &WebSocketText) -> (r: bool)
    ensures
        r == futures_book_message_ok(*t),
{
    match &t.json_payload {
        Some(j) => match j.at("ch") {
            Some(c) => c.as_str().is_some(),
            None => false,
        },
        None => false,
    }
}

fn trade_ok(t: &WebSocketText) -> (r: bool)
    ensures
        r == futures_trade_message_ok(*t),
{
    match &t.json_payload {
        Some(j) => {
            let null = JsonValue::Null;
            let ch_ok = match j.at("ch") {
                Some(c) => c.as_str().is_some(),
                None => false,
            };
            ch_ok && member_or(member_or(j, "tick", &null), "data", &null).as_array().is_some()
        },
        None => false,
    }
}

} // verus!
