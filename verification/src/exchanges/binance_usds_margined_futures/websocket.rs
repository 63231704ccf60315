//! Binance USDⓈ-M futures websocket API: the listen key of the account stream, the
//! subscriptions, and the messages the streams send.

use vstd::prelude::*;
use crate::exchange_client::common::{
    AuthenticateResponse, HeartbeatResponse, OrderSubscriptionData, Response, SubscribeResponse,
    SubscribeTopOfBookRequest, SubscribeTradeRequest, TopOfBookSubscriptionData, TradeSubscriptionData,
};
use crate::exchanges::binance_usds_margined_futures::common::{
    binance_ws_order_matches, binance_ws_order_ok, BinanceUsdsMarginedFuturesClient,
};
use crate::json::{field_str, has_str, quoted, spec_as_bool, spec_as_i64, spec_as_str, spec_as_u64, spec_at, spec_get, write_quoted, JsonValue};
use crate::networking::http::{has_query, opt_view, push_pair, query_request, status_is_success, HttpMethod, HttpRequest, HttpResponse};
use crate::networking::websocket::WebSocketText;
use crate::signing::pair_views;
use crate::text::{int_text, nat_digits, push_str, replace, replace_all, string_from, to_lowercase, u64_to_string, unicode_lowercase};
use crate::time::{from_millis_or_epoch, millis_of, timestamp_from_millis_or_epoch, timestamp_valid, utc_now};
use crate::types::{
    ExchangeInstrumentType, ExchangeWebSocketEndpoint, Order, TakerSide, Timestamp, TopOfBook, Trade,
    WebSocketEndpoint,
};

verus! {

/// The stream names of the symbols: each lower-cased, then the suffix, quoted and
/// separated by commas.
pub open spec fn stream_names_text(symbols: Seq<String>, suffix: Seq<char>) -> Seq<char>
    decreases symbols.len(),
{
    if symbols.len() == 0 {
        Seq::empty()
    } else if symbols.len() == 1 {
        quoted(unicode_lowercase(symbols[0]@) + suffix)
    } else {
        stream_names_text(symbols.drop_last(), suffix) + ","@ + quoted(unicode_lowercase(symbols.last()@) + suffix)
    }
}

/// A subscription: the id where one is given, the method, and the stream names.
pub open spec fn binance_subscribe_text(id: Option<u64>, streams: Seq<char>) -> Seq<char> {
    let head = match id {
        Some(n) => "{\"id\":"@ + nat_digits(n as nat) + ","@,
        None => "{"@,
    };
    head + "\"method\":\"SUBSCRIBE\",\"params\":["@ + streams + "]}"@
}

/// The message's data member.
pub open spec fn data_of(t: WebSocketText) -> JsonValue {
    spec_at(t.json_payload->0, "data"@)
}

/// The members a book ticker update's data must have.
pub open spec fn binance_book_message_ok(t: WebSocketText) -> bool {
    let d = data_of(t);
    &&& t.json_payload is Some
    &&& spec_get(t.json_payload->0, "data"@) is Some
    &&& has_str(d, "s"@) && has_str(d, "b"@) && has_str(d, "B"@) && has_str(d, "a"@) && has_str(d, "A"@)
}

/// The members a trade update's data must have.
pub open spec fn binance_trade_message_ok(t: WebSocketText) -> bool {
    let d = data_of(t);
    &&& t.json_payload is Some
    &&& has_str(d, "s"@)
    &&& spec_as_i64(spec_at(d, "T"@)) is Some
    &&& has_str(d, "p"@)
    &&& has_str(d, "q"@)
    &&& spec_as_bool(spec_at(d, "m"@)) is Some
}

/// The message's "id", where it is an unsigned integer.
pub open spec fn message_id(j: JsonValue) -> Option<u64> {
    match spec_get(j, "id"@) {
        Some(v) => spec_as_u64(v),
        None => None,
    }
}

pub open spec fn binance_is_data(t: WebSocketText) -> bool {
    t.summary("stream"@) is Some || t.summary("e"@) is Some
}

pub open spec fn binance_is_subscribed(t: WebSocketText) -> bool {
    t.summary("result_null"@) is Some && t.summary("error"@) is None
}

fn write_stream_names(out: &mut String, symbols: &Vec<String>, suffix: &str)
    ensures
        final(out)@ == old(out)@ + stream_names_text(symbols@, suffix@),
{
    let ghost start = out@;
    let mut i: usize = 0;
    while i < symbols.len()
        invariant
            i <= symbols@.len(),
            out@ == start + stream_names_text(symbols@.take(i as int), suffix@),
        decreases symbols.len() - i,
    {
        assert(symbols@.take(i + 1).drop_last() =~= symbols@.take(i as int));
        if i > 0 {
            push_str(out, ",");
        }
        let mut name = to_lowercase(symbols[i].as_str());
        push_str(&mut name, suffix);
        write_quoted(name.as_str(), out);
        i = i + 1;
    }
    assert(symbols@.take(symbols@.len() as int) =~= symbols@);
}

pub(crate) fn subscribe_message(id: Option<u64>, symbols: &Vec<String>, suffix: &str) -> (r: String)
    ensures
        r@ == binance_subscribe_text(id, stream_names_text(symbols@, suffix@)),
{
    let mut s = match id {
        Some(n) => {
            let mut h = string_from("{\"id\":");
            let digits = u64_to_string(n);
            push_str(&mut h, digits.as_str());
            push_str(&mut h, ",");
            h
        },
        None => string_from("{"),
    };
    push_str(&mut s, "\"method\":\"SUBSCRIBE\",\"params\":[");
    write_stream_names(&mut s, symbols, suffix);
    push_str(&mut s, "]}");
    s
}

pub(crate) fn str_member(j: &JsonValue, key: &str) -> (r: Option<String>)
    ensures
        match r {
            Some(s) => spec_get(*j, key@) matches Some(v) && spec_as_str(v) == Some(s@),
            None => !(spec_get(*j, key@) matches Some(v) && spec_as_str(v) is Some),
        },
{
    match j.get(key) {
        Some(v) => match v.as_str() {
            Some(s) => Some(string_from(s)),
            None => None,
        },
        None => None,
    }
}

pub(crate) fn message_id_exec(j: &JsonValue) -> (r: Option<u64>)
    ensures
        r == message_id(*j),
{
    match j.get("id") {
        Some(v) => v.as_u64(),
        None => None,
    }
}

impl BinanceUsdsMarginedFuturesClient {
    pub fn websocket_api_url(&self, endpoint: WebSocketEndpoint) -> (r: String)
        requires
            endpoint == WebSocketEndpoint::BinanceUsdsMarginedFutures(ExchangeWebSocketEndpoint::MarketData)
                || endpoint == WebSocketEndpoint::BinanceUsdsMarginedFutures(ExchangeWebSocketEndpoint::AccountData),
        ensures
            endpoint == WebSocketEndpoint::BinanceUsdsMarginedFutures(ExchangeWebSocketEndpoint::MarketData) ==> r@
                == self.websocket_market_data_api_url@,
            endpoint == WebSocketEndpoint::BinanceUsdsMarginedFutures(ExchangeWebSocketEndpoint::AccountData) ==> r@
                == self.websocket_account_data_api_url@,
    {
        if endpoint == WebSocketEndpoint::BinanceUsdsMarginedFutures(ExchangeWebSocketEndpoint::MarketData) {
            self.websocket_market_data_api_url.clone()
        } else {
            self.websocket_account_data_api_url.clone()
        }
    }

    /// The signed POST that starts the account data stream.
    pub fn create_listen_key_http_request(&self, now: Timestamp) -> (r: Option<HttpRequest>)
        requires
            self.credential is Some,
            self.credential->0.secret_key@.len() == 32,
            timestamp_valid(now),
        ensures
            match r {
                Some(h) => exists|u: HttpRequest| #![trigger has_query(u, Seq::empty())] {
                    &&& u.base_url@ == self.rest_api_base_url@
                    &&& u.method == HttpMethod::Post
                    &&& u.path@ == "/fapi/v1/listenKey"@
                    &&& u.headers.entries@.len() == 0
                    &&& has_query(u, Seq::empty())
                    &&& u.payload is None
                    &&& self.signed_http_request(u, h, int_text(millis_of(now)))
                },
                None => !crate::networking::http::header_value_ok(self.credential->0.api_key@),
            },
    {
        let pairs: Vec<(String, String)> = Vec::new();
        assert(pair_views(pairs@) =~= Seq::empty());
        let mut http_request = query_request(self.rest_api_base_url.as_str(), HttpMethod::Post, "/fapi/v1/listenKey", pairs);
        let ghost unsigned = http_request;
        if self.sign_http_request(&mut http_request, now) {
            assert(has_query(unsigned, Seq::empty()));
            Some(http_request)
        } else {
            None
        }
    }

    /// The listen key of a successful response that starts the account data stream.
    pub fn listen_key_of(&self, http_response: &HttpResponse) -> (r: Option<String>)
        ensures
            match r {
                Some(k) => http_response.json_payload matches Some(j) && spec_get(j, "listenKey"@) matches Some(v)
                    && spec_as_str(v) == Some(k@),
                None => !(http_response.json_payload matches Some(j) && spec_get(j, "listenKey"@) matches Some(v)
                    && spec_as_str(v) is Some),
            },
    {
        match &http_response.json_payload {
            Some(j) => str_member(j, "listenKey"),
            None => None,
        }
    }

    /// The account data stream's URL: the listen key in place of "{listen_key}".
    pub fn account_data_url(&self, listen_key: &str) -> (r: String)
        ensures
            r@ == replace_all(self.websocket_account_data_api_url@, "{listen_key}"@, listen_key@),
    {
        proof {
            reveal_strlit("{listen_key}");
        }
        replace(self.websocket_account_data_api_url.as_str(), "{listen_key}", listen_key)
    }

    /// The PUT that keeps the listen key alive.
    pub fn create_listen_key_refresh_http_request(&self, listen_key: &str) -> (r: HttpRequest)
        ensures
            r.base_url@ == self.rest_api_base_url@,
            r.method == HttpMethod::Put,
            r.path@ == "/fapi/v1/listenKey"@,
            r.headers.entries@.len() == 0,
            has_query(r, seq![("listenKey"@, listen_key@)]),
            r.payload is None,
    {
        let mut pairs: Vec<(String, String)> = Vec::new();
        assert(pair_views(pairs@) =~= Seq::empty());
        push_pair(&mut pairs, "listenKey", listen_key);
        assert(pair_views(pairs@) =~= seq![("listenKey"@, listen_key@)]);
        query_request(self.rest_api_base_url.as_str(), HttpMethod::Put, "/fapi/v1/listenKey", pairs)
    }

    /// How often the listen key is refreshed: a quarter of its hour, in seconds.
    pub fn listen_key_refresh_interval_seconds(&self) -> (r: u64)
        ensures
            r == 900,
    {
        900
    }

    /// No heartbeat text: the connection is kept alive with ping frames.
    pub fn create_heartbeat_websocket_request(&self) -> (r: String)
        ensures
            r@.len() == 0,
    {
        String::new()
    }

    pub fn create_subscribe_top_of_book_websocket_request(&self, request: &SubscribeTopOfBookRequest) -> (r: String)
        ensures
            r@ == binance_subscribe_text(request.id, stream_names_text(request.symbols@, "@bookTicker"@)),
    {
        subscribe_message(request.id, &request.symbols, "@bookTicker")
    }

    pub fn create_subscribe_trade_websocket_request(&self, request: &SubscribeTradeRequest) -> (r: String)
        ensures
            r@ == binance_subscribe_text(request.id, stream_names_text(request.symbols@, "@trade"@)),
    {
        subscribe_message(request.id, &request.symbols, "@trade")
    }

    /// The message with its "stream" and "e" (where strings), its integer "status" written
    /// out, "result_null" where its result is null, and "error" where it has an error.
    pub open spec fn summarized(&self, o: WebSocketText, n: WebSocketText) -> bool {
        &&& n.url == o.url
        &&& n.text == o.text
        &&& n.json_payload == o.json_payload
        &&& n.error_code == o.error_code
        &&& n.error_message == o.error_message
        &&& match o.json_payload {
            Some(j) => {
                &&& n.summary("stream"@) == match spec_get(j, "stream"@) {
                    Some(v) => match spec_as_str(v) {
                        Some(s) => Some(s),
                        None => o.summary("stream"@),
                    },
                    None => o.summary("stream"@),
                }
                &&& n.summary("e"@) == match spec_get(j, "e"@) {
                    Some(v) => match spec_as_str(v) {
                        Some(s) => Some(s),
                        None => o.summary("e"@),
                    },
                    None => o.summary("e"@),
                }
                &&& n.summary("status"@) == match spec_get(j, "status"@) {
                    Some(v) => match spec_as_i64(v) {
                        Some(s) => Some(int_text(s as int)),
                        None => o.summary("status"@),
                    },
                    None => o.summary("status"@),
                }
                &&& n.summary("result_null"@) == if spec_get(j, "result"@) == Some(JsonValue::Null) {
                    Some(Seq::<char>::empty())
                } else {
                    o.summary("result_null"@)
                }
                &&& n.summary("error"@) == if spec_get(j, "error"@) matches Some(v) && v != JsonValue::Null {
                    Some(Seq::<char>::empty())
                } else {
                    o.summary("error"@)
                }
            },
            None => n.payload_summary == o.payload_summary,
        }
    }

    pub fn populate_websocket_text_payload_summary(&self, websocket_text: &mut WebSocketText)
        ensures
            self.summarized(*old(websocket_text), *final(websocket_text)),
    {
        proof {
            reveal_strlit("stream");
            reveal_strlit("e");
            reveal_strlit("status");
            reveal_strlit("result_null");
            reveal_strlit("error");
            assert("stream"@.len() == 6);
            assert("e"@.len() == 1);
            assert("status"@.len() == 6);
            assert("result_null"@.len() == 11);
            assert("error"@.len() == 5);
            assert("stream"@[2] != "status"@[2]);
        }
        let (stream, e, status, result_null, error) = match &websocket_text.json_payload {
            Some(j) => {
                let status = match j.get("status") {
                    Some(v) => match v.as_i64() {
                        Some(n) => Some(crate::text::i64_to_string(n)),
                        None => None,
                    },
                    None => None,
                };
                let result_null = match j.get("result") {
                    Some(v) => match v {
                        JsonValue::Null => true,
                        _ => false,
                    },
                    None => false,
                };
                let error = match j.get("error") {
                    Some(v) => match v {
                        JsonValue::Null => false,
                        _ => true,
                    },
                    None => false,
                };
                (str_member(j, "stream"), str_member(j, "e"), status, result_null, error)
            },
            None => (None, None, None, false, false),
        };
        match stream {
            Some(s) => websocket_text.payload_summary.insert(string_from("stream"), s),
            None => {},
        }
        match e {
            Some(s) => websocket_text.payload_summary.insert(string_from("e"), s),
            None => {},
        }
        match status {
            Some(s) => websocket_text.payload_summary.insert(string_from("status"), s),
            None => {},
        }
        if result_null {
            websocket_text.payload_summary.insert(string_from("result_null"), String::new());
        }
        if error {
            websocket_text.payload_summary.insert(string_from("error"), String::new());
        }
    }

    /// The best bid and ask of a book ticker update, at the time it was read.
    pub open spec fn top_of_book_data(&self, t: WebSocketText, r: Response) -> bool {
        let d = data_of(t);
        r matches Response::TopOfBookSubscription(s) && s.data@.len() == 1 && ({
            let b = s.data@[0];
            &&& b.exchange_instrument_type == ExchangeInstrumentType::BinanceUsdsMarginedFutures
            &&& b.symbol@ == field_str(d, "s"@)
            &&& timestamp_valid(b.timestamp)
            &&& b.bid_price@ == field_str(d, "b"@)
            &&& b.bid_size@ == field_str(d, "B"@)
            &&& b.ask_price@ == field_str(d, "a"@)
            &&& b.ask_size@ == field_str(d, "A"@)
        })
    }

    pub fn create_subscribe_top_of_book_websocket_subscription_data(&self, websocket_text: &WebSocketText) -> (r: Response)
        requires
            binance_book_message_ok(*websocket_text),
        ensures
            self.top_of_book_data(*websocket_text, r),
    {
        let json = websocket_text.json_payload.as_ref().unwrap();
        let null = JsonValue::Null;
        let d: &JsonValue = match json.at("data") {
            Some(d) => d,
            None => &null,
        };
        let book = TopOfBook {
            exchange_instrument_type: ExchangeInstrumentType::BinanceUsdsMarginedFutures,
            symbol: d.field_str("s"),
            timestamp: utc_now(),
            bid_price: d.field_str("b"),
            bid_size: d.field_str("B"),
            ask_price: d.field_str("a"),
            ask_size: d.field_str("A"),
        };
        let mut data: Vec<TopOfBook> = Vec::new();
        data.push(book);
        Response::TopOfBookSubscription(TopOfBookSubscriptionData { data })
    }

    /// The trade of a trade update: a buyer that made the market means a selling taker.
    pub open spec fn trade_data(&self, t: WebSocketText, r: Response) -> bool {
        let d = data_of(t);
        r matches Response::TradeSubscription(s) && s.data@.len() == 1 && ({
            let x = s.data@[0];
            &&& x.exchange_instrument_type == ExchangeInstrumentType::BinanceUsdsMarginedFutures
            &&& x.symbol@ == field_str(d, "s"@)
            &&& from_millis_or_epoch(x.timestamp, spec_as_i64(spec_at(d, "T"@))->0 as int)
            &&& x.price@ == field_str(d, "p"@)
            &&& x.size@ == field_str(d, "q"@)
            &&& x.side == if spec_as_bool(spec_at(d, "m"@))->0 { TakerSide::Sell } else { TakerSide::Buy }
        })
    }

    pub fn create_subscribe_trade_websocket_subscription_data(&self, websocket_text: &WebSocketText) -> (r: Response)
        requires
            binance_trade_message_ok(*websocket_text),
        ensures
            self.trade_data(*websocket_text, r),
    {
        let json = websocket_text.json_payload.as_ref().unwrap();
        let null = JsonValue::Null;
        let d: &JsonValue = match json.at("data") {
            Some(d) => d,
            None => &null,
        };
        let millis: i64 = match d.at("T") {
            Some(v) => match v.as_i64() {
                Some(n) => n,
                None => 0,
            },
            None => 0,
        };
        let buyer_is_maker = match d.at("m") {
            Some(v) => match v.as_bool() {
                Some(b) => b,
                None => false,
            },
            None => false,
        };
        let trade = Trade {
            exchange_instrument_type: ExchangeInstrumentType::BinanceUsdsMarginedFutures,
            symbol: d.field_str("s"),
            timestamp: timestamp_from_millis_or_epoch(millis),
            price: d.field_str("p"),
            size: d.field_str("q"),
            side: if buyer_is_maker { TakerSide::Sell } else { TakerSide::Buy },
        };
        let mut data: Vec<Trade> = Vec::new();
        data.push(trade);
        Response::TradeSubscription(TradeSubscriptionData { data })
    }

    /// The order of an order update.
    pub open spec fn order_data(&self, t: WebSocketText, r: Response) -> bool {
        r matches Response::OrderSubscription(s) && s.data@.len() == 1 && binance_ws_order_matches(
            s.data@[0],
            t.json_payload->0,
        )
    }

    pub fn create_subscribe_order_websocket_subscription_data(&self, websocket_text: &WebSocketText) -> (r: Response)
        requires
            websocket_text.json_payload matches Some(j) && binance_ws_order_ok(j),
        ensures
            self.order_data(*websocket_text, r),
    {
        let json = websocket_text.json_payload.as_ref().unwrap();
        let order = self.convert_ws_order_trade_update_to_order(json);
        let mut data: Vec<Order> = Vec::new();
        data.push(order);
        Response::OrderSubscription(OrderSubscriptionData { data })
    }

    /// The message with its "msg" (where a string) as the error message, where it is JSON.
    pub open spec fn websocket_error_response(&self, t: WebSocketText, r: Response) -> bool {
        r matches Response::WebSocketErrorResponse(e) && e.url == t.url && e.text == t.text && e.json_payload
            == t.json_payload && e.payload_summary == t.payload_summary && e.error_code == t.error_code
            && match t.json_payload {
            Some(j) => opt_view(e.error_message) == (match spec_get(j, "msg"@) {
                Some(m) => spec_as_str(m),
                None => None,
            }),
            None => e.error_message == t.error_message,
        }
    }

    pub fn create_websocket_error_response(&self, websocket_text: WebSocketText) -> (r: Response)
        ensures
            self.websocket_error_response(websocket_text, r),
    {
        let mut t = websocket_text;
        match &t.json_payload {
            Some(j) => {
                let message = match j.get("msg") {
                    Some(m) => match m.as_str() {
                        Some(s) => Some(string_from(s)),
                        None => None,
                    },
                    None => None,
                };
                t.error_message = message;
            },
            None => {},
        }
        Response::WebSocketErrorResponse(t)
    }

    /// What a summarized message comes to: data of the stream's kind (None where it lacks
    /// what its conversion reads), an account event of another kind, a subscription's
    /// answer, or an error. None for data of no known stream.
    pub open spec fn handled(&self, t: WebSocketText, r: Option<Response>) -> bool {
        let stream = t.summary("stream"@);
        if binance_is_data(t) {
            if stream matches Some(s) && "bookTicker"@.is_suffix_of(s) {
                if binance_book_message_ok(t) { r matches Some(x) && self.top_of_book_data(t, x) } else { r is None }
            } else if stream matches Some(s) && "trade"@.is_suffix_of(s) {
                if binance_trade_message_ok(t) { r matches Some(x) && self.trade_data(t, x) } else { r is None }
            } else if t.summary("e"@) == Some("ORDER_TRADE_UPDATE"@) {
                if t.json_payload matches Some(j) && binance_ws_order_ok(j) {
                    r matches Some(x) && self.order_data(t, x)
                } else {
                    r is None
                }
            } else if t.summary("e"@) is Some {
                r matches Some(Response::Unneeded(u)) && u == t
            } else {
                r is None
            }
        } else if t.summary("status"@) == Some("200"@) || binance_is_subscribed(t) {
            if t.json_payload is None || !binance_is_subscribed(t) {
                r is None
            } else {
                r matches Some(Response::Subscribe(s)) && s.id == message_id(t.json_payload->0) && s.symbols@.len()
                    == 0 && s.kind is None
            }
        } else {
            r matches Some(x) && self.websocket_error_response(t, x)
        }
    }

    /// A message as it was read (its text parsed as JSON where it is JSON, its summary
    /// empty), summarized and then classified.
    pub fn handle_websocket_text(&self, websocket_text: WebSocketText) -> (r: Option<Response>)
        ensures
            exists|t: WebSocketText| #[trigger] self.summarized(websocket_text, t) && self.handled(t, r),
    {
        let mut websocket_text = websocket_text;
        self.populate_websocket_text_payload_summary(&mut websocket_text);
        let has_stream = websocket_text.payload_summary.get("stream").is_some();
        let has_event = websocket_text.payload_summary.get("e").is_some();
        if has_stream || has_event {
            let stream = websocket_text.summary_or_empty("stream");
            if has_stream && crate::text::ends_with_text(stream.as_str(), "bookTicker") {
                if book_message_ok(&websocket_text) {
                    Some(self.create_subscribe_top_of_book_websocket_subscription_data(&websocket_text))
                } else {
                    None
                }
            } else if has_stream && crate::text::ends_with_text(stream.as_str(), "trade") {
                if trade_message_ok(&websocket_text) {
                    Some(self.create_subscribe_trade_websocket_subscription_data(&websocket_text))
                } else {
                    None
                }
            } else if websocket_text.summary_is("e", "ORDER_TRADE_UPDATE") {
                if ws_order_ok(&websocket_text) {
                    Some(self.create_subscribe_order_websocket_subscription_data(&websocket_text))
                } else {
                    None
                }
            } else if has_event {
                Some(Response::Unneeded(websocket_text))
            } else {
                None
            }
        } else if websocket_text.summary_is("status", "200") || (websocket_text.payload_summary.get(
            "result_null",
        ).is_some() && websocket_text.payload_summary.get("error").is_none()) {
            let subscribed = websocket_text.payload_summary.get("result_null").is_some()
                && websocket_text.payload_summary.get("error").is_none();
            match &websocket_text.json_payload {
                Some(j) => if subscribed {
                    Some(Response::Subscribe(SubscribeResponse { id: message_id_exec(j), symbols: Vec::new(), kind: None }))
                } else {
                    None
                },
                None => None,
            }
        } else {
            let ghost t = websocket_text;
            let e = self.create_websocket_error_response(websocket_text);
            assert(self.handled(t, Some(e)));
            Some(e)
        }
    }
}

pub(crate) fn data_exec(t: &WebSocketText) -> (r: Option<&JsonValue>)
    ensures
        match r {
            Some(d) => t.json_payload is Some && spec_get(t.json_payload->0, "data"@) == Some(*d) && data_of(*t) == *d,
            None => t.json_payload is None || spec_get(t.json_payload->0, "data"@) is None,
        },
{
    match &t.json_payload {
        Some(j) => j.at("data"),
        None => None,
    }
}

pub(crate) fn book_message_ok(t: &WebSocketText) -> (r: bool)
    ensures
        r == binance_book_message_ok(*t),
{
    match data_exec(t) {
        Some(d) => d.has_str("s") && d.has_str("b") && d.has_str("B") && d.has_str("a") && d.has_str("A"),
        None => false,
    }
}

pub(crate) fn trade_message_ok(t: &WebSocketText) -> (r: bool)
    ensures
        r == binance_trade_message_ok(*t),
{
    if t.json_payload.is_none() {
        return false;
    }
    let null = JsonValue::Null;
    let d: &JsonValue = match data_exec(t) {
        Some(d) => d,
        None => &null,
    };
    let time_ok = match d.at("T") {
        Some(v) => v.as_i64().is_some(),
        None => false,
    };
    let maker_ok = match d.at("m") {
        Some(v) => v.as_bool().is_some(),
        None => false,
    };
    d.has_str("s") && time_ok && d.has_str("p") && d.has_str("q") && maker_ok
}

fn ws_order_ok(t: &WebSocketText) -> (r: bool)
    ensures
        r == (t.json_payload matches Some(j) && binance_ws_order_ok(j)),
{
    let j = match &t.json_payload {
        Some(j) => j,
        None => return false,
    };
    let null = JsonValue::Null;
    let o: &JsonValue = match j.at("o") {
        Some(o) => o,
        None => &null,
    };
    let id_ok = match o.at("i") {
        Some(v) => v.as_u64().is_some(),
        None => false,
    };
    o.has_str("s") && id_ok && o.has_str("c") && o.has_str("o") && o.has_str("S") && o.has_str("p")
        && o.has_str("q") && o.has_str("z") && o.has_str("X") && o.has_str("L") && o.has_str("l")
}

} // verus!
