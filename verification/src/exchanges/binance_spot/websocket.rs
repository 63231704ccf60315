//! Binance spot websocket API: the session logon, the subscriptions, and the messages the
//! streams send.

use vstd::prelude::*;
use vstd::utf8::encode_utf8;
use crate::exchange_client::common::{
    AuthenticateResponse, OrderSubscriptionData, Response, SubscribeOrderRequest, SubscribeResponse,
    SubscribeTopOfBookRequest, SubscribeTradeRequest, TopOfBookSubscriptionData, TradeSubscriptionData,
};
use crate::exchanges::binance_spot::common::{
    spot_execution_report_matches, spot_execution_report_ok, BinanceSpotClient,
};
use crate::exchanges::binance_usds_margined_futures::websocket::{
    binance_book_message_ok, binance_subscribe_text, binance_trade_message_ok, book_message_ok, data_of,
    message_id, message_id_exec, str_member, stream_names_text, subscribe_message, trade_message_ok,
};
use crate::json::{field_str, quoted, spec_as_bool, spec_as_i64, spec_as_str, spec_at, spec_get, write_quoted, JsonValue};
use crate::networking::http::opt_view;
use crate::networking::websocket::WebSocketText;
use crate::signing::{base64_encode, base64_standard, ed25519_sign, ed25519_signature};
use crate::text::{ends_with_text, i64_to_string, int_text, push_str, string_from};
use crate::time::{from_millis_or_epoch, timestamp_millis, timestamp_from_millis_or_epoch, timestamp_valid, utc_now};
use crate::types::{
    ExchangeInstrumentType, ExchangeWebSocketEndpoint, Order, TakerSide, TopOfBook, Trade, WebSocketEndpoint,
};

verus! {

/// What the session logon signs: the API key and the time.
pub open spec fn spot_logon_payload(api_key: Seq<char>, timestamp: Seq<char>) -> Seq<char> {
    "apiKey="@ + api_key + "&timestamp="@ + timestamp
}

/// The session logon at a time (milliseconds, as text), with its signature.
pub open spec fn spot_logon_text(api_key: Seq<char>, timestamp: Seq<char>, signature: Seq<char>) -> Seq<char> {
    "{\"id\":"@ + timestamp + ",\"method\":\"session.logon\",\"params\":{\"apiKey\":"@ + quoted(api_key)
        + ",\"signature\":"@ + quoted(signature) + ",\"timestamp\":"@ + timestamp + "}}"@
}

/// The Base64 Ed25519 signature of the logon payload.
pub open spec fn spot_logon_signature(secret_key: Seq<u8>, api_key: Seq<char>, timestamp: Seq<char>) -> Seq<char> {
    base64_standard(ed25519_signature(secret_key, encode_utf8(spot_logon_payload(api_key, timestamp))))
}

/// The request for the account's order events, with the time as its id.
pub open spec fn spot_user_data_subscribe_text(timestamp: Seq<char>) -> Seq<char> {
    "{\"id\":"@ + timestamp + ",\"method\":\"userDataStream.subscribe\"}"@
}

/// The string at `outer.inner`, where there is one.
pub open spec fn nested_str(j: JsonValue, outer: Seq<char>, inner: Seq<char>) -> Option<Seq<char>> {
    match spec_get(j, outer) {
        Some(o) => match spec_get(o, inner) {
            Some(v) => spec_as_str(v),
            None => None,
        },
        None => None,
    }
}

/// The integer at `outer.inner`, where there is one.
pub open spec fn nested_i64(j: JsonValue, outer: Seq<char>, inner: Seq<char>) -> Option<i64> {
    match spec_get(j, outer) {
        Some(o) => match spec_get(o, inner) {
            Some(v) => spec_as_i64(v),
            None => None,
        },
        None => None,
    }
}

/// A summary value: the one read where there is one, else the one already there.
pub open spec fn or_kept(read: Option<Seq<char>>, kept: Option<Seq<char>>) -> Option<Seq<char>> {
    match read {
        Some(s) => Some(s),
        None => kept,
    }
}

pub open spec fn spot_is_data(t: WebSocketText) -> bool {
    t.summary("stream"@) is Some || t.summary("event.e"@) is Some
}

pub open spec fn spot_is_subscribed(t: WebSocketText) -> bool {
    t.summary("result_null"@) is Some && t.summary("error"@) is None
}

pub open spec fn spot_is_success(t: WebSocketText) -> bool {
    t.summary("status"@) == Some("200"@) || spot_is_subscribed(t)
}

/// A subscription's answer: a null result that is no logon, or a status of 200 with a
/// subscription id.
pub open spec fn spot_is_subscribe_answer(t: WebSocketText) -> bool {
    (spot_is_subscribed(t) && t.summary("api_key"@) is None) || (t.summary("status"@) == Some("200"@)
        && t.summary("subscription_id"@) is Some)
}

fn nested_str_exec(j: &JsonValue, outer: &str, inner: &str) -> (r: Option<String>)
    ensures
        opt_view(r) == nested_str(*j, outer@, inner@),
{
    match j.get(outer) {
        Some(o) => str_member(o, inner),
        None => None,
    }
}

fn nested_i64_exec(j: &JsonValue, outer: &str, inner: &str) -> (r: Option<i64>)
    ensures
        r == nested_i64(*j, outer@, inner@),
{
    match j.get(outer) {
        Some(o) => match o.get(inner) {
            Some(v) => v.as_i64(),
            None => None,
        },
        None => None,
    }
}

impl BinanceSpotClient {
    pub fn websocket_api_url(&self, endpoint: WebSocketEndpoint) -> (r: String)
        requires
            endpoint == WebSocketEndpoint::BinanceSpot(ExchangeWebSocketEndpoint::MarketData)
                || endpoint == WebSocketEndpoint::BinanceSpot(ExchangeWebSocketEndpoint::AccountData),
        ensures
            endpoint == WebSocketEndpoint::BinanceSpot(ExchangeWebSocketEndpoint::MarketData) ==> r@
                == self.websocket_market_data_api_url@,
            endpoint == WebSocketEndpoint::BinanceSpot(ExchangeWebSocketEndpoint::AccountData) ==> r@
                == self.websocket_account_data_api_url@,
    {
        if endpoint == WebSocketEndpoint::BinanceSpot(ExchangeWebSocketEndpoint::MarketData) {
            self.websocket_market_data_api_url.clone()
        } else {
            self.websocket_account_data_api_url.clone()
        }
    }

    /// The session logon signed at the given time (milliseconds); empty without a credential.
    pub fn create_authenticate_websocket_request_at(&self, millis: i64) -> (r: String)
        requires
            self.credential matches Some(c) ==> c.secret_key@.len() == 32,
        ensures
            match self.credential {
                Some(c) => r@ == spot_logon_text(
                    c.api_key@,
                    int_text(millis as int),
                    spot_logon_signature(c.secret_key@, c.api_key@, int_text(millis as int)),
                ),
                None => r@.len() == 0,
            },
    {
        let c = match &self.credential {
            Some(c) => c,
            None => return String::new(),
        };
        let timestamp = i64_to_string(millis);
        let mut payload = string_from("apiKey=");
        push_str(&mut payload, c.api_key.as_str());
        push_str(&mut payload, "&timestamp=");
        push_str(&mut payload, timestamp.as_str());
        let signature = base64_encode(ed25519_sign(c.secret_key.as_slice(), payload.as_str().as_bytes()).as_slice());
        let mut s = string_from("{\"id\":");
        push_str(&mut s, timestamp.as_str());
        push_str(&mut s, ",\"method\":\"session.logon\",\"params\":{\"apiKey\":");
        write_quoted(c.api_key.as_str(), &mut s);
        push_str(&mut s, ",\"signature\":");
        write_quoted(signature.as_str(), &mut s);
        push_str(&mut s, ",\"timestamp\":");
        push_str(&mut s, timestamp.as_str());
        push_str(&mut s, "}}");
        s
    }

    /// The session logon, signed at the current time; empty without a credential.
    pub fn create_authenticate_websocket_request(&self) -> (r: String)
        requires
            self.credential matches Some(c) ==> c.secret_key@.len() == 32,
        ensures
            match self.credential {
                Some(c) => exists|millis: i64| r@ == #[trigger] spot_logon_text(
                    c.api_key@,
                    int_text(millis as int),
                    spot_logon_signature(c.secret_key@, c.api_key@, int_text(millis as int)),
                ),
                None => r@.len() == 0,
            },
    {
        let now = utc_now();
        self.create_authenticate_websocket_request_at(timestamp_millis(now))
    }

    /// No heartbeat text: the connection is kept alive with ping frames.
    pub fn create_heartbeat_websocket_request(&self) -> (r: String)
        ensures
            r@.len() == 0,
    {
        String::new()
    }

    pub fn create_subscribe_top_of_book_websocket_request(&self, request: &SubscribeTopOfBookRequest) -> (r: String)
        ensures
            r@ == binance_subscribe_text(request.id, stream_names_text(request.symbols@, "@bookTicker"@)),
    {
        subscribe_message(request.id, &request.symbols, "@bookTicker")
    }

    pub fn create_subscribe_trade_websocket_request(&self, request: &SubscribeTradeRequest) -> (r: String)
        ensures
            r@ == binance_subscribe_text(request.id, stream_names_text(request.symbols@, "@trade"@)),
    {
        subscribe_message(request.id, &request.symbols, "@trade")
    }

    /// Subscribes the logged-on session to its account's events, with the given time
    /// (milliseconds) as the id.
    pub fn create_subscribe_order_websocket_request_at(&self, millis: i64) -> (r: String)
        ensures
            r@ == spot_user_data_subscribe_text(int_text(millis as int)),
    {
        let timestamp = i64_to_string(millis);
        let mut s = string_from("{\"id\":");
        push_str(&mut s, timestamp.as_str());
        push_str(&mut s, ",\"method\":\"userDataStream.subscribe\"}");
        s
    }

    /// Subscribes the logged-on session to its account's events, with the current time as
    /// the id.
    pub fn create_subscribe_order_websocket_request(&self, _request: &SubscribeOrderRequest) -> (r: String)
        ensures
            exists|millis: i64| r@ == #[trigger] spot_user_data_subscribe_text(int_text(millis as int)),
    {
        let now = utc_now();
        self.create_subscribe_order_websocket_request_at(timestamp_millis(now))
    }

    /// The message with its "stream", its event's kind ("event.e"), its integer "status"
    /// written out, "result_null" where its result is null, "error" where it has an error,
    /// the logged-on "api_key" and the "subscription_id" of its result.
    pub open spec fn summarized(&self, o: WebSocketText, n: WebSocketText) -> bool {
        &&& n.url == o.url
        &&& n.text == o.text
        &&& n.json_payload == o.json_payload
        &&& n.error_code == o.error_code
        &&& n.error_message == o.error_message
        &&& match o.json_payload {
            Some(j) => {
                &&& n.summary("stream"@) == or_kept(
                    match spec_get(j, "stream"@) {
                        Some(v) => spec_as_str(v),
                        None => None,
                    },
                    o.summary("stream"@),
                )
                &&& n.summary("event.e"@) == or_kept(nested_str(j, "event"@, "e"@), o.summary("event.e"@))
                &&& n.summary("status"@) == or_kept(
                    match spec_get(j, "status"@) {
                        Some(v) => match spec_as_i64(v) {
                            Some(s) => Some(int_text(s as int)),
                            None => None,
                        },
                        None => None,
                    },
                    o.summary("status"@),
                )
                &&& n.summary("result_null"@) == if spec_get(j, "result"@) == Some(JsonValue::Null) {
                    Some(Seq::<char>::empty())
                } else {
                    o.summary("result_null"@)
                }
                &&& n.summary("error"@) == if spec_get(j, "error"@) matches Some(v) && v != JsonValue::Null {
                    Some(Seq::<char>::empty())
                } else {
                    o.summary("error"@)
                }
                &&& n.summary("api_key"@) == or_kept(nested_str(j, "result"@, "apiKey"@), o.summary("api_key"@))
                &&& n.summary("subscription_id"@) == or_kept(
                    match nested_i64(j, "result"@, "subscriptionId"@) {
                        Some(s) => Some(int_text(s as int)),
                        None => None,
                    },
                    o.summary("subscription_id"@),
                )
            },
            None => n.payload_summary == o.payload_summary,
        }
    }

    pub fn populate_websocket_text_payload_summary(&self, websocket_text: &mut WebSocketText)
        ensures
            self.summarized(*old(websocket_text), *final(websocket_text)),
    {
        proof {
            reveal_strlit("stream");
            reveal_strlit("event.e");
            reveal_strlit("status");
            reveal_strlit("result_null");
            reveal_strlit("error");
            reveal_strlit("api_key");
            reveal_strlit("subscription_id");
            assert("stream"@.len() == 6);
            assert("event.e"@.len() == 7);
            assert("status"@.len() == 6);
            assert("result_null"@.len() == 11);
            assert("error"@.len() == 5);
            assert("api_key"@.len() == 7);
            assert("subscription_id"@.len() == 15);
            assert("stream"@[2] != "status"@[2]);
            assert("event.e"@[0] != "api_key"@[0]);
        }
        let (stream, event, status, result_null, error, api_key, subscription_id) = match &websocket_text.json_payload {
            Some(j) => {
                let status = match j.get("status") {
                    Some(v) => match v.as_i64() {
                        Some(n) => Some(i64_to_string(n)),
                        None => None,
                    },
                    None => None,
                };
                let result_null = match j.get("result") {
                    Some(v) => match v {
                        JsonValue::Null => true,
                        _ => false,
                    },
                    None => false,
                };
                let error = match j.get("error") {
                    Some(v) => match v {
                        JsonValue::Null => false,
                        _ => true,
                    },
                    None => false,
                };
                let subscription_id = match nested_i64_exec(j, "result", "subscriptionId") {
                    Some(n) => Some(i64_to_string(n)),
                    None => None,
                };
                (
                    str_member(j, "stream"),
                    nested_str_exec(j, "event", "e"),
                    status,
                    result_null,
                    error,
                    nested_str_exec(j, "result", "apiKey"),
                    subscription_id,
                )
            },
            None => (None, None, None, false, false, None, None),
        };
        match stream {
            Some(s) => websocket_text.payload_summary.insert(string_from("stream"), s),
            None => {},
        }
        match event {
            Some(s) => websocket_text.payload_summary.insert(string_from("event.e"), s),
            None => {},
        }
        match status {
            Some(s) => websocket_text.payload_summary.insert(string_from("status"), s),
            None => {},
        }
        if result_null {
            websocket_text.payload_summary.insert(string_from("result_null"), String::new());
        }
        if error {
            websocket_text.payload_summary.insert(string_from("error"), String::new());
        }
        match api_key {
            Some(s) => websocket_text.payload_summary.insert(string_from("api_key"), s),
            None => {},
        }
        match subscription_id {
            Some(s) => websocket_text.payload_summary.insert(string_from("subscription_id"), s),
            None => {},
        }
    }
}

impl BinanceSpotClient {
    /// The best bid and ask of a book ticker update, at the time it was read.
    pub open spec fn top_of_book_data(&self, t: WebSocketText, r: Response) -> bool {
        let d = data_of(t);
        r matches Response::TopOfBookSubscription(s) && s.data@.len() == 1 && ({
            let b = s.data@[0];
            &&& b.exchange_instrument_type == ExchangeInstrumentType::BinanceSpot
            &&& b.symbol@ == field_str(d, "s"@)
            &&& timestamp_valid(b.timestamp)
            &&& b.bid_price@ == field_str(d, "b"@)
            &&& b.bid_size@ == field_str(d, "B"@)
            &&& b.ask_price@ == field_str(d, "a"@)
            &&& b.ask_size@ == field_str(d, "A"@)
        })
    }

    pub fn create_subscribe_top_of_book_websocket_subscription_data(&self, websocket_text: &WebSocketText) -> (r: Response)
        requires
            binance_book_message_ok(*websocket_text),
        ensures
            self.top_of_book_data(*websocket_text, r),
    {
        let json = websocket_text.json_payload.as_ref().unwrap();
        let null = JsonValue::Null;
        let d: &JsonValue = match json.at("data") {
            Some(d) => d,
            None => &null,
        };
        let book = TopOfBook {
            exchange_instrument_type: ExchangeInstrumentType::BinanceSpot,
            symbol: d.field_str("s"),
            timestamp: utc_now(),
            bid_price: d.field_str("b"),
            bid_size: d.field_str("B"),
            ask_price: d.field_str("a"),
            ask_size: d.field_str("A"),
        };
        let mut data: Vec<TopOfBook> = Vec::new();
        data.push(book);
        Response::TopOfBookSubscription(TopOfBookSubscriptionData { data })
    }

    /// The trade of a trade update: a buyer that made the market means a selling taker.
    pub open spec fn trade_data(&self, t: WebSocketText, r: Response) -> bool {
        let d = data_of(t);
        r matches Response::TradeSubscription(s) && s.data@.len() == 1 && ({
            let x = s.data@[0];
            &&& x.exchange_instrument_type == ExchangeInstrumentType::BinanceSpot
            &&& x.symbol@ == field_str(d, "s"@)
            &&& from_millis_or_epoch(x.timestamp, spec_as_i64(spec_at(d, "T"@))->0 as int)
            &&& x.price@ == field_str(d, "p"@)
            &&& x.size@ == field_str(d, "q"@)
            &&& x.side == if spec_as_bool(spec_at(d, "m"@))->0 { TakerSide::Sell } else { TakerSide::Buy }
        })
    }

    pub fn create_subscribe_trade_websocket_subscription_data(&self, websocket_text: &WebSocketText) -> (r: Response)
        requires
            binance_trade_message_ok(*websocket_text),
        ensures
            self.trade_data(*websocket_text, r),
    {
        let json = websocket_text.json_payload.as_ref().unwrap();
        let null = JsonValue::Null;
        let d: &JsonValue = match json.at("data") {
            Some(d) => d,
            None => &null,
        };
        let millis: i64 = match d.at("T") {
            Some(v) => match v.as_i64() {
                Some(n) => n,
                None => 0,
            },
            None => 0,
        };
        let buyer_is_maker = match d.at("m") {
            Some(v) => match v.as_bool() {
                Some(b) => b,
                None => false,
            },
            None => false,
        };
        let trade = Trade {
            exchange_instrument_type: ExchangeInstrumentType::BinanceSpot,
            symbol: d.field_str("s"),
            timestamp: timestamp_from_millis_or_epoch(millis),
            price: d.field_str("p"),
            size: d.field_str("q"),
            side: if buyer_is_maker { TakerSide::Sell } else { TakerSide::Buy },
        };
        let mut data: Vec<Trade> = Vec::new();
        data.push(trade);
        Response::TradeSubscription(TradeSubscriptionData { data })
    }

    /// The order of an execution report.
    pub open spec fn order_data(&self, t: WebSocketText, r: Response) -> bool {
        r matches Response::OrderSubscription(s) && s.data@.len() == 1 && spot_execution_report_matches(
            s.data@[0],
            t.json_payload->0,
        )
    }

    pub fn create_subscribe_order_websocket_subscription_data(&self, websocket_text: &WebSocketText) -> (r: Response)
        requires
            websocket_text.json_payload matches Some(j) && spot_execution_report_ok(j),
        ensures
            self.order_data(*websocket_text, r),
    {
        let json = websocket_text.json_payload.as_ref().unwrap();
        let order = self.convert_ws_executionreport_to_order(json);
        let mut data: Vec<Order> = Vec::new();
        data.push(order);
        Response::OrderSubscription(OrderSubscriptionData { data })
    }

    /// The answer to the logon: its id.
    pub fn create_authenticate_websocket_response(&self, websocket_text: &WebSocketText) -> (r: Response)
        requires
            websocket_text.json_payload is Some,
        ensures
            r == Response::Authenticate(AuthenticateResponse { id: message_id(websocket_text.json_payload->0) }),
    {
        let json = websocket_text.json_payload.as_ref().unwrap();
        Response::Authenticate(AuthenticateResponse { id: message_id_exec(json) })
    }

    /// The answer to a subscription: its id.
    pub open spec fn subscribe_response(&self, t: WebSocketText, r: Response) -> bool {
        r matches Response::Subscribe(s) && s.id == message_id(t.json_payload->0) && s.symbols@.len() == 0
            && s.kind is None
    }

    pub fn create_subscribe_websocket_response(&self, websocket_text: &WebSocketText) -> (r: Response)
        requires
            websocket_text.json_payload is Some,
        ensures
            self.subscribe_response(*websocket_text, r),
    {
        let json = websocket_text.json_payload.as_ref().unwrap();
        Response::Subscribe(SubscribeResponse { id: message_id_exec(json), symbols: Vec::new(), kind: None })
    }

    /// The message with its "msg" (where a string) as the error message, where it is JSON.
    pub open spec fn websocket_error_response(&self, t: WebSocketText, r: Response) -> bool {
        r matches Response::WebSocketErrorResponse(e) && e.url == t.url && e.text == t.text && e.json_payload
            == t.json_payload && e.payload_summary == t.payload_summary && e.error_code == t.error_code
            && match t.json_payload {
            Some(j) => opt_view(e.error_message) == (match spec_get(j, "msg"@) {
                Some(m) => spec_as_str(m),
                None => None,
            }),
            None => e.error_message == t.error_message,
        }
    }

    pub fn create_websocket_error_response(&self, websocket_text: WebSocketText) -> (r: Response)
        ensures
            self.websocket_error_response(websocket_text, r),
    {
        let mut t = websocket_text;
        match &t.json_payload {
            Some(j) => {
                t.error_message = str_member(j, "msg");
            },
            None => {},
        }
        Response::WebSocketErrorResponse(t)
    }

    /// What a summarized message comes to: data of the stream's kind (None where it lacks
    /// what its conversion reads), an account event of another kind, the answer to a
    /// subscription or to the logon, or an error. None for data of no known stream, and
    /// for a success that answers neither.
    pub open spec fn handled(&self, t: WebSocketText, r: Option<Response>) -> bool {
        let stream = t.summary("stream"@);
        if spot_is_data(t) {
            if stream matches Some(s) && "bookTicker"@.is_suffix_of(s) {
                if binance_book_message_ok(t) { r matches Some(x) && self.top_of_book_data(t, x) } else { r is None }
            } else if stream matches Some(s) && "trade"@.is_suffix_of(s) {
                if binance_trade_message_ok(t) { r matches Some(x) && self.trade_data(t, x) } else { r is None }
            } else if t.summary("event.e"@) == Some("executionReport"@) {
                if t.json_payload matches Some(j) && spot_execution_report_ok(j) {
                    r matches Some(x) && self.order_data(t, x)
                } else {
                    r is None
                }
            } else if t.summary("event.e"@) is Some {
                r matches Some(Response::Unneeded(u)) && u == t
            } else {
                r is None
            }
        } else if spot_is_success(t) {
            if t.json_payload is None {
                r is None
            } else if spot_is_subscribe_answer(t) {
                r matches Some(x) && self.subscribe_response(t, x)
            } else if t.summary("api_key"@) is Some {
                r == Some(Response::Authenticate(AuthenticateResponse { id: message_id(t.json_payload->0) }))
            } else {
                r is None
            }
        } else {
            r matches Some(x) && self.websocket_error_response(t, x)
        }
    }

    /// A message as it was read (its text parsed as JSON where it is JSON, its summary
    /// empty), summarized and then classified.
    pub fn handle_websocket_text(&self, websocket_text: WebSocketText) -> (r: Option<Response>)
        ensures
            exists|t: WebSocketText| #[trigger] self.summarized(websocket_text, t) && self.handled(t, r),
    {
        let mut websocket_text = websocket_text;
        self.populate_websocket_text_payload_summary(&mut websocket_text);
        let has_stream = websocket_text.payload_summary.get("stream").is_some();
        let has_event = websocket_text.payload_summary.get("event.e").is_some();
        let status_ok = websocket_text.summary_is("status", "200");
        let subscribed = websocket_text.payload_summary.get("result_null").is_some()
            && websocket_text.payload_summary.get("error").is_none();
        let has_api_key = websocket_text.payload_summary.get("api_key").is_some();
        let has_subscription_id = websocket_text.payload_summary.get("subscription_id").is_some();
        if has_stream || has_event {
            let stream = websocket_text.summary_or_empty("stream");
            if has_stream && ends_with_text(stream.as_str(), "bookTicker") {
                if book_message_ok(&websocket_text) {
                    Some(self.create_subscribe_top_of_book_websocket_subscription_data(&websocket_text))
                } else {
                    None
                }
            } else if has_stream && ends_with_text(stream.as_str(), "trade") {
                if trade_message_ok(&websocket_text) {
                    Some(self.create_subscribe_trade_websocket_subscription_data(&websocket_text))
                } else {
                    None
                }
            } else if websocket_text.summary_is("event.e", "executionReport") {
                if execution_report_ok(&websocket_text) {
                    Some(self.create_subscribe_order_websocket_subscription_data(&websocket_text))
                } else {
                    None
                }
            } else if has_event {
                Some(Response::Unneeded(websocket_text))
            } else {
                None
            }
        } else if status_ok || subscribed {
            if websocket_text.json_payload.is_none() {
                None
            } else if (subscribed && !has_api_key) || (status_ok && has_subscription_id) {
                Some(self.create_subscribe_websocket_response(&websocket_text))
            } else if has_api_key {
                Some(self.create_authenticate_websocket_response(&websocket_text))
            } else {
                None
            }
        } else {
            let ghost t = websocket_text;
            let e = self.create_websocket_error_response(websocket_text);
            assert(self.handled(t, Some(e)));
            Some(e)
        }
    }
}

fn execution_report_ok(t: &WebSocketText) -> (r: bool)
    ensures
        r == (t.json_payload matches Some(j) && spot_execution_report_ok(j)),
{
    let j = match &t.json_payload {
        Some(j) => j,
        None => return false,
    };
    let null = JsonValue::Null;
    let e: &JsonValue = match j.at("event") {
        Some(e) => e,
        None => &null,
    };
    let id_ok = match e.at("i") {
        Some(v) => v.as_u64().is_some(),
        None => false,
    };
    e.has_str("s") && id_ok && e.has_str("c") && e.has_str("o") && e.has_str("S") && e.has_str("p")
        && e.has_str("q") && e.has_str("z") && e.has_str("X") && e.has_str("L") && e.has_str("l")
        && e.has_str("Z")
}

} // verus!
