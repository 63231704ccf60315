//! Coinbase Exchange's websocket feed: subscriptions and the messages it sends.

use vstd::prelude::*;
use crate::exchange_client::common::{
    AuthenticateResponse, HeartbeatResponse, OrderSubscriptionData, Response, SubscribeOrderRequest,
    SubscribeResponse, SubscribeTopOfBookRequest, SubscribeTradeRequest, TopOfBookSubscriptionData,
    TradeSubscriptionData,
};
use crate::exchanges::coinbase::common::{
    coinbase_subscribe_text, coinbase_subscription, coinbase_user_order_matches, is_user_order_message, opt_text,
    CoinbaseClient,
};
use crate::exchanges::coinbase::rest::rfc3339_time_matches;
use crate::json::{field_str, has_str, spec_as_str, spec_at, spec_get, str_or, text_of, JsonValue};
use crate::networking::http::opt_view;
use crate::networking::websocket::WebSocketText;
use crate::text::{str_eq, string_from};
use crate::time::{parse_rfc3339, rfc3339_instant, utc_now};
use crate::types::{ExchangeInstrumentType, ExchangeWebSocketEndpoint, TakerSide, Timestamp, TopOfBook, Trade, WebSocketEndpoint};

verus! {

/// The message types of subscription data.
pub open spec fn is_data_type(t: Option<Seq<char>>) -> bool {
    t == Some("ticker"@) || is_match_type(t) || is_order_type(t)
}

pub open spec fn is_match_type(t: Option<Seq<char>>) -> bool {
    t == Some("match"@) || t == Some("last_match"@)
}

pub open spec fn is_order_type(t: Option<Seq<char>>) -> bool {
    t == Some("received"@) || t == Some("open"@) || t == Some("done"@) || t == Some("change"@) || t == Some(
        "activate"@,
    )
}

/// Whether the summary names a user (taker or maker), as matches of the user's own orders do.
pub open spec fn has_user_ids(w: WebSocketText) -> bool {
    w.summary("taker_user_id"@) is Some || w.summary("maker_user_id"@) is Some
}

pub open spec fn coinbase_ticker_matches(b: TopOfBook, j: JsonValue) -> bool {
    &&& b.exchange_instrument_type == ExchangeInstrumentType::Coinbase
    &&& b.symbol@ == field_str(j, "product_id"@)
    &&& rfc3339_time_matches(b.timestamp, j)
    &&& b.bid_price@ == field_str(j, "best_bid"@)
    &&& b.bid_size@ == field_str(j, "best_bid_size"@)
    &&& b.ask_price@ == field_str(j, "best_ask"@)
    &&& b.ask_size@ == field_str(j, "best_ask_size"@)
}

/// What a match message must have: its product, its time as RFC 3339 text, price and size.
pub open spec fn coinbase_match_ok(j: JsonValue) -> bool {
    &&& has_str(j, "product_id"@)
    &&& spec_as_str(spec_at(j, "time"@)) matches Some(s) && rfc3339_instant(s) is Some
    &&& has_str(j, "price"@)
    &&& has_str(j, "size"@)
}

/// The taker's side: a match reports the maker's side, so a selling maker means a buying taker.
pub open spec fn coinbase_taker_side(maker_side: Seq<char>) -> TakerSide {
    if maker_side == "sell"@ { TakerSide::Buy } else { TakerSide::Sell }
}

pub open spec fn coinbase_trade_matches(t: Trade, j: JsonValue) -> bool {
    let instant = rfc3339_instant(field_str(j, "time"@))->0;
    &&& t.exchange_instrument_type == ExchangeInstrumentType::Coinbase
    &&& t.symbol@ == field_str(j, "product_id"@)
    &&& t.timestamp.seconds == instant.0 && t.timestamp.nanoseconds == instant.1
    &&& t.price@ == field_str(j, "price"@)
    &&& t.size@ == field_str(j, "size"@)
    &&& t.side == coinbase_taker_side(field_str(j, "side"@))
}

impl CoinbaseClient {
    /// The URL of the market-data or account-data endpoint.
    pub fn websocket_api_url(&self, endpoint: WebSocketEndpoint) -> (r: String)
        requires
            endpoint == WebSocketEndpoint::Coinbase(ExchangeWebSocketEndpoint::MarketData)
                || endpoint == WebSocketEndpoint::Coinbase(ExchangeWebSocketEndpoint::AccountData),
        ensures
            endpoint == WebSocketEndpoint::Coinbase(ExchangeWebSocketEndpoint::MarketData) ==> r
                == self.websocket_market_data_api_url,
            endpoint == WebSocketEndpoint::Coinbase(ExchangeWebSocketEndpoint::AccountData) ==> r
                == self.websocket_account_data_api_url,
    {
        match endpoint {
            WebSocketEndpoint::Coinbase(ExchangeWebSocketEndpoint::MarketData) => self.websocket_market_data_api_url.clone(),
            _ => self.websocket_account_data_api_url.clone(),
        }
    }

    /// Nothing: the feed authenticates within the subscription.
    pub fn create_authenticate_websocket_request(&self) -> (r: String)
        ensures
            r@.len() == 0,
    {
        String::new()
    }

    /// Nothing: the feed needs no heartbeat.
    pub fn create_heartbeat_websocket_request(&self) -> (r: String)
        ensures
            r@.len() == 0,
    {
        String::new()
    }

    /// Subscribes to the "ticker" channel of the symbols.
    pub fn create_subscribe_top_of_book_websocket_request(&self, request: &SubscribeTopOfBookRequest) -> (r: String)
        ensures
            r@ == coinbase_subscribe_text("ticker"@, request.symbols@, Seq::empty()),
    {
        let m = self.build_subscribe_message_at("ticker", &request.symbols, false, 0);
        m.unwrap()
    }

    /// Subscribes to the "matches" channel of the symbols.
    pub fn create_subscribe_trade_websocket_request(&self, request: &SubscribeTradeRequest) -> (r: String)
        ensures
            r@ == coinbase_subscribe_text("matches"@, request.symbols@, Seq::empty()),
    {
        let m = self.build_subscribe_message_at("matches", &request.symbols, false, 0);
        m.unwrap()
    }

    /// Subscribes to the "user" channel of the symbols, signed at the current time; none
    /// where the credential's secret is not base64.
    pub fn create_subscribe_order_websocket_request(&self, request: &SubscribeOrderRequest) -> (r: Option<String>)
        ensures
            exists|seconds: int| opt_text(r) == #[trigger] coinbase_subscription(
                self.credential,
                "user"@,
                request.symbols@,
                true,
                seconds,
            ),
    {
        self.build_subscribe_message("user", &request.symbols, true)
    }

    /// The message with its "type", "taker_user_id" and "maker_user_id" (strings as they are, other values as JSON text) in its summary.
    pub open spec fn summarized(&self, o: WebSocketText, n: WebSocketText) -> bool {
        &&& n.url == o.url
        &&& n.text == o.text
        &&& n.json_payload == o.json_payload
        &&& n.error_code == o.error_code
        &&& n.error_message == o.error_message
        &&& match o.json_payload {
                Some(j) => {
                    &&& n.summary("type"@) == match spec_get(j, "type"@) {
                        Some(v) => Some(text_of(v)),
                        None => o.summary("type"@),
                    }
                    &&& n.summary("taker_user_id"@) == match spec_get(j, "taker_user_id"@) {
                        Some(v) => Some(text_of(v)),
                        None => o.summary("taker_user_id"@),
                    }
                    &&& n.summary("maker_user_id"@) == match spec_get(j, "maker_user_id"@) {
                        Some(v) => Some(text_of(v)),
                        None => o.summary("maker_user_id"@),
                    }
                    &&& forall|k: Seq<char>| k != "type"@ && k != "taker_user_id"@ && k != "maker_user_id"@
                        ==> n.summary(k) == o.summary(k)
                },
                None => n.payload_summary == o.payload_summary,
            }
    }

    /// Records the message's "type", "taker_user_id" and "maker_user_id" (strings as they
    /// are, other values as JSON text).
    pub fn populate_websocket_text_payload_summary(&self, websocket_text: &mut WebSocketText)
        ensures
            self.summarized(*old(websocket_text), *final(websocket_text)),
    {
        proof {
            reveal_strlit("type");
            reveal_strlit("taker_user_id");
            reveal_strlit("maker_user_id");
            assert("type"@.len() == 4);
            assert("taker_user_id"@.len() == 13 && "maker_user_id"@.len() == 13);
            assert("taker_user_id"@[0] != "maker_user_id"@[0]);
        }
        let (type_text, taker, maker) = match &websocket_text.json_payload {
            Some(j) => (
                match j.get("type") {
                    Some(v) => Some(v.text_of()),
                    None => None,
                },
                match j.get("taker_user_id") {
                    Some(v) => Some(v.text_of()),
                    None => None,
                },
                match j.get("maker_user_id") {
                    Some(v) => Some(v.text_of()),
                    None => None,
                },
            ),
            None => (None, None, None),
        };
        match type_text {
            Some(v) => websocket_text.payload_summary.insert(string_from("type"), v),
            None => {},
        }
        match taker {
            Some(v) => websocket_text.payload_summary.insert(string_from("taker_user_id"), v),
            None => {},
        }
        match maker {
            Some(v) => websocket_text.payload_summary.insert(string_from("maker_user_id"), v),
            None => {},
        }
    }

    fn type_is_match(&self, websocket_text: &WebSocketText) -> (r: bool)
        ensures
            r == is_match_type(websocket_text.summary("type"@)),
    {
        websocket_text.summary_is("type", "match") || websocket_text.summary_is("type", "last_match")
    }

    fn type_is_order(&self, websocket_text: &WebSocketText) -> (r: bool)
        ensures
            r == is_order_type(websocket_text.summary("type"@)),
    {
        websocket_text.summary_is("type", "received") || websocket_text.summary_is("type", "open")
            || websocket_text.summary_is("type", "done") || websocket_text.summary_is("type", "change")
            || websocket_text.summary_is("type", "activate")
    }

    fn names_user(&self, websocket_text: &WebSocketText) -> (r: bool)
        ensures
            r == has_user_ids(*websocket_text),
    {
        websocket_text.payload_summary.get("taker_user_id").is_some() || websocket_text.payload_summary.get(
            "maker_user_id",
        ).is_some()
    }

    /// What a summarized message comes to: a ticker, a public match, a user-channel
    /// order, the subscriptions' acknowledgement, or an error. None for a message whose
    /// conversion would fail: a match whose time does not read, or a user-channel message
    /// that describes no order.
    pub open spec fn handled(&self, t: WebSocketText, r: Option<Response>) -> bool {
        let ty = t.summary("type"@);
        if is_data_type(ty) {
            if ty == Some("ticker"@) {
                if t.json_payload is Some { r matches Some(x) && self.top_of_book_data(t, x) } else { r is None }
            } else if is_match_type(ty) && !has_user_ids(t) {
                if t.json_payload matches Some(j) && coinbase_match_ok(j) {
                    r matches Some(Response::TradeSubscription(d)) && d.data@.len() == 1 && coinbase_trade_matches(
                        d.data@[0],
                        t.json_payload->0,
                    )
                } else {
                    r is None
                }
            } else {
                if t.json_payload matches Some(j) && is_user_order_message(j) {
                    r matches Some(x) && self.order_data(t, x)
                } else {
                    r is None
                }
            }
        } else if ty == Some("subscriptions"@) {
            r matches Some(Response::Subscribe(s)) && s.id is None && s.symbols@.len() == 0 && s.kind is None
        } else {
            r matches Some(x) && self.websocket_error_response(t, x)
        }
    }

    /// A message as it was read (its text parsed as JSON where it is JSON, its summary
    /// empty), summarized and then classified. None for a message whose conversion would
    /// fail.
    pub fn handle_websocket_text(&self, websocket_text: WebSocketText) -> (r: Option<Response>)
        ensures
            exists|t: WebSocketText| #[trigger] self.summarized(websocket_text, t) && self.handled(t, r),
    {
        let mut websocket_text = websocket_text;
        self.populate_websocket_text_payload_summary(&mut websocket_text);
        if self.is_websocket_text_subscription_data(&websocket_text) {
            if self.is_websocket_text_top_of_book_subscription_data(&websocket_text) {
                if websocket_text.json_payload.is_some() {
                    Some(self.create_subscribe_top_of_book_websocket_subscription_data(&websocket_text))
                } else {
                    None
                }
            } else if self.is_websocket_text_trade_subscription_data(&websocket_text) {
                self.try_create_subscribe_trade_websocket_subscription_data(&websocket_text)
            } else if self.is_websocket_text_order_subscription_data(&websocket_text) {
                let ok = match &websocket_text.json_payload {
                    Some(j) => {
                        let ty = j.field_str("type");
                        str_eq(ty.as_str(), "received") || str_eq(ty.as_str(), "open") || str_eq(ty.as_str(), "done")
                            || str_eq(ty.as_str(), "change") || str_eq(ty.as_str(), "activate") || str_eq(
                            ty.as_str(),
                            "match",
                        )
                    },
                    None => false,
                };
                if ok {
                    Some(self.create_subscribe_order_websocket_subscription_data(&websocket_text))
                } else {
                    None
                }
            } else if self.is_websocket_text_fill_subscription_data(&websocket_text) {
                None
            } else if self.is_websocket_text_unneeded_subscription_data(&websocket_text) {
                Some(Response::Unneeded(websocket_text))
            } else {
                None
            }
        } else if self.is_websocket_text_success_response(&websocket_text) {
            if self.is_websocket_text_heartbeat_response(&websocket_text) {
                Some(self.create_heartbeat_websocket_response(&websocket_text))
            } else if self.is_websocket_text_subscribe_success_response(&websocket_text) {
                Some(self.create_subscribe_websocket_response(&websocket_text))
            } else if self.is_websocket_text_authenticate_success_response(&websocket_text) {
                Some(self.create_authenticate_websocket_response(&websocket_text))
            } else {
                None
            }
        } else {
            let ghost t = websocket_text;
            let e = self.create_websocket_error_response(websocket_text);
            assert(self.handled(t, Some(e)));
            Some(e)
        }
    }

    /// Tickers, matches, and the user channel's order messages.
    pub fn is_websocket_text_subscription_data(&self, websocket_text: &WebSocketText) -> (r: bool)
        ensures
            r == is_data_type(websocket_text.summary("type"@)),
    {
        websocket_text.summary_is("type", "ticker") || self.type_is_match(websocket_text) || self.type_is_order(
            websocket_text,
        )
    }

    pub fn is_websocket_text_top_of_book_subscription_data(&self, websocket_text: &WebSocketText) -> (r: bool)
        ensures
            r == (websocket_text.summary("type"@) == Some("ticker"@)),
    {
        websocket_text.summary_is("type", "ticker")
    }

    /// A public match: one that names no user.
    pub fn is_websocket_text_trade_subscription_data(&self, websocket_text: &WebSocketText) -> (r: bool)
        ensures
            r == (is_match_type(websocket_text.summary("type"@)) && !has_user_ids(*websocket_text)),
    {
        self.type_is_match(websocket_text) && !self.names_user(websocket_text)
    }

    /// An order message, or a match that names a user.
    pub fn is_websocket_text_order_subscription_data(&self, websocket_text: &WebSocketText) -> (r: bool)
        ensures
            r == (is_order_type(websocket_text.summary("type"@)) || (is_match_type(websocket_text.summary("type"@))
                && has_user_ids(*websocket_text))),
    {
        self.type_is_order(websocket_text) || (self.type_is_match(websocket_text) && self.names_user(websocket_text))
    }

    pub fn is_websocket_text_fill_subscription_data(&self, _websocket_text: &WebSocketText) -> (r: bool)
        ensures
            !r,
    {
        false
    }

    pub fn is_websocket_text_unneeded_subscription_data(&self, _websocket_text: &WebSocketText) -> (r: bool)
        ensures
            !r,
    {
        false
    }

    /// The ticker's best bid and ask.
    pub open spec fn top_of_book_data(&self, websocket_text: WebSocketText, r: Response) -> bool {
        &&& r matches Response::TopOfBookSubscription(d) && d.data@.len() == 1 && coinbase_ticker_matches(
                d.data@[0],
                websocket_text.json_payload->0,
            )
    }

    /// The ticker's best bid and ask.
    pub fn create_subscribe_top_of_book_websocket_subscription_data(&self, websocket_text: &WebSocketText) -> (r: Response)
        requires
            websocket_text.json_payload is Some,
        ensures
            self.top_of_book_data(*websocket_text, r),
    {
        let json = websocket_text.json_payload.as_ref().unwrap();
        let timestamp = match json.at("time") {
            Some(t) => match t.as_str() {
                Some(s) => match parse_rfc3339(s) {
                    Some(ts) => ts,
                    None => utc_now(),
                },
                None => utc_now(),
            },
            None => utc_now(),
        };
        let book = TopOfBook {
            exchange_instrument_type: ExchangeInstrumentType::Coinbase,
            symbol: json.field_str("product_id"),
            timestamp,
            bid_price: json.field_str("best_bid"),
            bid_size: json.field_str("best_bid_size"),
            ask_price: json.field_str("best_ask"),
            ask_size: json.field_str("best_ask_size"),
        };
        let mut data: Vec<TopOfBook> = Vec::new();
        data.push(book);
        Response::TopOfBookSubscription(TopOfBookSubscriptionData { data })
    }

    /// The trade of a match, at the time it gives.
    pub fn create_subscribe_trade_websocket_subscription_data(&self, websocket_text: &WebSocketText) -> (r: Response)
        requires
            websocket_text.json_payload matches Some(j) && coinbase_match_ok(j),
        ensures
            r matches Response::TradeSubscription(d) && d.data@.len() == 1 && coinbase_trade_matches(
                d.data@[0],
                websocket_text.json_payload->0,
            ),
    {
        let json = websocket_text.json_payload.as_ref().unwrap();
        let time = json.required_str("time");
        let timestamp = parse_rfc3339(time.as_str()).unwrap();
        let maker_side = json.field_str("side");
        let side = if str_eq(maker_side.as_str(), "sell") { TakerSide::Buy } else { TakerSide::Sell };
        let trade = Trade {
            exchange_instrument_type: ExchangeInstrumentType::Coinbase,
            symbol: json.required_str("product_id"),
            timestamp,
            price: json.required_str("price"),
            size: json.required_str("size"),
            side,
        };
        let mut data: Vec<Trade> = Vec::new();
        data.push(trade);
        Response::TradeSubscription(TradeSubscriptionData { data })
    }

    /// The trade of a match where it has everything that takes; none otherwise.
    pub fn try_create_subscribe_trade_websocket_subscription_data(&self, websocket_text: &WebSocketText) -> (r: Option<Response>)
        ensures
            (websocket_text.json_payload matches Some(j) && coinbase_match_ok(j)) <==> r is Some,
            r matches Some(resp) ==> (resp matches Response::TradeSubscription(d) && d.data@.len() == 1
                && coinbase_trade_matches(d.data@[0], websocket_text.json_payload->0)),
    {
        let json = match &websocket_text.json_payload {
            Some(j) => j,
            None => return None,
        };
        let time_ok = match json.at("time") {
            Some(t) => match t.as_str() {
                Some(s) => parse_rfc3339(s).is_some(),
                None => false,
            },
            None => false,
        };
        let ok = time_ok && json.at("product_id").is_some() && json.at("product_id").unwrap().as_str().is_some()
            && json.at("price").is_some() && json.at("price").unwrap().as_str().is_some()
            && json.at("size").is_some() && json.at("size").unwrap().as_str().is_some();
        if !ok {
            return None;
        }
        Some(self.create_subscribe_trade_websocket_subscription_data(websocket_text))
    }

    /// The order that a user-channel message describes.
    pub open spec fn order_data(&self, websocket_text: WebSocketText, r: Response) -> bool {
        &&& r matches Response::OrderSubscription(d) && d.data@.len() == 1 && coinbase_user_order_matches(
                d.data@[0],
                websocket_text.json_payload->0,
            )
    }

    /// The order that a user-channel message describes.
    pub fn create_subscribe_order_websocket_subscription_data(&self, websocket_text: &WebSocketText) -> (r: Response)
        requires
            websocket_text.json_payload matches Some(j) && is_user_order_message(j),
        ensures
            self.order_data(*websocket_text, r),
    {
        let json = websocket_text.json_payload.as_ref().unwrap();
        let order = self.convert_ws_user_message_to_order(json);
        let mut data = Vec::new();
        data.push(order);
        Response::OrderSubscription(OrderSubscriptionData { data })
    }

    /// The acknowledgement of the subscriptions ("subscriptions").
    pub fn is_websocket_text_success_response(&self, websocket_text: &WebSocketText) -> (r: bool)
        ensures
            r == (websocket_text.summary("type"@) == Some("subscriptions"@)),
    {
        websocket_text.summary_is("type", "subscriptions")
    }

    pub fn is_websocket_text_authenticate_success_response(&self, _websocket_text: &WebSocketText) -> (r: bool)
        ensures
            !r,
    {
        false
    }

    pub fn is_websocket_text_subscribe_success_response(&self, websocket_text: &WebSocketText) -> (r: bool)
        ensures
            r == (websocket_text.summary("type"@) == Some("subscriptions"@)),
    {
        websocket_text.summary_is("type", "subscriptions")
    }

    pub fn is_websocket_text_heartbeat_response(&self, _websocket_text: &WebSocketText) -> (r: bool)
        ensures
            !r,
    {
        false
    }

    pub fn create_subscribe_websocket_response(&self, _websocket_text: &WebSocketText) -> (r: Response)
        ensures
            r matches Response::Subscribe(s) && s.id is None && s.symbols@.len() == 0 && s.kind is None,
    {
        Response::Subscribe(SubscribeResponse { id: None, symbols: Vec::new(), kind: None })
    }

    pub fn create_authenticate_websocket_response(&self, _websocket_text: &WebSocketText) -> (r: Response)
        ensures
            r matches Response::Authenticate(a) && a.id is None,
    {
        Response::Authenticate(AuthenticateResponse { id: None })
    }

    pub fn create_heartbeat_websocket_response(&self, _websocket_text: &WebSocketText) -> (r: Response)
        ensures
            r matches Response::Heartbeat(h) && h.id is None,
    {
        Response::Heartbeat(HeartbeatResponse { id: None })
    }

    /// The message with its "message" as the error message and its "reason" as the error code (where strings), where it is JSON.
    pub open spec fn websocket_error_response(&self, websocket_text: WebSocketText, r: Response) -> bool {
        &&& r matches Response::WebSocketErrorResponse(t) && t.url == websocket_text.url && t.text
                == websocket_text.text && t.json_payload == websocket_text.json_payload
                && t.payload_summary == websocket_text.payload_summary && match websocket_text.json_payload {
                Some(j) => opt_view(t.error_message) == (match spec_get(j, "message"@) {
                    Some(m) => spec_as_str(m),
                    None => None,
                }) && opt_view(t.error_code) == (match spec_get(j, "reason"@) {
                    Some(m) => spec_as_str(m),
                    None => None,
                }),
                None => t.error_code == websocket_text.error_code && t.error_message == websocket_text.error_message,
            }
    }

    /// The message with its "message" as the error message and its "reason" as the error
    /// code (where strings), where it is JSON.
    pub fn create_websocket_error_response(&self, websocket_text: WebSocketText) -> (r: Response)
        ensures
            self.websocket_error_response(websocket_text, r),
    {
        let mut t = websocket_text;
        match &t.json_payload {
            Some(j) => {
                let message = match j.get("message") {
                    Some(m) => match m.as_str() {
                        Some(s) => Some(string_from(s)),
                        None => None,
                    },
                    None => None,
                };
                let reason = match j.get("reason") {
                    Some(m) => match m.as_str() {
                        Some(s) => Some(string_from(s)),
                        None => None,
                    },
                    None => None,
                };
                t.error_message = message;
                t.error_code = reason;
            },
            None => {},
        }
        Response::WebSocketErrorResponse(t)
    }
}

} // verus!
