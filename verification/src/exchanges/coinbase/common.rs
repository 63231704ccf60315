//! The Coinbase client: its settings, how it reads orders and balances, and how it signs
//! and words its websocket subscriptions.

use vstd::prelude::*;
use crate::exchange_client::common::Common;
use vstd::utf8::encode_utf8;
use crate::json::{field_str, prefixed_strings_text, quoted, str_or, spec_at, write_prefixed_strings, write_quoted, JsonValue};
use crate::signing::{base64_decode, base64_encode, base64_standard, base64_standard_decoded, hmac_sha256_crate_tag, hmac_sha256_single};
use crate::text::{i64_to_string, int_text, push_str, str_eq, string_from};
use crate::time::utc_now;
use crate::types::{Balance, Exchange, ExchangeInstrumentType, Order, OrderSide, OrderStatus, OrderType};

verus! {

#[derive(Debug, Clone)]
pub struct CoinbaseCredential {
    pub api_key: String,
    pub api_secret: String,
    pub api_passphrase: String,
}

pub struct CoinbaseClient {
    pub rest_api_base_url: String,
    pub websocket_market_data_api_url: String,
    pub websocket_account_data_api_url: String,
    pub credential: Option<CoinbaseCredential>,
}

pub open spec fn coinbase_side_text(side: OrderSide) -> Seq<char> {
    if side == OrderSide::Buy { "buy"@ } else { "sell"@ }
}

pub open spec fn coinbase_side_of(s: Seq<char>) -> OrderSide {
    if s == "buy"@ { OrderSide::Buy } else if s == "sell"@ { OrderSide::Sell } else { OrderSide::Unknown }
}

pub open spec fn coinbase_order_type_text(t: OrderType) -> Seq<char> {
    if t == OrderType::Market { "market"@ } else { "limit"@ }
}

pub open spec fn coinbase_order_type_of(s: Seq<char>) -> OrderType {
    if s == "market"@ { OrderType::Market } else if s == "limit"@ { OrderType::Limit } else { OrderType::Unknown }
}

pub open spec fn coinbase_status_of(s: Seq<char>) -> OrderStatus {
    if s == "open"@ || s == "pending"@ || s == "received"@ || s == "active"@ {
        OrderStatus::Placed
    } else if s == "done"@ {
        OrderStatus::Filled
    } else if s == "rejected"@ {
        OrderStatus::Rejected
    } else {
        OrderStatus::Unknown
    }
}

/// An order read from one of Coinbase's order documents.
pub open spec fn coinbase_order_matches(r: Order, v: JsonValue) -> bool {
    &&& r.exchange_instrument_type == ExchangeInstrumentType::Coinbase
    &&& r.symbol@ == field_str(v, "product_id"@)
    &&& r.order_id@ == field_str(v, "id"@)
    &&& r.client_order_id@ == field_str(v, "client_oid"@)
    &&& r.order_type == coinbase_order_type_of(field_str(v, "type"@))
    &&& r.side == coinbase_side_of(field_str(v, "side"@))
    &&& r.price@ == field_str(v, "price"@)
    &&& r.quantity@ == field_str(v, "size"@)
    &&& r.cumulative_filled_quantity@ == field_str(v, "filled_size"@)
    &&& r.cumulative_filled_quote_quantity@ == field_str(v, "executed_value"@)
    &&& r.status == coinbase_status_of(field_str(v, "status"@))
    &&& r.leverage@.len() == 0
    &&& r.remaining_quantity@.len() == 0
    &&& r.average_filled_price@.len() == 0
    &&& r.fill_price@.len() == 0
    &&& r.fill_quantity@.len() == 0
    &&& r.fill_quote_quantity@.len() == 0
    &&& !r.fill_is_maker
}

pub open spec fn coinbase_balance_matches(b: Balance, v: JsonValue) -> bool {
    &&& b.exchange == Exchange::Coinbase
    &&& b.asset@ == field_str(v, "currency"@)
    &&& b.quantity@ == field_str(v, "balance"@)
}

/// The type of a user-channel message ("" where it has none).
pub open spec fn message_type(v: JsonValue) -> Seq<char> {
    field_str(v, "type"@)
}

/// The user-channel messages that describe an order.
pub open spec fn is_user_order_message(v: JsonValue) -> bool {
    let t = message_type(v);
    t == "received"@ || t == "open"@ || t == "done"@ || t == "change"@ || t == "activate"@ || t == "match"@
}

/// The status of a finished order by its reason.
pub open spec fn done_status(reason: Seq<char>) -> OrderStatus {
    if reason == "filled"@ {
        OrderStatus::Filled
    } else if reason == "canceled"@ {
        OrderStatus::Canceled
    } else {
        OrderStatus::Unknown
    }
}

/// The user's order in a match: the taker's where the user is the taker, else the maker's.
pub open spec fn match_order_id(v: JsonValue) -> Seq<char> {
    if field_str(v, "user_id"@) == field_str(v, "taker_user_id"@) {
        field_str(v, "taker_order_id"@)
    } else {
        field_str(v, "maker_order_id"@)
    }
}

/// The order a user-channel message describes. Every kind names the product, the order
/// (for a match, the user's side of it) and the side; the rest depends on the kind.
pub open spec fn coinbase_user_order_matches(r: Order, v: JsonValue) -> bool {
    let t = message_type(v);
    &&& r.exchange_instrument_type == ExchangeInstrumentType::Coinbase
    &&& r.symbol@ == field_str(v, "product_id"@)
    &&& r.order_id@ == if t == "match"@ { match_order_id(v) } else { field_str(v, "order_id"@) }
    &&& r.side == coinbase_side_of(field_str(v, "side"@))
    &&& r.client_order_id@ == if t == "received"@ { field_str(v, "client_oid"@) } else { Seq::empty() }
    &&& r.order_type == if t == "received"@ { coinbase_order_type_of(field_str(v, "order_type"@)) } else { OrderType::Unknown }
    &&& r.price@ == if t == "received"@ || t == "open"@ || t == "done"@ || t == "change"@ {
        field_str(v, "price"@)
    } else {
        Seq::empty()
    }
    &&& r.quantity@ == if t == "received"@ || t == "activate"@ {
        field_str(v, "size"@)
    } else if t == "change"@ {
        field_str(v, "new_size"@)
    } else {
        Seq::empty()
    }
    &&& r.remaining_quantity@ == if t == "open"@ || t == "done"@ { field_str(v, "remaining_size"@) } else { Seq::empty() }
    &&& r.fill_price@ == if t == "match"@ { field_str(v, "price"@) } else { Seq::empty() }
    &&& r.fill_quantity@ == if t == "match"@ { field_str(v, "size"@) } else { Seq::empty() }
    &&& r.status == if t == "received"@ || t == "activate"@ {
        OrderStatus::Placed
    } else if t == "open"@ {
        OrderStatus::Open
    } else if t == "done"@ {
        done_status(field_str(v, "reason"@))
    } else if t == "change"@ {
        OrderStatus::Unknown
    } else {
        OrderStatus::Filled
    }
    &&& r.leverage@.len() == 0
    &&& r.cumulative_filled_quantity@.len() == 0
    &&& r.cumulative_filled_quote_quantity@.len() == 0
    &&& r.average_filled_price@.len() == 0
    &&& r.fill_quote_quantity@.len() == 0
    &&& !r.fill_is_maker
}

/// What the subscription signature signs: the time and "GET/users/self/verify".
pub open spec fn coinbase_verify_message(timestamp: Seq<char>) -> Seq<char> {
    timestamp + "GET/users/self/verify"@
}

/// The subscription signature with a decoded secret: base64 of the HMAC-SHA256.
pub open spec fn coinbase_signature(key: Seq<u8>, message: Seq<char>) -> Seq<char> {
    base64_standard(hmac_sha256_crate_tag(key, encode_utf8(message)))
}

/// The secret's bytes: its text read as standard base64.
pub open spec fn coinbase_secret_key(c: CoinbaseCredential) -> Option<Seq<u8>> {
    base64_standard_decoded(encode_utf8(c.api_secret@))
}

/// `{"channels":[{"name":<channel>,"product_ids":[..]}],` then the authentication members
/// where there are any, then `"type":"subscribe"}`.
pub open spec fn coinbase_subscribe_text(channel: Seq<char>, product_ids: Seq<String>, auth: Seq<char>) -> Seq<char> {
    "{\"channels\":[{\"name\":"@ + quoted(channel) + ",\"product_ids\":["@ + prefixed_strings_text(Seq::empty(), product_ids)
        + "]}]"@ + auth + ",\"type\":\"subscribe\"}"@
}

/// `,"key":..,"passphrase":..,"signature":..,"timestamp":..`.
pub open spec fn coinbase_auth_members(c: CoinbaseCredential, signature: Seq<char>, timestamp: Seq<char>) -> Seq<char> {
    ",\"key\":"@ + quoted(c.api_key@) + ",\"passphrase\":"@ + quoted(c.api_passphrase@) + ",\"signature\":"@
        + quoted(signature) + ",\"timestamp\":"@ + quoted(timestamp)
}

/// The subscription a client words at a time (whole seconds): signed where authentication
/// is asked for and there is a credential; none where that credential's secret is not base64.
pub open spec fn coinbase_subscription(
    credential: Option<CoinbaseCredential>,
    channel: Seq<char>,
    product_ids: Seq<String>,
    with_auth: bool,
    seconds: int,
) -> Option<Seq<char>> {
    if with_auth && credential is Some {
        let c = credential->0;
        let ts = int_text(seconds);
        match coinbase_secret_key(c) {
            Some(key) => Some(coinbase_subscribe_text(
                channel,
                product_ids,
                coinbase_auth_members(c, coinbase_signature(key, coinbase_verify_message(ts)), ts),
            )),
            None => None,
        }
    } else {
        Some(coinbase_subscribe_text(channel, product_ids, Seq::empty()))
    }
}

impl CoinbaseClient {
    pub fn builder() -> (r: CoinbaseClientBuilder)
        ensures
            r.rest_api_base_url is None,
            r.websocket_market_data_api_url is None,
            r.websocket_account_data_api_url is None,
            r.credential is None,
    {
        CoinbaseClientBuilder {
            rest_api_base_url: None,
            websocket_market_data_api_url: None,
            websocket_account_data_api_url: None,
            credential: None,
        }
    }

    pub fn convert_order_side_to_string(&self, side: OrderSide) -> (r: &'static str)
        requires
            side != OrderSide::Unknown,
        ensures
            r@ == coinbase_side_text(side),
    {
        match side {
            OrderSide::Buy => "buy",
            _ => "sell",
        }
    }

    pub fn convert_string_to_order_side(&self, s: &str) -> (r: OrderSide)
        ensures
            r == coinbase_side_of(s@),
    {
        if str_eq(s, "buy") { OrderSide::Buy } else if str_eq(s, "sell") { OrderSide::Sell } else { OrderSide::Unknown }
    }

    pub fn convert_order_type_to_string(&self, order_type: OrderType) -> (r: &'static str)
        requires
            order_type != OrderType::Unknown,
        ensures
            r@ == coinbase_order_type_text(order_type),
    {
        match order_type {
            OrderType::Market => "market",
            _ => "limit",
        }
    }

    pub fn convert_string_to_order_type(&self, s: &str) -> (r: OrderType)
        ensures
            r == coinbase_order_type_of(s@),
    {
        if str_eq(s, "market") { OrderType::Market } else if str_eq(s, "limit") { OrderType::Limit } else { OrderType::Unknown }
    }

    pub fn convert_string_to_order_status(&self, s: &str) -> (r: OrderStatus)
        ensures
            r == coinbase_status_of(s@),
    {
        if str_eq(s, "open") || str_eq(s, "pending") || str_eq(s, "received") || str_eq(s, "active") {
            OrderStatus::Placed
        } else if str_eq(s, "done") {
            OrderStatus::Filled
        } else if str_eq(s, "rejected") {
            OrderStatus::Rejected
        } else {
            OrderStatus::Unknown
        }
    }

    pub fn convert_json_value_to_order(&self, json_value: &JsonValue) -> (r: Order)
        ensures
            coinbase_order_matches(r, *json_value),
    {
        let order_type = json_value.field_str("type");
        let side = json_value.field_str("side");
        let status = json_value.field_str("status");
        Order {
            exchange_instrument_type: ExchangeInstrumentType::Coinbase,
            symbol: json_value.field_str("product_id"),
            order_id: json_value.field_str("id"),
            client_order_id: json_value.field_str("client_oid"),
            order_type: self.convert_string_to_order_type(order_type.as_str()),
            side: self.convert_string_to_order_side(side.as_str()),
            price: json_value.field_str("price"),
            quantity: json_value.field_str("size"),
            leverage: String::new(),
            remaining_quantity: String::new(),
            cumulative_filled_quantity: json_value.field_str("filled_size"),
            cumulative_filled_quote_quantity: json_value.field_str("executed_value"),
            average_filled_price: String::new(),
            status: self.convert_string_to_order_status(status.as_str()),
            fill_price: String::new(),
            fill_quantity: String::new(),
            fill_quote_quantity: String::new(),
            fill_is_maker: false,
        }
    }

    pub fn convert_json_value_to_balance(&self, json_value: &JsonValue) -> (r: Balance)
        ensures
            coinbase_balance_matches(r, *json_value),
    {
        Balance {
            exchange: Exchange::Coinbase,
            asset: json_value.field_str("currency"),
            quantity: json_value.field_str("balance"),
        }
    }

    /// The subscription signature at a time: the HMAC-SHA256 (keyed with the secret read as
    /// base64) of the time and "GET/users/self/verify", in base64; none where the secret is
    /// not base64.
    fn sign_websocket_subscribe(&self, timestamp: &str) -> (r: Option<String>)
        requires
            self.credential is Some,
        ensures
            match coinbase_secret_key(self.credential->0) {
                Some(key) => r matches Some(s) && s@ == coinbase_signature(key, coinbase_verify_message(timestamp@)),
                None => r is None,
            },
    {
        let c = self.credential.as_ref().unwrap();
        let mut message = string_from(timestamp);
        push_str(&mut message, "GET/users/self/verify");
        let key = match base64_decode(c.api_secret.as_str().as_bytes()) {
            Some(k) => k,
            None => return None,
        };
        let tag = hmac_sha256_single(key.as_slice(), message.as_str().as_bytes());
        Some(base64_encode(tag.as_slice()))
    }

    /// The subscription to a channel for the products at a time (whole seconds), signed
    /// where authentication is asked for and there is a credential.
    pub fn build_subscribe_message_at(&self, channel: &str, product_ids: &Vec<String>, with_auth: bool, seconds: i64) -> (r: Option<String>)
        ensures
            opt_text(r) == coinbase_subscription(self.credential, channel@, product_ids@, with_auth, seconds as int),
    {
        let mut s = string_from("{\"channels\":[{\"name\":");
        write_quoted(channel, &mut s);
        push_str(&mut s, ",\"product_ids\":[");
        write_prefixed_strings(&mut s, "", product_ids);
        push_str(&mut s, "]}]");
        proof {
            reveal_strlit("");
            assert(""@ =~= Seq::<char>::empty());
        }
        if with_auth && self.credential.is_some() {
            let c = self.credential.as_ref().unwrap();
            let timestamp = i64_to_string(seconds);
            let signature = match self.sign_websocket_subscribe(timestamp.as_str()) {
                Some(sig) => sig,
                None => return None,
            };
            push_str(&mut s, ",\"key\":");
            write_quoted(c.api_key.as_str(), &mut s);
            push_str(&mut s, ",\"passphrase\":");
            write_quoted(c.api_passphrase.as_str(), &mut s);
            push_str(&mut s, ",\"signature\":");
            write_quoted(signature.as_str(), &mut s);
            push_str(&mut s, ",\"timestamp\":");
            write_quoted(timestamp.as_str(), &mut s);
        }
        push_str(&mut s, ",\"type\":\"subscribe\"}");
        Some(s)
    }

    /// The subscription, signed (where asked for) at the current time.
    pub fn build_subscribe_message(&self, channel: &str, product_ids: &Vec<String>, with_auth: bool) -> (r: Option<String>)
        ensures
            exists|seconds: int| opt_text(r) == #[trigger] coinbase_subscription(
                self.credential,
                channel@,
                product_ids@,
                with_auth,
                seconds,
            ),
    {
        let now = utc_now();
        let r = self.build_subscribe_message_at(channel, product_ids, with_auth, now.seconds);
        assert(opt_text(r) == coinbase_subscription(self.credential, channel@, product_ids@, with_auth, now.seconds as int));
        r
    }

    /// A new client order id: a random version-4 UUID, hyphenated (36 characters); none
    /// where the system's random source fails.
    pub fn generate_next_client_order_id(&self) -> (r: Option<String>)
        ensures
            r matches Some(u) ==> u@.len() == 36 && exists|b: Seq<u8>| b.len() == 16 && u@
                == #[trigger] crate::signing::uuid_v4_text(b),
    {
        crate::signing::new_uuid_v4()
    }

    /// The order that a user-channel message describes.
    pub fn convert_ws_user_message_to_order(&self, json_value: &JsonValue) -> (r: Order)
        requires
            is_user_order_message(*json_value),
        ensures
            coinbase_user_order_matches(r, *json_value),
    {
        proof {
            reveal_strlit("received");
            reveal_strlit("open");
            reveal_strlit("done");
            reveal_strlit("change");
            reveal_strlit("activate");
            reveal_strlit("match");
            assert("received"@.len() == 8 && "activate"@.len() == 8 && "received"@[0] != "activate"@[0]);
            assert("open"@.len() == 4 && "done"@.len() == 4 && "open"@[0] != "done"@[0]);
            assert("change"@.len() == 6 && "match"@.len() == 5);
        }
        let msg_type = json_value.field_str("type");
        let t = msg_type.as_str();
        let symbol = json_value.field_str("product_id");
        let side_text = json_value.field_str("side");
        let side = self.convert_string_to_order_side(side_text.as_str());
        if str_eq(t, "received") {
            let order_type = json_value.field_str("order_type");
            Order {
                exchange_instrument_type: ExchangeInstrumentType::Coinbase,
                symbol,
                order_id: json_value.field_str("order_id"),
                client_order_id: json_value.field_str("client_oid"),
                order_type: self.convert_string_to_order_type(order_type.as_str()),
                side,
                price: json_value.field_str("price"),
                quantity: json_value.field_str("size"),
                leverage: String::new(),
                remaining_quantity: String::new(),
                cumulative_filled_quantity: String::new(),
                cumulative_filled_quote_quantity: String::new(),
                average_filled_price: String::new(),
                status: OrderStatus::Placed,
                fill_price: String::new(),
                fill_quantity: String::new(),
                fill_quote_quantity: String::new(),
                fill_is_maker: false,
            }
        } else if str_eq(t, "open") || str_eq(t, "done") {
            let status = if str_eq(t, "open") {
                OrderStatus::Open
            } else {
                let reason = json_value.field_str("reason");
                if str_eq(reason.as_str(), "filled") {
                    OrderStatus::Filled
                } else if str_eq(reason.as_str(), "canceled") {
                    OrderStatus::Canceled
                } else {
                    OrderStatus::Unknown
                }
            };
            Order {
                exchange_instrument_type: ExchangeInstrumentType::Coinbase,
                symbol,
                order_id: json_value.field_str("order_id"),
                client_order_id: String::new(),
                order_type: OrderType::Unknown,
                side,
                price: json_value.field_str("price"),
                quantity: String::new(),
                leverage: String::new(),
                remaining_quantity: json_value.field_str("remaining_size"),
                cumulative_filled_quantity: String::new(),
                cumulative_filled_quote_quantity: String::new(),
                average_filled_price: String::new(),
                status,
                fill_price: String::new(),
                fill_quantity: String::new(),
                fill_quote_quantity: String::new(),
                fill_is_maker: false,
            }
        } else if str_eq(t, "change") {
            Order {
                exchange_instrument_type: ExchangeInstrumentType::Coinbase,
                symbol,
                order_id: json_value.field_str("order_id"),
                client_order_id: String::new(),
                order_type: OrderType::Unknown,
                side,
                price: json_value.field_str("price"),
                quantity: json_value.field_str("new_size"),
                leverage: String::new(),
                remaining_quantity: String::new(),
                cumulative_filled_quantity: String::new(),
                cumulative_filled_quote_quantity: String::new(),
                average_filled_price: String::new(),
                status: OrderStatus::Unknown,
                fill_price: String::new(),
                fill_quantity: String::new(),
                fill_quote_quantity: String::new(),
                fill_is_maker: false,
            }
        } else if str_eq(t, "activate") {
            Order {
                exchange_instrument_type: ExchangeInstrumentType::Coinbase,
                symbol,
                order_id: json_value.field_str("order_id"),
                client_order_id: String::new(),
                order_type: OrderType::Unknown,
                side,
                price: String::new(),
                quantity: json_value.field_str("size"),
                leverage: String::new(),
                remaining_quantity: String::new(),
                cumulative_filled_quantity: String::new(),
                cumulative_filled_quote_quantity: String::new(),
                average_filled_price: String::new(),
                status: OrderStatus::Placed,
                fill_price: String::new(),
                fill_quantity: String::new(),
                fill_quote_quantity: String::new(),
                fill_is_maker: false,
            }
        } else {
            let user_id = json_value.field_str("user_id");
            let taker_user_id = json_value.field_str("taker_user_id");
            let order_id = if str_eq(user_id.as_str(), taker_user_id.as_str()) {
                json_value.field_str("taker_order_id")
            } else {
                json_value.field_str("maker_order_id")
            };
            Order {
                exchange_instrument_type: ExchangeInstrumentType::Coinbase,
                symbol,
                order_id,
                client_order_id: String::new(),
                order_type: OrderType::Unknown,
                side,
                price: String::new(),
                quantity: String::new(),
                leverage: String::new(),
                remaining_quantity: String::new(),
                cumulative_filled_quantity: String::new(),
                cumulative_filled_quote_quantity: String::new(),
                average_filled_price: String::new(),
                status: OrderStatus::Filled,
                fill_price: json_value.field_str("price"),
                fill_quantity: json_value.field_str("size"),
                fill_quote_quantity: String::new(),
                fill_is_maker: false,
            }
        }
    }
}

/// The text of an optional string, or empty.
pub open spec fn opt_text(s: Option<String>) -> Option<Seq<char>> {
    match s {
        Some(t) => Some(t@),
        None => None,
    }
}

#[derive(Debug, Clone)]
pub struct CoinbaseClientBuilder {
    pub rest_api_base_url: Option<String>,
    pub websocket_market_data_api_url: Option<String>,
    pub websocket_account_data_api_url: Option<String>,
    pub credential: Option<CoinbaseCredential>,
}

impl CoinbaseClientBuilder {
    pub fn rest_api_base_url(self, rest_api_base_url: String) -> (r: Self)
        ensures
            r == (CoinbaseClientBuilder { rest_api_base_url: Some(rest_api_base_url), ..self }),
    {
        CoinbaseClientBuilder { rest_api_base_url: Some(rest_api_base_url), ..self }
    }

    pub fn websocket_market_data_api_url(self, websocket_market_data_api_url: String) -> (r: Self)
        ensures
            r == (CoinbaseClientBuilder { websocket_market_data_api_url: Some(websocket_market_data_api_url), ..self }),
    {
        CoinbaseClientBuilder { websocket_market_data_api_url: Some(websocket_market_data_api_url), ..self }
    }

    pub fn websocket_account_data_api_url(self, websocket_account_data_api_url: String) -> (r: Self)
        ensures
            r == (CoinbaseClientBuilder { websocket_account_data_api_url: Some(websocket_account_data_api_url), ..self }),
    {
        CoinbaseClientBuilder { websocket_account_data_api_url: Some(websocket_account_data_api_url), ..self }
    }

    pub fn credential(self, credential: Option<CoinbaseCredential>) -> (r: Self)
        ensures
            r == (CoinbaseClientBuilder { credential, ..self }),
    {
        CoinbaseClientBuilder { credential, ..self }
    }

    /// The client, with Coinbase Exchange's public URLs where none were given.
    pub fn build(self) -> (r: CoinbaseClient)
        ensures
            r.rest_api_base_url@ == match self.rest_api_base_url {
                Some(u) => u@,
                None => "https://api.exchange.coinbase.com"@,
            },
            r.websocket_market_data_api_url@ == match self.websocket_market_data_api_url {
                Some(u) => u@,
                None => "wss://ws-feed.exchange.coinbase.com"@,
            },
            r.websocket_account_data_api_url@ == match self.websocket_account_data_api_url {
                Some(u) => u@,
                None => "wss://ws-feed.exchange.coinbase.com"@,
            },
            r.credential == self.credential,
    {
        CoinbaseClient {
            rest_api_base_url: match self.rest_api_base_url {
                Some(u) => u,
                None => string_from("https://api.exchange.coinbase.com"),
            },
            websocket_market_data_api_url: match self.websocket_market_data_api_url {
                Some(u) => u,
                None => string_from("wss://ws-feed.exchange.coinbase.com"),
            },
            websocket_account_data_api_url: match self.websocket_account_data_api_url {
                Some(u) => u,
                None => string_from("wss://ws-feed.exchange.coinbase.com"),
            },
            credential: self.credential,
        }
    }
}

/// No prefix in front of client order ids.
impl Common for CoinbaseClient {
    open spec fn client_order_id_prefix(&self) -> Seq<char> {
        Seq::empty()
    }

    fn prefix_client_order_id(&self, client_order_id: &mut String) {
        assert(client_order_id@ =~= Seq::<char>::empty() + client_order_id@);
    }
}

} // verus!
