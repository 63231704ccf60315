//! A client for USDⓈ-margined futures on Binance: its settings, and how it reads orders,
//! positions and balances.

use vstd::prelude::*;
use crate::exchange_client::common::Common;
use crate::json::{field_str, has_str, spec_as_bool, spec_as_i64, spec_as_u64, spec_at, JsonValue};
use crate::text::{
    i64_to_string, int_text, nat_digits, push_str, str_eq, string_from,
    trim_start_matches, trim_start_matches_text, u64_to_string,
};
use crate::types::{
    Balance, Exchange, ExchangeInstrumentType, Order, OrderSide, OrderStatus, OrderType, Position, PositionSide,
};

verus! {

/// An API key and the 32-byte Ed25519 secret key that signs its requests.
#[derive(Clone)]
pub struct BinanceUsdsMarginedFuturesCredential {
    pub api_key: String,
    pub secret_key: Vec<u8>,
}

impl BinanceUsdsMarginedFuturesCredential {
    /// The credential of an API key and the Ed25519 key of a PKCS#8 PEM document; none
    /// where the document holds no such key.
    pub fn from_pem(api_key: String, pem: &str) -> (r: Option<Self>)
        ensures
            match r {
                Some(c) => c.api_key == api_key && crate::signing::pkcs8_ed25519_secret_key(pem@) == Some(c.secret_key@)
                    && c.secret_key@.len() == 32,
                None => crate::signing::pkcs8_ed25519_secret_key(pem@) is None,
            },
    {
        match crate::signing::ed25519_secret_key_from_pkcs8_pem(pem) {
            Some(secret_key) => Some(BinanceUsdsMarginedFuturesCredential { api_key, secret_key }),
            None => None,
        }
    }
}

pub struct BinanceUsdsMarginedFuturesClient {
    pub rest_api_base_url: String,
    pub websocket_market_data_api_url: String,
    pub websocket_account_data_api_url: String,
    pub credential: Option<BinanceUsdsMarginedFuturesCredential>,
    pub api_link_id: String,
    pub recv_window: i64,
}

pub open spec fn binance_side_text(side: OrderSide) -> Seq<char> {
    if side == OrderSide::Buy { "BUY"@ } else { "SELL"@ }
}

pub open spec fn binance_side_of(s: Seq<char>) -> OrderSide {
    if s == "BUY"@ { OrderSide::Buy } else if s == "SELL"@ { OrderSide::Sell } else { OrderSide::Unknown }
}

pub open spec fn binance_order_type_text(t: OrderType) -> Seq<char> {
    if t == OrderType::Market { "MARKET"@ } else { "LIMIT"@ }
}

pub open spec fn binance_order_type_of(s: Seq<char>) -> OrderType {
    if s == "MARKET"@ { OrderType::Market } else if s == "LIMIT"@ { OrderType::Limit } else { OrderType::Unknown }
}

pub open spec fn binance_status_of(s: Seq<char>) -> OrderStatus {
    if s == "NEW"@ {
        OrderStatus::Placed
    } else if s == "PARTIALLY_FILLED"@ {
        OrderStatus::PartiallyFilled
    } else if s == "FILLED"@ {
        OrderStatus::Filled
    } else if s == "CANCELED"@ || s == "PENDING_CANCEL"@ {
        OrderStatus::Canceled
    } else if s == "REJECTED"@ {
        OrderStatus::Rejected
    } else if s == "EXPIRED"@ || s == "EXPIRED_IN_MATCH"@ {
        OrderStatus::Expired
    } else {
        OrderStatus::Unknown
    }
}

/// The members an order of the REST API must have.
pub open spec fn binance_rest_order_ok(v: JsonValue) -> bool {
    &&& has_str(v, "symbol"@)
    &&& spec_as_i64(spec_at(v, "orderId"@)) is Some
    &&& has_str(v, "clientOrderId"@)
    &&& has_str(v, "type"@)
    &&& has_str(v, "side"@)
    &&& has_str(v, "price"@)
    &&& has_str(v, "origQty"@)
    &&& has_str(v, "executedQty"@)
    &&& has_str(v, "cumQuote"@)
    &&& has_str(v, "avgPrice"@)
    &&& has_str(v, "status"@)
}

/// An order read from the REST API.
pub open spec fn binance_rest_order_matches(o: Order, v: JsonValue) -> bool {
    &&& o.exchange_instrument_type == ExchangeInstrumentType::BinanceUsdsMarginedFutures
    &&& o.symbol@ == field_str(v, "symbol"@)
    &&& o.order_id@ == int_text(spec_as_i64(spec_at(v, "orderId"@))->0 as int)
    &&& o.client_order_id@ == field_str(v, "clientOrderId"@)
    &&& o.order_type == binance_order_type_of(field_str(v, "type"@))
    &&& o.side == binance_side_of(field_str(v, "side"@))
    &&& o.price@ == field_str(v, "price"@)
    &&& o.quantity@ == field_str(v, "origQty"@)
    &&& o.leverage@.len() == 0
    &&& o.remaining_quantity@.len() == 0
    &&& o.cumulative_filled_quantity@ == field_str(v, "executedQty"@)
    &&& o.cumulative_filled_quote_quantity@ == field_str(v, "cumQuote"@)
    &&& o.average_filled_price@ == field_str(v, "avgPrice"@)
    &&& o.status == binance_status_of(field_str(v, "status"@))
    &&& o.fill_price@.len() == 0
    &&& o.fill_quantity@.len() == 0
    &&& o.fill_quote_quantity@.len() == 0
    &&& !o.fill_is_maker
}

/// The members the order of an order update ("o") must have.
pub open spec fn binance_ws_order_ok(j: JsonValue) -> bool {
    let o = spec_at(j, "o"@);
    &&& has_str(o, "s"@)
    &&& spec_as_u64(spec_at(o, "i"@)) is Some
    &&& has_str(o, "c"@)
    &&& has_str(o, "o"@)
    &&& has_str(o, "S"@)
    &&& has_str(o, "p"@)
    &&& has_str(o, "q"@)
    &&& has_str(o, "z"@)
    &&& has_str(o, "X"@)
    &&& has_str(o, "L"@)
    &&& has_str(o, "l"@)
}

/// The order of an order update.
pub open spec fn binance_ws_order_matches(r: Order, j: JsonValue) -> bool {
    let o = spec_at(j, "o"@);
    &&& r.exchange_instrument_type == ExchangeInstrumentType::BinanceUsdsMarginedFutures
    &&& r.symbol@ == field_str(o, "s"@)
    &&& r.order_id@ == nat_digits(spec_as_u64(spec_at(o, "i"@))->0 as nat)
    &&& r.client_order_id@ == field_str(o, "c"@)
    &&& r.order_type == binance_order_type_of(field_str(o, "o"@))
    &&& r.side == binance_side_of(field_str(o, "S"@))
    &&& r.price@ == field_str(o, "p"@)
    &&& r.quantity@ == field_str(o, "q"@)
    &&& r.leverage@.len() == 0
    &&& r.remaining_quantity@.len() == 0
    &&& r.cumulative_filled_quantity@ == field_str(o, "z"@)
    &&& r.cumulative_filled_quote_quantity@.len() == 0
    &&& r.average_filled_price@.len() == 0
    &&& r.status == binance_status_of(field_str(o, "X"@))
    &&& r.fill_price@ == field_str(o, "L"@)
    &&& r.fill_quantity@ == field_str(o, "l"@)
    &&& r.fill_quote_quantity@.len() == 0
    &&& r.fill_is_maker == match spec_as_bool(spec_at(o, "m"@)) {
        Some(b) => b,
        None => false,
    }
}

pub open spec fn binance_balance_ok(v: JsonValue) -> bool {
    has_str(v, "asset"@) && has_str(v, "balance"@)
}

pub open spec fn binance_balance_matches(b: Balance, v: JsonValue) -> bool {
    &&& b.exchange == Exchange::BinanceUsdsMarginedFutures
    &&& b.asset@ == field_str(v, "asset"@)
    &&& b.quantity@ == field_str(v, "balance"@)
}

/// The members a position must have.
pub open spec fn binance_position_ok(v: JsonValue) -> bool {
    &&& has_str(v, "positionAmt"@)
    &&& has_str(v, "positionSide"@)
    &&& has_str(v, "symbol"@)
    &&& has_str(v, "entryPrice"@)
}

/// A position's side where its "positionSide" is LONG or SHORT. Otherwise the side is the
/// sign of the amount read as a float (positive long, negative short, zero or NaN none),
/// which the caller sets, as floats stay outside this library: it is left unknown here.
pub open spec fn binance_position_side_of(position_side: Seq<char>) -> PositionSide {
    if position_side == "LONG"@ {
        PositionSide::Long
    } else if position_side == "SHORT"@ {
        PositionSide::Short
    } else {
        PositionSide::Unknown
    }
}

pub open spec fn binance_position_matches(p: Position, v: JsonValue) -> bool {
    let amount = field_str(v, "positionAmt"@);
    &&& p.exchange_instrument_type == ExchangeInstrumentType::BinanceUsdsMarginedFutures
    &&& p.symbol@ == field_str(v, "symbol"@)
    &&& p.side == binance_position_side_of(field_str(v, "positionSide"@))
    &&& p.entry_price@ == field_str(v, "entryPrice"@)
    &&& p.quantity@ == trim_start_matches(amount, "-"@)
    &&& p.leverage@.len() == 0
    &&& p.position_asset@.len() == 0
}

impl BinanceUsdsMarginedFuturesClient {
    pub fn builder() -> (r: BinanceUsdsMarginedFuturesClientBuilder)
        ensures
            r.rest_api_base_url is None,
            r.websocket_market_data_api_url is None,
            r.websocket_account_data_api_url is None,
            r.credential is None,
            r.recv_window is None,
    {
        BinanceUsdsMarginedFuturesClientBuilder {
            rest_api_base_url: None,
            websocket_market_data_api_url: None,
            websocket_account_data_api_url: None,
            credential: None,
            recv_window: None,
        }
    }

    pub fn convert_order_side_to_string(&self, side: OrderSide) -> (r: &'static str)
        requires
            side != OrderSide::Unknown,
        ensures
            r@ == binance_side_text(side),
    {
        match side {
            OrderSide::Buy => "BUY",
            _ => "SELL",
        }
    }

    pub fn convert_string_to_order_side(&self, s: &str) -> (r: OrderSide)
        ensures
            r == binance_side_of(s@),
    {
        if str_eq(s, "BUY") { OrderSide::Buy } else if str_eq(s, "SELL") { OrderSide::Sell } else { OrderSide::Unknown }
    }

    pub fn convert_order_type_to_string(&self, order_type: OrderType) -> (r: &'static str)
        requires
            order_type != OrderType::Unknown,
        ensures
            r@ == binance_order_type_text(order_type),
    {
        match order_type {
            OrderType::Market => "MARKET",
            _ => "LIMIT",
        }
    }

    pub fn convert_string_to_order_type(&self, s: &str) -> (r: OrderType)
        ensures
            r == binance_order_type_of(s@),
    {
        if str_eq(s, "MARKET") {
            OrderType::Market
        } else if str_eq(s, "LIMIT") {
            OrderType::Limit
        } else {
            OrderType::Unknown
        }
    }

    pub fn convert_string_to_order_status(&self, s: &str) -> (r: OrderStatus)
        ensures
            r == binance_status_of(s@),
    {
        if str_eq(s, "NEW") {
            OrderStatus::Placed
        } else if str_eq(s, "PARTIALLY_FILLED") {
            OrderStatus::PartiallyFilled
        } else if str_eq(s, "FILLED") {
            OrderStatus::Filled
        } else if str_eq(s, "CANCELED") || str_eq(s, "PENDING_CANCEL") {
            OrderStatus::Canceled
        } else if str_eq(s, "REJECTED") {
            OrderStatus::Rejected
        } else if str_eq(s, "EXPIRED") || str_eq(s, "EXPIRED_IN_MATCH") {
            OrderStatus::Expired
        } else {
            OrderStatus::Unknown
        }
    }

    pub fn convert_rest_json_to_order(&self, json_value: &JsonValue) -> (r: Order)
        requires
            binance_rest_order_ok(*json_value),
        ensures
            binance_rest_order_matches(r, *json_value),
    {
        let order_id: i64 = match json_value.at("orderId") {
            Some(v) => match v.as_i64() {
                Some(n) => n,
                None => 0,
            },
            None => 0,
        };
        let order_type = json_value.field_str("type");
        let side = json_value.field_str("side");
        let status = json_value.field_str("status");
        Order {
            exchange_instrument_type: ExchangeInstrumentType::BinanceUsdsMarginedFutures,
            symbol: json_value.field_str("symbol"),
            order_id: i64_to_string(order_id),
            client_order_id: json_value.field_str("clientOrderId"),
            order_type: self.convert_string_to_order_type(order_type.as_str()),
            side: self.convert_string_to_order_side(side.as_str()),
            price: json_value.field_str("price"),
            quantity: json_value.field_str("origQty"),
            leverage: String::new(),
            remaining_quantity: String::new(),
            cumulative_filled_quantity: json_value.field_str("executedQty"),
            cumulative_filled_quote_quantity: json_value.field_str("cumQuote"),
            average_filled_price: json_value.field_str("avgPrice"),
            status: self.convert_string_to_order_status(status.as_str()),
            fill_price: String::new(),
            fill_quantity: String::new(),
            fill_quote_quantity: String::new(),
            fill_is_maker: false,
        }
    }

    pub fn convert_ws_order_trade_update_to_order(&self, json_value: &JsonValue) -> (r: Order)
        requires
            binance_ws_order_ok(*json_value),
        ensures
            binance_ws_order_matches(r, *json_value),
    {
        let null = JsonValue::Null;
        let o: &JsonValue = match json_value.at("o") {
            Some(o) => o,
            None => &null,
        };
        let order_id: u64 = match o.at("i") {
            Some(v) => match v.as_u64() {
                Some(n) => n,
                None => 0,
            },
            None => 0,
        };
        let is_maker = match o.at("m") {
            Some(v) => match v.as_bool() {
                Some(b) => b,
                None => false,
            },
            None => false,
        };
        let order_type = o.field_str("o");
        let side = o.field_str("S");
        let status = o.field_str("X");
        Order {
            exchange_instrument_type: ExchangeInstrumentType::BinanceUsdsMarginedFutures,
            symbol: o.field_str("s"),
            order_id: u64_to_string(order_id),
            client_order_id: o.field_str("c"),
            order_type: self.convert_string_to_order_type(order_type.as_str()),
            side: self.convert_string_to_order_side(side.as_str()),
            price: o.field_str("p"),
            quantity: o.field_str("q"),
            leverage: String::new(),
            remaining_quantity: String::new(),
            cumulative_filled_quantity: o.field_str("z"),
            cumulative_filled_quote_quantity: String::new(),
            average_filled_price: String::new(),
            status: self.convert_string_to_order_status(status.as_str()),
            fill_price: o.field_str("L"),
            fill_quantity: o.field_str("l"),
            fill_quote_quantity: String::new(),
            fill_is_maker: is_maker,
        }
    }

    pub fn convert_json_value_to_balance(&self, json_value: &JsonValue) -> (r: Balance)
        requires
            binance_balance_ok(*json_value),
        ensures
            binance_balance_matches(r, *json_value),
    {
        Balance {
            exchange: Exchange::BinanceUsdsMarginedFutures,
            asset: json_value.field_str("asset"),
            quantity: json_value.field_str("balance"),
        }
    }

    /// The position of a REST document. Where its "positionSide" is neither LONG nor SHORT,
    /// the side turns on the amount read as a float and is left unknown for the caller to set.
    pub fn convert_rest_json_to_position(&self, json_value: &JsonValue) -> (r: Position)
        requires
            binance_position_ok(*json_value),
        ensures
            binance_position_matches(r, *json_value),
    {
        let amount = json_value.field_str("positionAmt");
        let position_side = json_value.field_str("positionSide");
        let side = if str_eq(position_side.as_str(), "LONG") {
            PositionSide::Long
        } else if str_eq(position_side.as_str(), "SHORT") {
            PositionSide::Short
        } else {
            PositionSide::Unknown
        };
        Position {
            exchange_instrument_type: ExchangeInstrumentType::BinanceUsdsMarginedFutures,
            symbol: json_value.field_str("symbol"),
            side,
            entry_price: json_value.field_str("entryPrice"),
            quantity: trim_start_matches_text(amount.as_str(), "-"),
            leverage: String::new(),
            position_asset: String::new(),
        }
    }
}

#[derive(Clone)]
pub struct BinanceUsdsMarginedFuturesClientBuilder {
    pub rest_api_base_url: Option<String>,
    pub websocket_market_data_api_url: Option<String>,
    pub websocket_account_data_api_url: Option<String>,
    pub credential: Option<BinanceUsdsMarginedFuturesCredential>,
    pub recv_window: Option<i64>,
}

impl BinanceUsdsMarginedFuturesClientBuilder {
    pub fn rest_api_base_url(self, rest_api_base_url: String) -> (r: Self)
        ensures
            r == (BinanceUsdsMarginedFuturesClientBuilder { rest_api_base_url: Some(rest_api_base_url), ..self }),
    {
        BinanceUsdsMarginedFuturesClientBuilder { rest_api_base_url: Some(rest_api_base_url), ..self }
    }

    pub fn websocket_market_data_api_url(self, websocket_market_data_api_url: String) -> (r: Self)
        ensures
            r == (BinanceUsdsMarginedFuturesClientBuilder {
                websocket_market_data_api_url: Some(websocket_market_data_api_url),
                ..self
            }),
    {
        BinanceUsdsMarginedFuturesClientBuilder {
            websocket_market_data_api_url: Some(websocket_market_data_api_url),
            ..self
        }
    }

    pub fn websocket_account_data_api_url(self, websocket_account_data_api_url: String) -> (r: Self)
        ensures
            r == (BinanceUsdsMarginedFuturesClientBuilder {
                websocket_account_data_api_url: Some(websocket_account_data_api_url),
                ..self
            }),
    {
        BinanceUsdsMarginedFuturesClientBuilder {
            websocket_account_data_api_url: Some(websocket_account_data_api_url),
            ..self
        }
    }

    pub fn credential(self, credential: Option<BinanceUsdsMarginedFuturesCredential>) -> (r: Self)
        ensures
            r == (BinanceUsdsMarginedFuturesClientBuilder { credential, ..self }),
    {
        BinanceUsdsMarginedFuturesClientBuilder { credential, ..self }
    }

    pub fn recv_window(self, recv_window: i64) -> (r: Self)
        ensures
            r == (BinanceUsdsMarginedFuturesClientBuilder { recv_window: Some(recv_window), ..self }),
    {
        BinanceUsdsMarginedFuturesClientBuilder { recv_window: Some(recv_window), ..self }
    }

    /// The client: Binance's public URLs where none were given (the account-data one
    /// with a place for the listen key), a receive window of 5000 ms.
    pub fn build(self) -> (r: BinanceUsdsMarginedFuturesClient)
        ensures
            r.rest_api_base_url@ == match self.rest_api_base_url {
                Some(u) => u@,
                None => "https://fapi.binance.com"@,
            },
            r.websocket_market_data_api_url@ == match self.websocket_market_data_api_url {
                Some(u) => u@,
                None => "wss://fstream.binance.com/public/stream"@,
            },
            r.websocket_account_data_api_url@ == match self.websocket_account_data_api_url {
                Some(u) => u@,
                None => "wss://fstream.binance.com/private/ws/{listen_key}"@,
            },
            r.credential == self.credential,
            r.api_link_id@ == "XHKUG2CH"@,
            r.recv_window == match self.recv_window {
                Some(w) => w,
                None => 5000,
            },
    {
        BinanceUsdsMarginedFuturesClient {
            rest_api_base_url: match self.rest_api_base_url {
                Some(u) => u,
                None => string_from("https://fapi.binance.com"),
            },
            websocket_market_data_api_url: match self.websocket_market_data_api_url {
                Some(u) => u,
                None => string_from("wss://fstream.binance.com/public/stream"),
            },
            websocket_account_data_api_url: match self.websocket_account_data_api_url {
                Some(u) => u,
                None => string_from("wss://fstream.binance.com/private/ws/{listen_key}"),
            },
            credential: self.credential,
            api_link_id: string_from("XHKUG2CH"),
            recv_window: match self.recv_window {
                Some(w) => w,
                None => 5000,
            },
        }
    }
}

/// Client order ids start with "x-", the link id, and "-".
impl Common for BinanceUsdsMarginedFuturesClient {
    open spec fn client_order_id_prefix(&self) -> Seq<char> {
        "x-"@ + self.api_link_id@ + "-"@
    }

    fn prefix_client_order_id(&self, client_order_id: &mut String) {
        let mut prefixed = string_from("x-");
        push_str(&mut prefixed, self.api_link_id.as_str());
        push_str(&mut prefixed, "-");
        push_str(&mut prefixed, client_order_id.as_str());
        *client_order_id = prefixed;
    }
}

} // verus!
