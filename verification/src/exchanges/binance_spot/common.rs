//! A client for spot trading on Binance: its settings, and how it reads orders and balances.

use vstd::prelude::*;
use crate::exchange_client::common::Common;
use crate::exchanges::binance_usds_margined_futures::common::{
    binance_order_type_of, binance_order_type_text, binance_side_of, binance_side_text, binance_status_of,
};
use crate::json::{field_str, has_str, spec_as_bool, spec_as_i64, spec_as_u64, spec_at, JsonValue};
use crate::text::{i64_to_string, int_text, nat_digits, push_str, str_eq, string_from, u64_to_string};
use crate::types::{Balance, Exchange, ExchangeInstrumentType, Order, OrderSide, OrderStatus, OrderType};

verus! {

/// An API key and the 32-byte Ed25519 secret key that signs its requests.
#[derive(Clone)]
pub struct BinanceSpotCredential {
    pub api_key: String,
    pub secret_key: Vec<u8>,
}

impl BinanceSpotCredential {
    /// The credential of an API key and the Ed25519 key of a PKCS#8 PEM document; none
    /// where the document holds no such key.
    pub fn from_pem(api_key: String, pem: &str) -> (r: Option<Self>)
        ensures
            match r {
                Some(c) => c.api_key == api_key && crate::signing::pkcs8_ed25519_secret_key(pem@) == Some(c.secret_key@)
                    && c.secret_key@.len() == 32,
                None => crate::signing::pkcs8_ed25519_secret_key(pem@) is None,
            },
    {
        match crate::signing::ed25519_secret_key_from_pkcs8_pem(pem) {
            Some(secret_key) => Some(BinanceSpotCredential { api_key, secret_key }),
            None => None,
        }
    }
}

pub struct BinanceSpotClient {
    pub rest_api_base_url: String,
    pub websocket_market_data_api_url: String,
    pub websocket_account_data_api_url: String,
    pub credential: Option<BinanceSpotCredential>,
    pub api_link_id: String,
    pub recv_window: i64,
}

/// The members an order of the REST API must have.
pub open spec fn spot_rest_order_ok(v: JsonValue) -> bool {
    &&& has_str(v, "symbol"@)
    &&& spec_as_i64(spec_at(v, "orderId"@)) is Some
    &&& has_str(v, "clientOrderId"@)
    &&& has_str(v, "type"@)
    &&& has_str(v, "side"@)
    &&& has_str(v, "price"@)
    &&& has_str(v, "origQty"@)
    &&& has_str(v, "executedQty"@)
    &&& has_str(v, "cummulativeQuoteQty"@)
    &&& has_str(v, "status"@)
}

/// An order read from the REST API.
pub open spec fn spot_rest_order_matches(o: Order, v: JsonValue) -> bool {
    &&& o.exchange_instrument_type == ExchangeInstrumentType::BinanceSpot
    &&& o.symbol@ == field_str(v, "symbol"@)
    &&& o.order_id@ == int_text(spec_as_i64(spec_at(v, "orderId"@))->0 as int)
    &&& o.client_order_id@ == field_str(v, "clientOrderId"@)
    &&& o.order_type == binance_order_type_of(field_str(v, "type"@))
    &&& o.side == binance_side_of(field_str(v, "side"@))
    &&& o.price@ == field_str(v, "price"@)
    &&& o.quantity@ == field_str(v, "origQty"@)
    &&& o.leverage@.len() == 0
    &&& o.remaining_quantity@.len() == 0
    &&& o.cumulative_filled_quantity@ == field_str(v, "executedQty"@)
    &&& o.cumulative_filled_quote_quantity@ == field_str(v, "cummulativeQuoteQty"@)
    &&& o.average_filled_price@.len() == 0
    &&& o.status == binance_status_of(field_str(v, "status"@))
    &&& o.fill_price@.len() == 0
    &&& o.fill_quantity@.len() == 0
    &&& o.fill_quote_quantity@.len() == 0
    &&& !o.fill_is_maker
}

/// The members the event of an execution report must have.
pub open spec fn spot_execution_report_ok(j: JsonValue) -> bool {
    let e = spec_at(j, "event"@);
    &&& has_str(e, "s"@)
    &&& spec_as_u64(spec_at(e, "i"@)) is Some
    &&& has_str(e, "c"@)
    &&& has_str(e, "o"@)
    &&& has_str(e, "S"@)
    &&& has_str(e, "p"@)
    &&& has_str(e, "q"@)
    &&& has_str(e, "z"@)
    &&& has_str(e, "X"@)
    &&& has_str(e, "L"@)
    &&& has_str(e, "l"@)
    &&& has_str(e, "Z"@)
}

/// The order of an execution report.
pub open spec fn spot_execution_report_matches(r: Order, j: JsonValue) -> bool {
    let e = spec_at(j, "event"@);
    &&& r.exchange_instrument_type == ExchangeInstrumentType::BinanceSpot
    &&& r.symbol@ == field_str(e, "s"@)
    &&& r.order_id@ == nat_digits(spec_as_u64(spec_at(e, "i"@))->0 as nat)
    &&& r.client_order_id@ == field_str(e, "c"@)
    &&& r.order_type == binance_order_type_of(field_str(e, "o"@))
    &&& r.side == binance_side_of(field_str(e, "S"@))
    &&& r.price@ == field_str(e, "p"@)
    &&& r.quantity@ == field_str(e, "q"@)
    &&& r.leverage@.len() == 0
    &&& r.remaining_quantity@.len() == 0
    &&& r.cumulative_filled_quantity@ == field_str(e, "z"@)
    &&& r.cumulative_filled_quote_quantity@.len() == 0
    &&& r.average_filled_price@.len() == 0
    &&& r.status == binance_status_of(field_str(e, "X"@))
    &&& r.fill_price@ == field_str(e, "L"@)
    &&& r.fill_quantity@ == field_str(e, "l"@)
    &&& r.fill_quote_quantity@ == field_str(e, "Z"@)
    &&& r.fill_is_maker == match spec_as_bool(spec_at(e, "m"@)) {
        Some(b) => b,
        None => false,
    }
}

pub open spec fn spot_balance_ok(v: JsonValue) -> bool {
    has_str(v, "asset"@) && has_str(v, "free"@)
}

/// A balance: the asset and its free quantity.
pub open spec fn spot_balance_matches(b: Balance, v: JsonValue) -> bool {
    &&& b.exchange == Exchange::BinanceSpot
    &&& b.asset@ == field_str(v, "asset"@)
    &&& b.quantity@ == field_str(v, "free"@)
}

impl BinanceSpotClient {
    pub fn builder() -> (r: BinanceSpotClientBuilder)
        ensures
            r.rest_api_base_url is None,
            r.websocket_market_data_api_url is None,
            r.websocket_account_data_api_url is None,
            r.credential is None,
            r.recv_window is None,
    {
        BinanceSpotClientBuilder {
            rest_api_base_url: None,
            websocket_market_data_api_url: None,
            websocket_account_data_api_url: None,
            credential: None,
            recv_window: None,
        }
    }

    pub fn convert_order_side_to_string(&self, side: OrderSide) -> (r: &'static str)
        requires
            side != OrderSide::Unknown,
        ensures
            r@ == binance_side_text(side),
    {
        match side {
            OrderSide::Buy => "BUY",
            _ => "SELL",
        }
    }

    pub fn convert_string_to_order_side(&self, s: &str) -> (r: OrderSide)
        ensures
            r == binance_side_of(s@),
    {
        if str_eq(s, "BUY") { OrderSide::Buy } else if str_eq(s, "SELL") { OrderSide::Sell } else { OrderSide::Unknown }
    }

    pub fn convert_order_type_to_string(&self, order_type: OrderType) -> (r: &'static str)
        requires
            order_type != OrderType::Unknown,
        ensures
            r@ == binance_order_type_text(order_type),
    {
        match order_type {
            OrderType::Market => "MARKET",
            _ => "LIMIT",
        }
    }

    pub fn convert_string_to_order_type(&self, s: &str) -> (r: OrderType)
        ensures
            r == binance_order_type_of(s@),
    {
        if str_eq(s, "MARKET") {
            OrderType::Market
        } else if str_eq(s, "LIMIT") {
            OrderType::Limit
        } else {
            OrderType::Unknown
        }
    }

    pub fn convert_string_to_order_status(&self, s: &str) -> (r: OrderStatus)
        ensures
            r == binance_status_of(s@),
    {
        if str_eq(s, "NEW") {
            OrderStatus::Placed
        } else if str_eq(s, "PARTIALLY_FILLED") {
            OrderStatus::PartiallyFilled
        } else if str_eq(s, "FILLED") {
            OrderStatus::Filled
        } else if str_eq(s, "CANCELED") || str_eq(s, "PENDING_CANCEL") {
            OrderStatus::Canceled
        } else if str_eq(s, "REJECTED") {
            OrderStatus::Rejected
        } else if str_eq(s, "EXPIRED") || str_eq(s, "EXPIRED_IN_MATCH") {
            OrderStatus::Expired
        } else {
            OrderStatus::Unknown
        }
    }

    pub fn convert_rest_json_to_order(&self, json_value: &JsonValue) -> (r: Order)
        requires
            spot_rest_order_ok(*json_value),
        ensures
            spot_rest_order_matches(r, *json_value),
    {
        let order_id: i64 = match json_value.at("orderId") {
            Some(v) => match v.as_i64() {
                Some(n) => n,
                None => 0,
            },
            None => 0,
        };
        let order_type = json_value.field_str("type");
        let side = json_value.field_str("side");
        let status = json_value.field_str("status");
        Order {
            exchange_instrument_type: ExchangeInstrumentType::BinanceSpot,
            symbol: json_value.field_str("symbol"),
            order_id: i64_to_string(order_id),
            client_order_id: json_value.field_str("clientOrderId"),
            order_type: self.convert_string_to_order_type(order_type.as_str()),
            side: self.convert_string_to_order_side(side.as_str()),
            price: json_value.field_str("price"),
            quantity: json_value.field_str("origQty"),
            leverage: String::new(),
            remaining_quantity: String::new(),
            cumulative_filled_quantity: json_value.field_str("executedQty"),
            cumulative_filled_quote_quantity: json_value.field_str("cummulativeQuoteQty"),
            average_filled_price: String::new(),
            status: self.convert_string_to_order_status(status.as_str()),
            fill_price: String::new(),
            fill_quantity: String::new(),
            fill_quote_quantity: String::new(),
            fill_is_maker: false,
        }
    }

    pub fn convert_ws_executionreport_to_order(&self, json_value: &JsonValue) -> (r: Order)
        requires
            spot_execution_report_ok(*json_value),
        ensures
            spot_execution_report_matches(r, *json_value),
    {
        let null = JsonValue::Null;
        let e: &JsonValue = match json_value.at("event") {
            Some(e) => e,
            None => &null,
        };
        let order_id: u64 = match e.at("i") {
            Some(v) => match v.as_u64() {
                Some(n) => n,
                None => 0,
            },
            None => 0,
        };
        let is_maker = match e.at("m") {
            Some(v) => match v.as_bool() {
                Some(b) => b,
                None => false,
            },
            None => false,
        };
        let order_type = e.field_str("o");
        let side = e.field_str("S");
        let status = e.field_str("X");
        Order {
            exchange_instrument_type: ExchangeInstrumentType::BinanceSpot,
            symbol: e.field_str("s"),
            order_id: u64_to_string(order_id),
            client_order_id: e.field_str("c"),
            order_type: self.convert_string_to_order_type(order_type.as_str()),
            side: self.convert_string_to_order_side(side.as_str()),
            price: e.field_str("p"),
            quantity: e.field_str("q"),
            leverage: String::new(),
            remaining_quantity: String::new(),
            cumulative_filled_quantity: e.field_str("z"),
            cumulative_filled_quote_quantity: String::new(),
            average_filled_price: String::new(),
            status: self.convert_string_to_order_status(status.as_str()),
            fill_price: e.field_str("L"),
            fill_quantity: e.field_str("l"),
            fill_quote_quantity: e.field_str("Z"),
            fill_is_maker: is_maker,
        }
    }

    pub fn convert_json_value_to_balance(&self, json_value: &JsonValue) -> (r: Balance)
        requires
            spot_balance_ok(*json_value),
        ensures
            spot_balance_matches(r, *json_value),
    {
        Balance { exchange: Exchange::BinanceSpot, asset: json_value.field_str("asset"), quantity: json_value.field_str("free") }
    }
}

#[derive(Clone)]
pub struct BinanceSpotClientBuilder {
    pub rest_api_base_url: Option<String>,
    pub websocket_market_data_api_url: Option<String>,
    pub websocket_account_data_api_url: Option<String>,
    pub credential: Option<BinanceSpotCredential>,
    pub recv_window: Option<i64>,
}

impl BinanceSpotClientBuilder {
    pub fn rest_api_base_url(self, rest_api_base_url: String) -> (r: Self)
        ensures
            r == (BinanceSpotClientBuilder { rest_api_base_url: Some(rest_api_base_url), ..self }),
    {
        BinanceSpotClientBuilder { rest_api_base_url: Some(rest_api_base_url), ..self }
    }

    pub fn websocket_market_data_api_url(self, websocket_market_data_api_url: String) -> (r: Self)
        ensures
            r == (BinanceSpotClientBuilder { websocket_market_data_api_url: Some(websocket_market_data_api_url), ..self }),
    {
        BinanceSpotClientBuilder { websocket_market_data_api_url: Some(websocket_market_data_api_url), ..self }
    }

    pub fn websocket_account_data_api_url(self, websocket_account_data_api_url: String) -> (r: Self)
        ensures
            r == (BinanceSpotClientBuilder { websocket_account_data_api_url: Some(websocket_account_data_api_url), ..self }),
    {
        BinanceSpotClientBuilder { websocket_account_data_api_url: Some(websocket_account_data_api_url), ..self }
    }

    pub fn credential(self, credential: Option<BinanceSpotCredential>) -> (r: Self)
        ensures
            r == (BinanceSpotClientBuilder { credential, ..self }),
    {
        BinanceSpotClientBuilder { credential, ..self }
    }

    pub fn recv_window(self, recv_window: i64) -> (r: Self)
        ensures
            r == (BinanceSpotClientBuilder { recv_window: Some(recv_window), ..self }),
    {
        BinanceSpotClientBuilder { recv_window: Some(recv_window), ..self }
    }

    /// The client: Binance's public URLs where none were given, a receive window of 5000 ms.
    pub fn build(self) -> (r: BinanceSpotClient)
        ensures
            r.rest_api_base_url@ == match self.rest_api_base_url {
                Some(u) => u@,
                None => "https://api.binance.com"@,
            },
            r.websocket_market_data_api_url@ == match self.websocket_market_data_api_url {
                Some(u) => u@,
                None => "wss://stream.binance.com:443/stream"@,
            },
            r.websocket_account_data_api_url@ == match self.websocket_account_data_api_url {
                Some(u) => u@,
                None => "wss://ws-api.binance.com/ws-api/v3"@,
            },
            r.credential == self.credential,
            r.api_link_id@ == "XHKUG2CH"@,
            r.recv_window == match self.recv_window {
                Some(w) => w,
                None => 5000,
            },
    {
        BinanceSpotClient {
            rest_api_base_url: match self.rest_api_base_url {
                Some(u) => u,
                None => string_from("https://api.binance.com"),
            },
            websocket_market_data_api_url: match self.websocket_market_data_api_url {
                Some(u) => u,
                None => string_from("wss://stream.binance.com:443/stream"),
            },
            websocket_account_data_api_url: match self.websocket_account_data_api_url {
                Some(u) => u,
                None => string_from("wss://ws-api.binance.com/ws-api/v3"),
            },
            credential: self.credential,
            api_link_id: string_from("XHKUG2CH"),
            recv_window: match self.recv_window {
                Some(w) => w,
                None => 5000,
            },
        }
    }
}

/// Client order ids start with "x-", the link id, and "-".
impl Common for BinanceSpotClient {
    open spec fn client_order_id_prefix(&self) -> Seq<char> {
        "x-"@ + self.api_link_id@ + "-"@
    }

    fn prefix_client_order_id(&self, client_order_id: &mut String) {
        let mut prefixed = string_from("x-");
        push_str(&mut prefixed, self.api_link_id.as_str());
        push_str(&mut prefixed, "-");
        push_str(&mut prefixed, client_order_id.as_str());
        *client_order_id = prefixed;
    }
}

} // verus!
