//! The Bybit client: its settings, and how it reads orders, positions and balances.

use vstd::prelude::*;
use crate::exchange_client::common::Common;
use crate::json::{field_str, has_str, JsonValue};
use crate::text::{push_str, str_eq, string_from};
use crate::types::{
    Balance, BybitInstrumentType, Exchange, ExchangeInstrumentType, Order, OrderSide, OrderStatus, OrderType,
    Position, PositionSide,
};

verus! {

#[derive(Debug, Clone)]
pub struct BybitCredential {
    pub api_key: String,
    pub api_secret: String,
}

pub struct BybitClient {
    pub rest_api_base_url: String,
    pub websocket_market_data_api_url: String,
    pub websocket_account_data_api_url: String,
    pub instrument_type: BybitInstrumentType,
    pub credential: Option<BybitCredential>,
    pub api_broker_id: String,
    pub category: String,
    pub api_receive_window_milliseconds: i64,
}

pub open spec fn bybit_side_text(side: OrderSide) -> Seq<char> {
    if side == OrderSide::Buy { "Buy"@ } else { "Sell"@ }
}

pub open spec fn bybit_side_of(s: Seq<char>) -> OrderSide {
    if s == "Buy"@ { OrderSide::Buy } else if s == "Sell"@ { OrderSide::Sell } else { OrderSide::Unknown }
}

pub open spec fn bybit_order_type_text(t: OrderType) -> Seq<char> {
    if t == OrderType::Market { "Market"@ } else { "Limit"@ }
}

pub open spec fn bybit_order_type_of(s: Seq<char>) -> OrderType {
    if s == "Market"@ { OrderType::Market } else if s == "Limit"@ { OrderType::Limit } else { OrderType::Unknown }
}

pub open spec fn bybit_status_of(s: Seq<char>) -> OrderStatus {
    if s == "New"@ {
        OrderStatus::Placed
    } else if s == "PartiallyFilled"@ {
        OrderStatus::PartiallyFilled
    } else if s == "Rejected"@ {
        OrderStatus::Rejected
    } else if s == "PartiallyFilledCanceled"@ {
        OrderStatus::Canceled
    } else if s == "Filled"@ {
        OrderStatus::Filled
    } else if s == "Cancelled"@ {
        OrderStatus::Canceled
    } else {
        OrderStatus::Unknown
    }
}

pub open spec fn bybit_position_side_of(s: Seq<char>) -> PositionSide {
    if s == "Buy"@ { PositionSide::Long } else if s == "Sell"@ { PositionSide::Short } else { PositionSide::Unknown }
}

/// Bybit's name for an instrument type.
pub open spec fn bybit_category_text(t: BybitInstrumentType) -> Seq<char> {
    match t {
        BybitInstrumentType::Spot => "spot"@,
        BybitInstrumentType::Linear => "linear"@,
        _ => "inverse"@,
    }
}

/// The string members an order document must have.
pub open spec fn bybit_order_ok(v: JsonValue) -> bool {
    &&& has_str(v, "symbol"@)
    &&& has_str(v, "orderId"@)
    &&& has_str(v, "orderLinkId"@)
    &&& has_str(v, "orderType"@)
    &&& has_str(v, "side"@)
    &&& has_str(v, "price"@)
    &&& has_str(v, "qty"@)
    &&& has_str(v, "leavesQty"@)
    &&& has_str(v, "cumExecQty"@)
    &&& has_str(v, "cumExecValue"@)
    &&& has_str(v, "avgPrice"@)
    &&& has_str(v, "orderStatus"@)
}

/// An order read from one of Bybit's order documents.
pub open spec fn bybit_order_matches(r: Order, v: JsonValue, t: BybitInstrumentType) -> bool {
    &&& r.exchange_instrument_type == ExchangeInstrumentType::Bybit(t)
    &&& r.symbol@ == field_str(v, "symbol"@)
    &&& r.order_id@ == field_str(v, "orderId"@)
    &&& r.client_order_id@ == field_str(v, "orderLinkId"@)
    &&& r.order_type == bybit_order_type_of(field_str(v, "orderType"@))
    &&& r.side == bybit_side_of(field_str(v, "side"@))
    &&& r.price@ == field_str(v, "price"@)
    &&& r.quantity@ == field_str(v, "qty"@)
    &&& r.remaining_quantity@ == field_str(v, "leavesQty"@)
    &&& r.cumulative_filled_quantity@ == field_str(v, "cumExecQty"@)
    &&& r.cumulative_filled_quote_quantity@ == field_str(v, "cumExecValue"@)
    &&& r.average_filled_price@ == field_str(v, "avgPrice"@)
    &&& r.status == bybit_status_of(field_str(v, "orderStatus"@))
    &&& r.leverage@.len() == 0
    &&& r.fill_price@.len() == 0
    &&& r.fill_quantity@.len() == 0
    &&& r.fill_quote_quantity@.len() == 0
    &&& !r.fill_is_maker
}

/// The string members a position document must have.
pub open spec fn bybit_position_ok(v: JsonValue) -> bool {
    &&& has_str(v, "symbol"@)
    &&& has_str(v, "side"@)
    &&& has_str(v, "avgPrice"@)
    &&& has_str(v, "size"@)
    &&& has_str(v, "leverage"@)
}

pub open spec fn bybit_position_matches(p: Position, v: JsonValue, t: BybitInstrumentType) -> bool {
    &&& p.exchange_instrument_type == ExchangeInstrumentType::Bybit(t)
    &&& p.symbol@ == field_str(v, "symbol"@)
    &&& p.side == bybit_position_side_of(field_str(v, "side"@))
    &&& p.entry_price@ == field_str(v, "avgPrice"@)
    &&& p.quantity@ == field_str(v, "size"@)
    &&& p.leverage@ == field_str(v, "leverage"@)
    &&& p.position_asset@.len() == 0
}

pub open spec fn bybit_balance_ok(v: JsonValue) -> bool {
    has_str(v, "coin"@) && has_str(v, "walletBalance"@)
}

pub open spec fn bybit_balance_matches(b: Balance, v: JsonValue) -> bool {
    &&& b.exchange == Exchange::Bybit
    &&& b.asset@ == field_str(v, "coin"@)
    &&& b.quantity@ == field_str(v, "walletBalance"@)
}

impl BybitClient {
    pub fn builder() -> (r: BybitClientBuilder)
        ensures
            r.rest_api_base_url is None,
            r.websocket_market_data_api_url is None,
            r.websocket_account_data_api_url is None,
            r.instrument_type is None,
            r.credential is None,
            r.api_receive_window_milliseconds is None,
    {
        BybitClientBuilder {
            rest_api_base_url: None,
            websocket_market_data_api_url: None,
            websocket_account_data_api_url: None,
            instrument_type: None,
            credential: None,
            api_receive_window_milliseconds: None,
        }
    }

    pub fn convert_order_side_to_string(&self, side: OrderSide) -> (r: &'static str)
        requires
            side != OrderSide::Unknown,
        ensures
            r@ == bybit_side_text(side),
    {
        match side {
            OrderSide::Buy => "Buy",
            _ => "Sell",
        }
    }

    pub fn convert_string_to_order_side(&self, s: &str) -> (r: OrderSide)
        ensures
            r == bybit_side_of(s@),
    {
        if str_eq(s, "Buy") { OrderSide::Buy } else if str_eq(s, "Sell") { OrderSide::Sell } else { OrderSide::Unknown }
    }

    pub fn convert_order_type_to_string(&self, order_type: OrderType) -> (r: &'static str)
        requires
            order_type != OrderType::Unknown,
        ensures
            r@ == bybit_order_type_text(order_type),
    {
        match order_type {
            OrderType::Market => "Market",
            _ => "Limit",
        }
    }

    pub fn convert_string_to_order_type(&self, s: &str) -> (r: OrderType)
        ensures
            r == bybit_order_type_of(s@),
    {
        if str_eq(s, "Market") { OrderType::Market } else if str_eq(s, "Limit") { OrderType::Limit } else { OrderType::Unknown }
    }

    pub fn convert_string_to_order_status(&self, s: &str) -> (r: OrderStatus)
        ensures
            r == bybit_status_of(s@),
    {
        if str_eq(s, "New") {
            OrderStatus::Placed
        } else if str_eq(s, "PartiallyFilled") {
            OrderStatus::PartiallyFilled
        } else if str_eq(s, "Rejected") {
            OrderStatus::Rejected
        } else if str_eq(s, "PartiallyFilledCanceled") {
            OrderStatus::Canceled
        } else if str_eq(s, "Filled") {
            OrderStatus::Filled
        } else if str_eq(s, "Cancelled") {
            OrderStatus::Canceled
        } else {
            OrderStatus::Unknown
        }
    }

    pub fn convert_string_to_position_side(&self, s: &str) -> (r: PositionSide)
        ensures
            r == bybit_position_side_of(s@),
    {
        if str_eq(s, "Buy") { PositionSide::Long } else if str_eq(s, "Sell") { PositionSide::Short } else { PositionSide::Unknown }
    }

    pub fn convert_json_value_to_order(&self, json_value: &JsonValue) -> (r: Order)
        requires
            bybit_order_ok(*json_value),
        ensures
            bybit_order_matches(r, *json_value, self.instrument_type),
    {
        let order_type = json_value.required_str("orderType");
        let side = json_value.required_str("side");
        let status = json_value.required_str("orderStatus");
        Order {
            exchange_instrument_type: ExchangeInstrumentType::Bybit(self.instrument_type),
            symbol: json_value.required_str("symbol"),
            order_id: json_value.required_str("orderId"),
            client_order_id: json_value.required_str("orderLinkId"),
            order_type: self.convert_string_to_order_type(order_type.as_str()),
            side: self.convert_string_to_order_side(side.as_str()),
            price: json_value.required_str("price"),
            quantity: json_value.required_str("qty"),
            leverage: String::new(),
            remaining_quantity: json_value.required_str("leavesQty"),
            cumulative_filled_quantity: json_value.required_str("cumExecQty"),
            cumulative_filled_quote_quantity: json_value.required_str("cumExecValue"),
            average_filled_price: json_value.required_str("avgPrice"),
            status: self.convert_string_to_order_status(status.as_str()),
            fill_price: String::new(),
            fill_quantity: String::new(),
            fill_quote_quantity: String::new(),
            fill_is_maker: false,
        }
    }

    pub fn convert_json_value_to_position(&self, json_value: &JsonValue) -> (r: Position)
        requires
            bybit_position_ok(*json_value),
        ensures
            bybit_position_matches(r, *json_value, self.instrument_type),
    {
        let side = json_value.required_str("side");
        Position {
            exchange_instrument_type: ExchangeInstrumentType::Bybit(self.instrument_type),
            symbol: json_value.required_str("symbol"),
            side: self.convert_string_to_position_side(side.as_str()),
            entry_price: json_value.required_str("avgPrice"),
            quantity: json_value.required_str("size"),
            leverage: json_value.required_str("leverage"),
            position_asset: String::new(),
        }
    }

    pub fn convert_json_value_to_balance(&self, json_value: &JsonValue) -> (r: Balance)
        requires
            bybit_balance_ok(*json_value),
        ensures
            bybit_balance_matches(r, *json_value),
    {
        Balance {
            exchange: Exchange::Bybit,
            asset: json_value.required_str("coin"),
            quantity: json_value.required_str("walletBalance"),
        }
    }
}

#[derive(Debug, Clone)]
pub struct BybitClientBuilder {
    pub rest_api_base_url: Option<String>,
    pub websocket_market_data_api_url: Option<String>,
    pub websocket_account_data_api_url: Option<String>,
    pub instrument_type: Option<BybitInstrumentType>,
    pub credential: Option<BybitCredential>,
    pub api_receive_window_milliseconds: Option<i64>,
}

impl BybitClientBuilder {
    pub fn rest_api_base_url(self, rest_api_base_url: String) -> (r: Self)
        ensures
            r == (BybitClientBuilder { rest_api_base_url: Some(rest_api_base_url), ..self }),
    {
        BybitClientBuilder { rest_api_base_url: Some(rest_api_base_url), ..self }
    }

    pub fn websocket_market_data_api_url(self, websocket_market_data_api_url: String) -> (r: Self)
        ensures
            r == (BybitClientBuilder { websocket_market_data_api_url: Some(websocket_market_data_api_url), ..self }),
    {
        BybitClientBuilder { websocket_market_data_api_url: Some(websocket_market_data_api_url), ..self }
    }

    pub fn websocket_account_data_api_url(self, websocket_account_data_api_url: String) -> (r: Self)
        ensures
            r == (BybitClientBuilder { websocket_account_data_api_url: Some(websocket_account_data_api_url), ..self }),
    {
        BybitClientBuilder { websocket_account_data_api_url: Some(websocket_account_data_api_url), ..self }
    }

    pub fn instrument_type(self, instrument_type: BybitInstrumentType) -> (r: Self)
        ensures
            r == (BybitClientBuilder { instrument_type: Some(instrument_type), ..self }),
    {
        BybitClientBuilder { instrument_type: Some(instrument_type), ..self }
    }

    pub fn credential(self, credential: Option<BybitCredential>) -> (r: Self)
        ensures
            r == (BybitClientBuilder { credential, ..self }),
    {
        BybitClientBuilder { credential, ..self }
    }

    pub fn api_receive_window_milliseconds(self, api_receive_window_milliseconds: i64) -> (r: Self)
        ensures
            r == (BybitClientBuilder { api_receive_window_milliseconds: Some(api_receive_window_milliseconds), ..self }),
    {
        BybitClientBuilder { api_receive_window_milliseconds: Some(api_receive_window_milliseconds), ..self }
    }

    /// The client: Bybit's public URLs where none were given (the market-data one for the
    /// category), spot where no instrument type was given, a receive window of 5000 ms.
    pub fn build(self) -> (r: BybitClient)
        requires
            self.instrument_type != Some(BybitInstrumentType::Unknown),
        ensures
            r.instrument_type == match self.instrument_type {
                Some(t) => t,
                None => BybitInstrumentType::Spot,
            },
            r.category@ == bybit_category_text(r.instrument_type),
            r.rest_api_base_url@ == match self.rest_api_base_url {
                Some(u) => u@,
                None => "https://api.bybit.com"@,
            },
            r.websocket_market_data_api_url@ == match self.websocket_market_data_api_url {
                Some(u) => u@,
                None => "wss://stream.bybit.com/v5/public/"@ + r.category@,
            },
            r.websocket_account_data_api_url@ == match self.websocket_account_data_api_url {
                Some(u) => u@,
                None => "wss://stream.bybit.com/v5/private"@,
            },
            r.credential == self.credential,
            r.api_broker_id@ == "Vs000261"@,
            r.api_receive_window_milliseconds == match self.api_receive_window_milliseconds {
                Some(w) => w,
                None => 5000,
            },
    {
        let instrument_type = match self.instrument_type {
            Some(t) => t,
            None => BybitInstrumentType::Spot,
        };
        let category = match instrument_type {
            BybitInstrumentType::Spot => string_from("spot"),
            BybitInstrumentType::Linear => string_from("linear"),
            _ => string_from("inverse"),
        };
        let websocket_market_data_api_url = match self.websocket_market_data_api_url {
            Some(u) => u,
            None => {
                let mut u = string_from("wss://stream.bybit.com/v5/public/");
                push_str(&mut u, category.as_str());
                u
            },
        };
        BybitClient {
            rest_api_base_url: match self.rest_api_base_url {
                Some(u) => u,
                None => string_from("https://api.bybit.com"),
            },
            websocket_market_data_api_url,
            websocket_account_data_api_url: match self.websocket_account_data_api_url {
                Some(u) => u,
                None => string_from("wss://stream.bybit.com/v5/private"),
            },
            instrument_type,
            credential: self.credential,
            api_broker_id: string_from("Vs000261"),
            category,
            api_receive_window_milliseconds: match self.api_receive_window_milliseconds {
                Some(w) => w,
                None => 5000,
            },
        }
    }
}

/// No prefix in front of client order ids.
impl Common for BybitClient {
    open spec fn client_order_id_prefix(&self) -> Seq<char> {
        Seq::empty()
    }

    fn prefix_client_order_id(&self, client_order_id: &mut String) {
        assert(client_order_id@ =~= Seq::<char>::empty() + client_order_id@);
    }
}

} // verus!
