//! A client for spot and margin trading on Gate.io: its settings, and how it reads currency pairs,
//! orders and balances.

use vstd::prelude::*;
use crate::exchange_client::common::Common;
use crate::json::{field_str, spec_as_i64, spec_at, JsonValue};
use crate::text::{decimal_unit, decimal_unit_text, push_str, str_eq, string_from};
use crate::types::{
    Balance, Exchange, ExchangeInstrumentType, GateioSpotAndMarginInstrumentType, InstrumentInfo, Order, OrderSide,
    OrderStatus, OrderType, Timestamp,
};

verus! {

#[derive(Debug, Clone)]
pub struct GateioSpotAndMarginCredential {
    pub api_key: String,
    pub api_secret: String,
}

pub struct GateioSpotAndMarginClient {
    pub rest_api_base_url: String,
    pub websocket_market_data_api_url: String,
    pub websocket_account_data_api_url: String,
    pub instrument_type: GateioSpotAndMarginInstrumentType,
    pub credential: Option<GateioSpotAndMarginCredential>,
    pub account: String,
    pub api_channel_id: String,
}

pub open spec fn gate_spot_side_text(side: OrderSide) -> Seq<char> {
    if side == OrderSide::Buy { "buy"@ } else { "sell"@ }
}

pub open spec fn gate_spot_side_of(s: Seq<char>) -> OrderSide {
    if s == "buy"@ { OrderSide::Buy } else if s == "sell"@ { OrderSide::Sell } else { OrderSide::Unknown }
}

pub open spec fn gate_spot_order_type_text(t: OrderType) -> Seq<char> {
    if t == OrderType::Market { "market"@ } else { "limit"@ }
}

pub open spec fn gate_spot_order_type_of(s: Seq<char>) -> OrderType {
    if s == "market"@ { OrderType::Market } else if s == "limit"@ { OrderType::Limit } else { OrderType::Unknown }
}

pub open spec fn gate_spot_finish_status(finish_as: Seq<char>) -> OrderStatus {
    if finish_as == "open"@ {
        OrderStatus::Placed
    } else if finish_as == "filled"@ {
        OrderStatus::Filled
    } else if finish_as == "cancelled"@ || finish_as == "ioc"@ || finish_as == "stp"@ || finish_as == "poc"@
        || finish_as == "fok"@ || finish_as == "trader_not_enough"@ || finish_as == "depth_not_enough"@ || finish_as
        == "small"@ || finish_as == "liquidate_cancelled"@ {
        OrderStatus::Canceled
    } else {
        OrderStatus::Unknown
    }
}

pub open spec fn gate_spot_status_of(event: Seq<char>, finish_as: Seq<char>) -> OrderStatus {
    if event == "put"@ {
        OrderStatus::Placed
    } else if event == "update"@ {
        OrderStatus::PartiallyFilled
    } else if event == "finish"@ {
        gate_spot_finish_status(finish_as)
    } else {
        OrderStatus::Unknown
    }
}

/// `value[key].as_i64().unwrap_or(0)`.
pub open spec fn i64_member_or_zero(v: JsonValue, key: Seq<char>) -> i64 {
    match spec_as_i64(spec_at(v, key)) {
        Some(n) => n,
        None => 0,
    }
}

/// A currency pair's precisions must not be negative.
pub open spec fn gate_spot_instrument_ok(v: JsonValue) -> bool {
    i64_member_or_zero(v, "precision"@) >= 0 && i64_member_or_zero(v, "amount_precision"@) >= 0
}

pub open spec fn gate_spot_instrument_matches(info: InstrumentInfo, v: JsonValue, t: GateioSpotAndMarginInstrumentType) -> bool {
    &&& info.exchange_instrument_type == ExchangeInstrumentType::GateioSpotAndMargin(t)
    &&& info.symbol@ == field_str(v, "id"@)
    &&& info.base_asset@ == field_str(v, "base"@)
    &&& info.quote_asset@ == field_str(v, "quote"@)
    &&& info.order_price_increment@ == decimal_unit(i64_member_or_zero(v, "precision"@) as nat)
    &&& info.order_quantity_increment@ == decimal_unit(i64_member_or_zero(v, "amount_precision"@) as nat)
    &&& info.order_quantity_min@ == field_str(v, "min_base_amount"@)
    &&& info.order_quantity_max@ == field_str(v, "max_base_amount"@)
    &&& info.order_quote_quantity_min@ == field_str(v, "min_quote_amount"@)
    &&& info.order_quote_quantity_max@ == field_str(v, "max_quote_amount"@)
    &&& info.settle_asset@.len() == 0
    &&& info.underlying_symbol@.len() == 0
    &&& info.contract_size@.len() == 0
    &&& info.expiry_timestamp.is_epoch()
}

pub open spec fn gate_spot_order_matches(r: Order, v: JsonValue, t: GateioSpotAndMarginInstrumentType) -> bool {
    &&& r.exchange_instrument_type == ExchangeInstrumentType::GateioSpotAndMargin(t)
    &&& r.symbol@ == field_str(v, "currency_pair"@)
    &&& r.order_id@ == field_str(v, "id"@)
    &&& r.client_order_id@ == field_str(v, "text"@)
    &&& r.order_type == gate_spot_order_type_of(field_str(v, "type"@))
    &&& r.side == gate_spot_side_of(field_str(v, "side"@))
    &&& r.price@ == field_str(v, "price"@)
    &&& r.quantity@ == field_str(v, "amount"@)
    &&& r.remaining_quantity@ == field_str(v, "left"@)
    &&& r.cumulative_filled_quote_quantity@ == field_str(v, "filled_total"@)
    &&& r.status == gate_spot_status_of(field_str(v, "event"@), field_str(v, "finish_as"@))
    &&& r.leverage@.len() == 0
    &&& r.cumulative_filled_quantity@.len() == 0
    &&& r.average_filled_price@.len() == 0
    &&& r.fill_price@.len() == 0
    &&& r.fill_quantity@.len() == 0
    &&& r.fill_quote_quantity@.len() == 0
    &&& !r.fill_is_maker
}

pub open spec fn gate_spot_balance_matches(b: Balance, v: JsonValue) -> bool {
    &&& b.exchange == Exchange::GateioSpotAndMargin
    &&& b.asset@ == field_str(v, "currency"@)
    &&& b.quantity@ == field_str(v, "available"@)
}

/// Gate.io's account name for an instrument type.
pub open spec fn gate_account_text(t: GateioSpotAndMarginInstrumentType) -> Seq<char> {
    if t == GateioSpotAndMarginInstrumentType::Spot { "spot"@ } else { "margin"@ }
}

pub fn i64_member_or_zero_exec(v: &JsonValue, key: &str) -> (r: i64)
    ensures
        r == i64_member_or_zero(*v, key@),
{
    match v.at(key) {
        Some(m) => match m.as_i64() {
            Some(n) => n,
            None => 0,
        },
        None => 0,
    }
}

impl GateioSpotAndMarginClient {
    pub fn builder() -> (r: GateioSpotAndMarginClientBuilder)
        ensures
            r.rest_api_base_url is None,
            r.websocket_market_data_api_url is None,
            r.websocket_account_data_api_url is None,
            r.instrument_type is None,
            r.credential is None,
    {
        GateioSpotAndMarginClientBuilder {
            rest_api_base_url: None,
            websocket_market_data_api_url: None,
            websocket_account_data_api_url: None,
            instrument_type: None,
            credential: None,
        }
    }

    pub fn convert_order_side_to_string(&self, side: OrderSide) -> (r: &'static str)
        requires
            side != OrderSide::Unknown,
        ensures
            r@ == gate_spot_side_text(side),
    {
        match side {
            OrderSide::Buy => "buy",
            _ => "sell",
        }
    }

    pub fn convert_string_to_order_side(&self, s: &str) -> (r: OrderSide)
        ensures
            r == gate_spot_side_of(s@),
    {
        if str_eq(s, "buy") { OrderSide::Buy } else if str_eq(s, "sell") { OrderSide::Sell } else { OrderSide::Unknown }
    }

    pub fn convert_order_type_to_string(&self, order_type: OrderType) -> (r: &'static str)
        requires
            order_type != OrderType::Unknown,
        ensures
            r@ == gate_spot_order_type_text(order_type),
    {
        match order_type {
            OrderType::Market => "market",
            _ => "limit",
        }
    }

    pub fn convert_string_to_order_type(&self, s: &str) -> (r: OrderType)
        ensures
            r == gate_spot_order_type_of(s@),
    {
        if str_eq(s, "market") { OrderType::Market } else if str_eq(s, "limit") { OrderType::Limit } else { OrderType::Unknown }
    }

    pub fn convert_string_to_order_status(&self, event: &str, finish_as: &str) -> (r: OrderStatus)
        ensures
            r == gate_spot_status_of(event@, finish_as@),
    {
        if str_eq(event, "put") {
            OrderStatus::Placed
        } else if str_eq(event, "update") {
            OrderStatus::PartiallyFilled
        } else if str_eq(event, "finish") {
            if str_eq(finish_as, "open") {
                OrderStatus::Placed
            } else if str_eq(finish_as, "filled") {
                OrderStatus::Filled
            } else if str_eq(finish_as, "cancelled") || str_eq(finish_as, "ioc") || str_eq(finish_as, "stp") || str_eq(
                finish_as,
                "poc",
            ) || str_eq(finish_as, "fok") || str_eq(finish_as, "trader_not_enough") || str_eq(
                finish_as,
                "depth_not_enough",
            ) || str_eq(finish_as, "small") || str_eq(finish_as, "liquidate_cancelled") {
                OrderStatus::Canceled
            } else {
                OrderStatus::Unknown
            }
        } else {
            OrderStatus::Unknown
        }
    }

    /// One unit in the last of `precision` decimal places: "1", "0.1", "0.01", ...
    pub fn precision_to_increment_string(&self, precision: u64) -> (r: String)
        ensures
            r@ == decimal_unit(precision as nat),
    {
        decimal_unit_text(precision)
    }

    pub fn convert_json_value_to_instrument_info(&self, item: &JsonValue) -> (r: InstrumentInfo)
        requires
            gate_spot_instrument_ok(*item),
        ensures
            gate_spot_instrument_matches(r, *item, self.instrument_type),
    {
        let price_precision = i64_member_or_zero_exec(item, "precision");
        let quantity_precision = i64_member_or_zero_exec(item, "amount_precision");
        InstrumentInfo {
            exchange_instrument_type: ExchangeInstrumentType::GateioSpotAndMargin(self.instrument_type),
            symbol: item.field_str("id"),
            base_asset: item.field_str("base"),
            quote_asset: item.field_str("quote"),
            order_price_increment: self.precision_to_increment_string(price_precision as u64),
            order_quantity_increment: self.precision_to_increment_string(quantity_precision as u64),
            order_quantity_min: item.field_str("min_base_amount"),
            order_quantity_max: item.field_str("max_base_amount"),
            order_quote_quantity_min: item.field_str("min_quote_amount"),
            order_quote_quantity_max: item.field_str("max_quote_amount"),
            settle_asset: String::new(),
            underlying_symbol: String::new(),
            contract_size: String::new(),
            expiry_timestamp: Timestamp::epoch(),
        }
    }

    pub fn convert_json_value_to_order(&self, json_value: &JsonValue) -> (r: Order)
        ensures
            gate_spot_order_matches(r, *json_value, self.instrument_type),
    {
        let order_type = json_value.field_str("type");
        let side = json_value.field_str("side");
        let event = json_value.field_str("event");
        let finish_as = json_value.field_str("finish_as");
        Order {
            exchange_instrument_type: ExchangeInstrumentType::GateioSpotAndMargin(self.instrument_type),
            symbol: json_value.field_str("currency_pair"),
            order_id: json_value.field_str("id"),
            client_order_id: json_value.field_str("text"),
            order_type: self.convert_string_to_order_type(order_type.as_str()),
            side: self.convert_string_to_order_side(side.as_str()),
            price: json_value.field_str("price"),
            quantity: json_value.field_str("amount"),
            leverage: String::new(),
            remaining_quantity: json_value.field_str("left"),
            cumulative_filled_quantity: String::new(),
            cumulative_filled_quote_quantity: json_value.field_str("filled_total"),
            average_filled_price: String::new(),
            status: self.convert_string_to_order_status(event.as_str(), finish_as.as_str()),
            fill_price: String::new(),
            fill_quantity: String::new(),
            fill_quote_quantity: String::new(),
            fill_is_maker: false,
        }
    }

    pub fn convert_json_value_to_balance(&self, json_value: &JsonValue) -> (r: Balance)
        ensures
            gate_spot_balance_matches(r, *json_value),
    {
        Balance {
            exchange: Exchange::GateioSpotAndMargin,
            asset: json_value.field_str("currency"),
            quantity: json_value.field_str("available"),
        }
    }
}

#[derive(Debug, Clone)]
pub struct GateioSpotAndMarginClientBuilder {
    pub rest_api_base_url: Option<String>,
    pub websocket_market_data_api_url: Option<String>,
    pub websocket_account_data_api_url: Option<String>,
    pub instrument_type: Option<GateioSpotAndMarginInstrumentType>,
    pub credential: Option<GateioSpotAndMarginCredential>,
}

impl GateioSpotAndMarginClientBuilder {
    pub fn rest_api_base_url(self, rest_api_base_url: String) -> (r: Self)
        ensures
            r == (GateioSpotAndMarginClientBuilder { rest_api_base_url: Some(rest_api_base_url), ..self }),
    {
        GateioSpotAndMarginClientBuilder { rest_api_base_url: Some(rest_api_base_url), ..self }
    }

    pub fn websocket_market_data_api_url(self, websocket_market_data_api_url: String) -> (r: Self)
        ensures
            r == (GateioSpotAndMarginClientBuilder {
                websocket_market_data_api_url: Some(websocket_market_data_api_url),
                ..self
            }),
    {
        GateioSpotAndMarginClientBuilder { websocket_market_data_api_url: Some(websocket_market_data_api_url), ..self }
    }

    pub fn websocket_account_data_api_url(self, websocket_account_data_api_url: String) -> (r: Self)
        ensures
            r == (GateioSpotAndMarginClientBuilder {
                websocket_account_data_api_url: Some(websocket_account_data_api_url),
                ..self
            }),
    {
        GateioSpotAndMarginClientBuilder { websocket_account_data_api_url: Some(websocket_account_data_api_url), ..self }
    }

    pub fn instrument_type(self, instrument_type: GateioSpotAndMarginInstrumentType) -> (r: Self)
        ensures
            r == (GateioSpotAndMarginClientBuilder { instrument_type: Some(instrument_type), ..self }),
    {
        GateioSpotAndMarginClientBuilder { instrument_type: Some(instrument_type), ..self }
    }

    pub fn credential(self, credential: Option<GateioSpotAndMarginCredential>) -> (r: Self)
        ensures
            r == (GateioSpotAndMarginClientBuilder { credential, ..self }),
    {
        GateioSpotAndMarginClientBuilder { credential, ..self }
    }

    /// The client: spot where no instrument type was given, the account that the type has,
    /// and Gate.io's public URLs where none were given.
    pub fn build(self) -> (r: GateioSpotAndMarginClient)
        requires
            self.instrument_type != Some(GateioSpotAndMarginInstrumentType::Unknown),
        ensures
            r.instrument_type == match self.instrument_type {
                Some(t) => t,
                None => GateioSpotAndMarginInstrumentType::Spot,
            },
            r.account@ == gate_account_text(r.instrument_type),
            r.rest_api_base_url@ == match self.rest_api_base_url {
                Some(u) => u@,
                None => "https://api.gateio.ws"@,
            },
            r.websocket_market_data_api_url@ == match self.websocket_market_data_api_url {
                Some(u) => u@,
                None => "wss://api.gateio.ws/ws/v4/"@,
            },
            r.websocket_account_data_api_url@ == match self.websocket_account_data_api_url {
                Some(u) => u@,
                None => "wss://api.gateio.ws/ws/v4/"@,
            },
            r.credential == self.credential,
            r.api_channel_id@ == "cryptochassis2"@,
    {
        let instrument_type = match self.instrument_type {
            Some(t) => t,
            None => GateioSpotAndMarginInstrumentType::Spot,
        };
        let account = match instrument_type {
            GateioSpotAndMarginInstrumentType::Spot => string_from("spot"),
            _ => string_from("margin"),
        };
        GateioSpotAndMarginClient {
            rest_api_base_url: match self.rest_api_base_url {
                Some(u) => u,
                None => string_from("https://api.gateio.ws"),
            },
            websocket_market_data_api_url: match self.websocket_market_data_api_url {
                Some(u) => u,
                None => string_from("wss://api.gateio.ws/ws/v4/"),
            },
            websocket_account_data_api_url: match self.websocket_account_data_api_url {
                Some(u) => u,
                None => string_from("wss://api.gateio.ws/ws/v4/"),
            },
            instrument_type,
            credential: self.credential,
            account,
            api_channel_id: string_from("cryptochassis2"),
        }
    }
}

/// Gate.io client order ids start with "t-".
impl Common for GateioSpotAndMarginClient {
    open spec fn client_order_id_prefix(&self) -> Seq<char> {
        "t-"@
    }

    fn prefix_client_order_id(&self, client_order_id: &mut String) {
        let mut s = string_from("t-");
        push_str(&mut s, client_order_id.as_str());
        *client_order_id = s;
    }
}

} // verus!
