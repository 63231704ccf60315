//! A client for USDT-margined perpetual swaps on HTX: its settings, and how it reads
//! contracts, orders, positions and balances.

use vstd::prelude::*;
use crate::exchange_client::common::Common;
use crate::exchanges::htx_spot::common::{htx_number_text, member_or, HtxSpotClient};
use crate::json::{field_str, spec_as_i64, spec_as_str, spec_at, spec_get, JsonValue};
use crate::text::{i64_to_string, int_text, parse_i64, parse_i64_spec, str_eq, string_from};
use crate::time::{from_millis_or_epoch, timestamp_from_millis_or_epoch};
use crate::types::{
    Balance, Exchange, ExchangeInstrumentType, InstrumentInfo, Order, OrderSide, OrderStatus, OrderType, Position,
    PositionSide, Timestamp,
};

verus! {

#[derive(Debug, Clone)]
pub struct HtxUsdtMarginedFuturesCredential {
    pub api_key: String,
    pub api_secret: String,
}

pub struct HtxUsdtMarginedFuturesClient {
    pub rest_api_base_url: String,
    pub websocket_market_data_api_url: String,
    pub websocket_account_data_api_url: String,
    pub credential: Option<HtxUsdtMarginedFuturesCredential>,
    pub api_broker_id: String,
}

pub open spec fn htx_futures_side_text(side: OrderSide) -> Seq<char> {
    if side == OrderSide::Buy { "buy"@ } else { "sell"@ }
}

pub open spec fn htx_futures_side_of(s: Seq<char>) -> OrderSide {
    if s == "buy"@ {
        OrderSide::Buy
    } else if s == "sell"@ {
        OrderSide::Sell
    } else {
        OrderSide::Unknown
    }
}

pub open spec fn htx_futures_type_text(t: OrderType) -> Seq<char> {
    if t == OrderType::Limit { "limit"@ } else { "market"@ }
}

/// The limit kinds ("limit", "post_only", "maker_only", "ioc", "fok") are limit orders;
/// everything else is taken for a market order.
pub open spec fn htx_futures_type_of(s: Seq<char>) -> OrderType {
    if s == "limit"@ || s == "post_only"@ || s == "maker_only"@ || s == "ioc"@ || s == "fok"@ {
        OrderType::Limit
    } else {
        OrderType::Market
    }
}

pub open spec fn htx_futures_status_of(s: Seq<char>) -> OrderStatus {
    if s == "new"@ {
        OrderStatus::Placed
    } else if s == "partially_filled"@ {
        OrderStatus::PartiallyFilled
    } else if s == "filled"@ {
        OrderStatus::Filled
    } else if s == "partially_canceled"@ || s == "canceled"@ {
        OrderStatus::Canceled
    } else if s == "rejected"@ {
        OrderStatus::Rejected
    } else {
        OrderStatus::Unknown
    }
}

/// The delivery time of a contract: none (the epoch) where it is missing, empty or "0",
/// or does not read as an integer; else that many milliseconds after the epoch.
pub open spec fn htx_expiry(t: Timestamp, v: JsonValue) -> bool {
    let s = match spec_get(v, "delivery_time"@) {
        Some(d) => match spec_as_str(d) {
            Some(s) => s,
            None => Seq::empty(),
        },
        None => Seq::empty(),
    };
    if s.len() == 0 || s == "0"@ {
        t.is_epoch()
    } else {
        match parse_i64_spec(s) {
            Some(ms) => from_millis_or_epoch(t, ms as int),
            None => t.is_epoch(),
        }
    }
}

pub open spec fn htx_futures_instrument_matches(info: InstrumentInfo, v: JsonValue) -> bool {
    &&& info.exchange_instrument_type == ExchangeInstrumentType::HtxUsdtMarginedFutures
    &&& info.symbol@ == field_str(v, "contract_code"@)
    &&& info.base_asset@ == field_str(v, "symbol"@)
    &&& info.quote_asset@ == "USDT"@
    &&& info.order_price_increment@ == htx_number_text(spec_at(v, "price_tick"@))
    &&& info.order_quantity_increment@ == "1"@
    &&& info.order_quantity_min@ == "1"@
    &&& info.order_quantity_max@.len() == 0
    &&& info.order_quote_quantity_min@.len() == 0
    &&& info.order_quote_quantity_max@.len() == 0
    &&& info.settle_asset@ == "USDT"@
    &&& info.underlying_symbol@.len() == 0
    &&& info.contract_size@ == htx_number_text(spec_at(v, "contract_size"@))
    &&& htx_expiry(info.expiry_timestamp, v)
}

/// The leverage: the integer "lever_rate" written out, else empty.
pub open spec fn htx_lever_rate(v: JsonValue) -> Seq<char> {
    match spec_as_i64(spec_at(v, "lever_rate"@)) {
        Some(n) => int_text(n as int),
        None => Seq::empty(),
    }
}

pub open spec fn htx_futures_order_matches(r: Order, v: JsonValue) -> bool {
    &&& r.exchange_instrument_type == ExchangeInstrumentType::HtxUsdtMarginedFutures
    &&& r.symbol@ == field_str(v, "contract_code"@)
    &&& r.order_id@ == field_str(v, "order_id"@)
    &&& r.client_order_id@ == field_str(v, "client_order_id"@)
    &&& r.order_type == htx_futures_type_of(field_str(v, "type"@))
    &&& r.side == htx_futures_side_of(field_str(v, "side"@))
    &&& r.price@ == htx_number_text(spec_at(v, "price"@))
    &&& r.quantity@ == htx_number_text(spec_at(v, "volume"@))
    &&& r.leverage@ == htx_lever_rate(v)
    &&& r.remaining_quantity@.len() == 0
    &&& r.cumulative_filled_quantity@ == htx_number_text(spec_at(v, "trade_volume"@))
    &&& r.cumulative_filled_quote_quantity@ == htx_number_text(spec_at(v, "trade_turnover"@))
    &&& r.average_filled_price@ == htx_number_text(spec_at(v, "trade_avg_price"@))
    &&& r.status == htx_futures_status_of(field_str(v, "state"@))
    &&& r.fill_price@ == htx_number_text(spec_at(v, "trade_avg_price"@))
    &&& r.fill_quantity@ == htx_number_text(spec_at(v, "trade_volume"@))
    &&& r.fill_quote_quantity@ == htx_number_text(spec_at(v, "trade_turnover"@))
    &&& !r.fill_is_maker
}

pub open spec fn htx_futures_position_matches(p: Position, v: JsonValue) -> bool {
    let direction = field_str(v, "direction"@);
    &&& p.exchange_instrument_type == ExchangeInstrumentType::HtxUsdtMarginedFutures
    &&& p.symbol@ == field_str(v, "contract_code"@)
    &&& p.side == if direction == "buy"@ {
        PositionSide::Long
    } else if direction == "sell"@ {
        PositionSide::Short
    } else {
        PositionSide::Unknown
    }
    &&& p.entry_price@ == htx_number_text(spec_at(v, "open_avg_price"@))
    &&& p.quantity@ == htx_number_text(spec_at(v, "volume"@))
    &&& p.leverage@ == htx_lever_rate(v)
    &&& p.position_asset@ == "USDT"@
}

pub open spec fn htx_futures_balance_matches(b: Balance, v: JsonValue) -> bool {
    &&& b.exchange == Exchange::HtxUsdtMarginedFutures
    &&& b.asset@ == field_str(v, "currency"@)
    &&& b.quantity@ == htx_number_text(spec_at(v, "equity"@))
}

fn lever_rate_exec(v: &JsonValue) -> (r: String)
    ensures
        r@ == htx_lever_rate(*v),
{
    match v.at("lever_rate") {
        Some(n) => match n.as_i64() {
            Some(k) => i64_to_string(k),
            None => String::new(),
        },
        None => String::new(),
    }
}

impl HtxUsdtMarginedFuturesClient {
    pub fn builder() -> (r: HtxUsdtMarginedFuturesClientBuilder)
        ensures
            r.rest_api_base_url is None,
            r.websocket_market_data_api_url is None,
            r.websocket_account_data_api_url is None,
            r.credential is None,
            r.lever_rate is None,
            r.offset is None,
    {
        HtxUsdtMarginedFuturesClientBuilder {
            rest_api_base_url: None,
            websocket_market_data_api_url: None,
            websocket_account_data_api_url: None,
            credential: None,
            lever_rate: None,
            offset: None,
        }
    }

    pub fn convert_order_side_to_string(&self, side: OrderSide) -> (r: &'static str)
        requires
            side != OrderSide::Unknown,
        ensures
            r@ == htx_futures_side_text(side),
    {
        match side {
            OrderSide::Buy => "buy",
            _ => "sell",
        }
    }

    pub fn convert_string_to_order_side(&self, s: &str) -> (r: OrderSide)
        ensures
            r == htx_futures_side_of(s@),
    {
        if str_eq(s, "buy") {
            OrderSide::Buy
        } else if str_eq(s, "sell") {
            OrderSide::Sell
        } else {
            OrderSide::Unknown
        }
    }

    pub fn convert_order_type_to_string(&self, order_type: OrderType) -> (r: &'static str)
        requires
            order_type != OrderType::Unknown,
        ensures
            r@ == htx_futures_type_text(order_type),
    {
        match order_type {
            OrderType::Limit => "limit",
            _ => "market",
        }
    }

    pub fn convert_string_to_order_type(&self, s: &str) -> (r: OrderType)
        ensures
            r == htx_futures_type_of(s@),
    {
        if str_eq(s, "limit") || str_eq(s, "post_only") || str_eq(s, "maker_only") || str_eq(s, "ioc") || str_eq(
            s,
            "fok",
        ) {
            OrderType::Limit
        } else {
            OrderType::Market
        }
    }

    pub fn convert_status_to_order_status(&self, status: &str) -> (r: OrderStatus)
        ensures
            r == htx_futures_status_of(status@),
    {
        if str_eq(status, "new") {
            OrderStatus::Placed
        } else if str_eq(status, "partially_filled") {
            OrderStatus::PartiallyFilled
        } else if str_eq(status, "filled") {
            OrderStatus::Filled
        } else if str_eq(status, "partially_canceled") || str_eq(status, "canceled") {
            OrderStatus::Canceled
        } else if str_eq(status, "rejected") {
            OrderStatus::Rejected
        } else {
            OrderStatus::Unknown
        }
    }

    /// A string itself, a number as a 64-bit float printed by Rust; else empty.
    pub fn json_number_to_string(value: &JsonValue) -> (r: String)
        ensures
            r@ == htx_number_text(*value),
    {
        HtxSpotClient::json_number_to_string(value)
    }

    /// The UTF-8 bytes of the text, percent-encoded as HTX's signatures want them.
    pub fn percent_encode_htx(s: &str) -> (r: String)
        ensures
            r@ == crate::exchanges::htx_spot::common::htx_encoded(vstd::utf8::encode_utf8(s@)),
    {
        HtxSpotClient::percent_encode_htx(s)
    }

    pub fn convert_json_value_to_instrument_info(&self, item: &JsonValue) -> (r: InstrumentInfo)
        ensures
            htx_futures_instrument_matches(r, *item),
    {
        let null = JsonValue::Null;
        let delivery = match item.get("delivery_time") {
            Some(d) => match d.as_str() {
                Some(s) => string_from(s),
                None => String::new(),
            },
            None => String::new(),
        };
        let expiry_timestamp = if delivery.as_str().unicode_len() == 0 || str_eq(delivery.as_str(), "0") {
            Timestamp::epoch()
        } else {
            match parse_i64(delivery.as_str()) {
                Some(ms) => timestamp_from_millis_or_epoch(ms),
                None => Timestamp::epoch(),
            }
        };
        InstrumentInfo {
            exchange_instrument_type: ExchangeInstrumentType::HtxUsdtMarginedFutures,
            symbol: item.field_str("contract_code"),
            base_asset: item.field_str("symbol"),
            quote_asset: string_from("USDT"),
            order_price_increment: Self::json_number_to_string(member_or(item, "price_tick", &null)),
            order_quantity_increment: string_from("1"),
            order_quantity_min: string_from("1"),
            order_quantity_max: String::new(),
            order_quote_quantity_min: String::new(),
            order_quote_quantity_max: String::new(),
            settle_asset: string_from("USDT"),
            underlying_symbol: String::new(),
            contract_size: Self::json_number_to_string(member_or(item, "contract_size", &null)),
            expiry_timestamp,
        }
    }

    pub fn convert_json_value_to_order(&self, json_value: &JsonValue) -> (r: Order)
        ensures
            htx_futures_order_matches(r, *json_value),
    {
        let null = JsonValue::Null;
        let order_type = json_value.field_str("type");
        let side = json_value.field_str("side");
        let status = json_value.field_str("state");
        Order {
            exchange_instrument_type: ExchangeInstrumentType::HtxUsdtMarginedFutures,
            symbol: json_value.field_str("contract_code"),
            order_id: json_value.field_str("order_id"),
            client_order_id: json_value.field_str("client_order_id"),
            order_type: self.convert_string_to_order_type(order_type.as_str()),
            side: self.convert_string_to_order_side(side.as_str()),
            price: Self::json_number_to_string(member_or(json_value, "price", &null)),
            quantity: Self::json_number_to_string(member_or(json_value, "volume", &null)),
            leverage: lever_rate_exec(json_value),
            remaining_quantity: String::new(),
            cumulative_filled_quantity: Self::json_number_to_string(member_or(json_value, "trade_volume", &null)),
            cumulative_filled_quote_quantity: Self::json_number_to_string(member_or(json_value, "trade_turnover", &null)),
            average_filled_price: Self::json_number_to_string(member_or(json_value, "trade_avg_price", &null)),
            status: self.convert_status_to_order_status(status.as_str()),
            fill_price: Self::json_number_to_string(member_or(json_value, "trade_avg_price", &null)),
            fill_quantity: Self::json_number_to_string(member_or(json_value, "trade_volume", &null)),
            fill_quote_quantity: Self::json_number_to_string(member_or(json_value, "trade_turnover", &null)),
            fill_is_maker: false,
        }
    }

    pub fn convert_json_value_to_position(&self, json_value: &JsonValue) -> (r: Position)
        ensures
            htx_futures_position_matches(r, *json_value),
    {
        let null = JsonValue::Null;
        let direction = json_value.field_str("direction");
        let side = if str_eq(direction.as_str(), "buy") {
            PositionSide::Long
        } else if str_eq(direction.as_str(), "sell") {
            PositionSide::Short
        } else {
            PositionSide::Unknown
        };
        Position {
            exchange_instrument_type: ExchangeInstrumentType::HtxUsdtMarginedFutures,
            symbol: json_value.field_str("contract_code"),
            side,
            entry_price: Self::json_number_to_string(member_or(json_value, "open_avg_price", &null)),
            quantity: Self::json_number_to_string(member_or(json_value, "volume", &null)),
            leverage: lever_rate_exec(json_value),
            position_asset: string_from("USDT"),
        }
    }

    pub fn convert_json_value_to_balance(&self, json_value: &JsonValue) -> (r: Balance)
        ensures
            htx_futures_balance_matches(r, *json_value),
    {
        let null = JsonValue::Null;
        Balance {
            exchange: Exchange::HtxUsdtMarginedFutures,
            asset: json_value.field_str("currency"),
            quantity: Self::json_number_to_string(member_or(json_value, "equity", &null)),
        }
    }
}

#[derive(Debug, Clone)]
pub struct HtxUsdtMarginedFuturesClientBuilder {
    pub rest_api_base_url: Option<String>,
    pub websocket_market_data_api_url: Option<String>,
    pub websocket_account_data_api_url: Option<String>,
    pub credential: Option<HtxUsdtMarginedFuturesCredential>,
    pub lever_rate: Option<u32>,
    pub offset: Option<String>,
}

impl HtxUsdtMarginedFuturesClientBuilder {
    pub fn rest_api_base_url(self, rest_api_base_url: String) -> (r: Self)
        ensures
            r == (HtxUsdtMarginedFuturesClientBuilder { rest_api_base_url: Some(rest_api_base_url), ..self }),
    {
        HtxUsdtMarginedFuturesClientBuilder { rest_api_base_url: Some(rest_api_base_url), ..self }
    }

    pub fn websocket_market_data_api_url(self, websocket_market_data_api_url: String) -> (r: Self)
        ensures
            r == (HtxUsdtMarginedFuturesClientBuilder {
                websocket_market_data_api_url: Some(websocket_market_data_api_url),
                ..self
            }),
    {
        HtxUsdtMarginedFuturesClientBuilder { websocket_market_data_api_url: Some(websocket_market_data_api_url), ..self }
    }

    pub fn websocket_account_data_api_url(self, websocket_account_data_api_url: String) -> (r: Self)
        ensures
            r == (HtxUsdtMarginedFuturesClientBuilder {
                websocket_account_data_api_url: Some(websocket_account_data_api_url),
                ..self
            }),
    {
        HtxUsdtMarginedFuturesClientBuilder { websocket_account_data_api_url: Some(websocket_account_data_api_url), ..self }
    }

    pub fn credential(self, credential: Option<HtxUsdtMarginedFuturesCredential>) -> (r: Self)
        ensures
            r == (HtxUsdtMarginedFuturesClientBuilder { credential, ..self }),
    {
        HtxUsdtMarginedFuturesClientBuilder { credential, ..self }
    }

    pub fn lever_rate(self, lever_rate: u32) -> (r: Self)
        ensures
            r == (HtxUsdtMarginedFuturesClientBuilder { lever_rate: Some(lever_rate), ..self }),
    {
        HtxUsdtMarginedFuturesClientBuilder { lever_rate: Some(lever_rate), ..self }
    }

    pub fn offset(self, offset: String) -> (r: Self)
        ensures
            r == (HtxUsdtMarginedFuturesClientBuilder { offset: Some(offset), ..self }),
    {
        HtxUsdtMarginedFuturesClientBuilder { offset: Some(offset), ..self }
    }

    /// The client: HTX's public URLs where none were given. The leverage and offset are
    /// not used by the client.
    pub fn build(self) -> (r: HtxUsdtMarginedFuturesClient)
        ensures
            r.rest_api_base_url@ == match self.rest_api_base_url {
                Some(u) => u@,
                None => "https://api.hbdm.com"@,
            },
            r.websocket_market_data_api_url@ == match self.websocket_market_data_api_url {
                Some(u) => u@,
                None => "wss://api.hbdm.com/linear-swap-ws"@,
            },
            r.websocket_account_data_api_url@ == match self.websocket_account_data_api_url {
                Some(u) => u@,
                None => "wss://api.hbdm.com/ws/v5/notification"@,
            },
            r.credential == self.credential,
            r.api_broker_id@ == "AA3b46363e"@,
    {
        HtxUsdtMarginedFuturesClient {
            rest_api_base_url: match self.rest_api_base_url {
                Some(u) => u,
                None => string_from("https://api.hbdm.com"),
            },
            websocket_market_data_api_url: match self.websocket_market_data_api_url {
                Some(u) => u,
                None => string_from("wss://api.hbdm.com/linear-swap-ws"),
            },
            websocket_account_data_api_url: match self.websocket_account_data_api_url {
                Some(u) => u,
                None => string_from("wss://api.hbdm.com/ws/v5/notification"),
            },
            credential: self.credential,
            api_broker_id: string_from("AA3b46363e"),
        }
    }
}

/// Client order ids of this exchange carry no prefix.
impl Common for HtxUsdtMarginedFuturesClient {
    open spec fn client_order_id_prefix(&self) -> Seq<char> {
        Seq::empty()
    }

    fn prefix_client_order_id(&self, client_order_id: &mut String) {
        assert(client_order_id@ =~= Seq::<char>::empty() + client_order_id@);
    }
}

} // verus!
