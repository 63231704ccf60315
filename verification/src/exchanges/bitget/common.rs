//! The Bitget client: its settings, and how it reads orders, positions and balances.

use vstd::prelude::*;
use crate::exchange_client::common::Common;
use crate::json::{field_str, str_or, spec_at, JsonValue};
use crate::text::{str_eq, string_from};
use crate::types::{
    Balance, BitgetInstrumentType, Exchange, ExchangeInstrumentType, Order, OrderSide, OrderStatus,
    OrderType, Position, PositionSide,
};

verus! {

#[derive(Debug, Clone)]
pub struct BitgetCredential {
    pub api_key: String,
    pub api_secret: String,
    pub passphrase: String,
}

pub struct BitgetClient {
    pub rest_api_base_url: String,
    pub websocket_market_data_api_url: String,
    pub websocket_account_data_api_url: String,
    pub instrument_type: BitgetInstrumentType,
    pub credential: Option<BitgetCredential>,
    pub category: String,
    pub api_channel_api_code: String,
    pub use_demo_trading: bool,
}

pub open spec fn bitget_side_of(s: Seq<char>) -> OrderSide {
    if s == "buy"@ { OrderSide::Buy } else if s == "sell"@ { OrderSide::Sell } else { OrderSide::Unknown }
}

pub open spec fn bitget_side_text(side: OrderSide) -> Seq<char> {
    if side == OrderSide::Buy { "buy"@ } else { "sell"@ }
}

pub open spec fn bitget_order_type_of(s: Seq<char>) -> OrderType {
    if s == "market"@ { OrderType::Market } else if s == "limit"@ { OrderType::Limit } else { OrderType::Unknown }
}

pub open spec fn bitget_order_type_text(t: OrderType) -> Seq<char> {
    if t == OrderType::Market { "market"@ } else { "limit"@ }
}

pub open spec fn bitget_status_of(s: Seq<char>) -> OrderStatus {
    if s == "new"@ || s == "init"@ || s == "live"@ {
        OrderStatus::Placed
    } else if s == "partially_filled"@ {
        OrderStatus::PartiallyFilled
    } else if s == "filled"@ {
        OrderStatus::Filled
    } else if s == "canceled"@ || s == "cancelled"@ {
        OrderStatus::Canceled
    } else {
        OrderStatus::Unknown
    }
}

pub open spec fn bitget_position_side_of(s: Seq<char>) -> PositionSide {
    if s == "long"@ { PositionSide::Long } else if s == "short"@ { PositionSide::Short } else { PositionSide::Unknown }
}

/// Bitget's name for an instrument type.
pub open spec fn bitget_category_text(t: BitgetInstrumentType) -> Seq<char> {
    match t {
        BitgetInstrumentType::Spot => "SPOT"@,
        BitgetInstrumentType::UsdtFutures => "USDT-FUTURES"@,
        _ => "COIN-FUTURES"@,
    }
}

/// An order read from one of Bitget's order documents.
pub open spec fn bitget_order_matches(r: Order, v: JsonValue, t: BitgetInstrumentType) -> bool {
    &&& r.exchange_instrument_type == ExchangeInstrumentType::Bitget(t)
    &&& r.symbol@ == field_str(v, "symbol"@)
    &&& r.order_id@ == field_str(v, "orderId"@)
    &&& r.client_order_id@ == field_str(v, "clientOid"@)
    &&& r.order_type == bitget_order_type_of(field_str(v, "orderType"@))
    &&& r.side == bitget_side_of(field_str(v, "side"@))
    &&& r.price@ == field_str(v, "price"@)
    &&& r.quantity@ == str_or(spec_at(v, "qty"@), "0"@)
    &&& r.cumulative_filled_quantity@ == str_or(spec_at(v, "cumExecQty"@), "0"@)
    &&& r.cumulative_filled_quote_quantity@ == field_str(v, "cumExecValue"@)
    &&& r.average_filled_price@ == field_str(v, "avgPrice"@)
    &&& r.status == bitget_status_of(field_str(v, "orderStatus"@))
    &&& r.leverage@.len() == 0
    &&& r.remaining_quantity@.len() == 0
    &&& r.fill_price@.len() == 0
    &&& r.fill_quantity@.len() == 0
    &&& r.fill_quote_quantity@.len() == 0
    &&& !r.fill_is_maker
}

pub open spec fn bitget_position_matches(p: Position, v: JsonValue, t: BitgetInstrumentType) -> bool {
    &&& p.exchange_instrument_type == ExchangeInstrumentType::Bitget(t)
    &&& p.symbol@ == field_str(v, "symbol"@)
    &&& p.side == bitget_position_side_of(field_str(v, "posSide"@))
    &&& p.entry_price@ == field_str(v, "avgPrice"@)
    &&& p.quantity@ == field_str(v, "total"@)
    &&& p.leverage@ == field_str(v, "leverage"@)
    &&& p.position_asset@ == field_str(v, "marginCoin"@)
}

pub open spec fn bitget_balance_matches(b: Balance, v: JsonValue) -> bool {
    &&& b.exchange == Exchange::Bitget
    &&& b.asset@ == field_str(v, "coin"@)
    &&& b.quantity@ == field_str(v, "available"@)
}

pub open spec fn ascii_upper(s: Seq<char>) -> Seq<char> {
    s.map_values(|c: char| if 'a' <= c && c <= 'z' { ((c as u32) - 32) as char } else { c })
}

impl BitgetClient {
    pub fn builder() -> (r: BitgetClientBuilder)
        ensures
            r.rest_api_base_url is None,
            r.websocket_market_data_api_url is None,
            r.websocket_account_data_api_url is None,
            r.instrument_type is None,
            r.credential is None,
            r.use_demo_trading is None,
    {
        BitgetClientBuilder {
            rest_api_base_url: None,
            websocket_market_data_api_url: None,
            websocket_account_data_api_url: None,
            instrument_type: None,
            credential: None,
            use_demo_trading: None,
        }
    }

    pub fn convert_order_side_to_string(&self, side: OrderSide) -> (r: &'static str)
        requires
            side != OrderSide::Unknown,
        ensures
            r@ == bitget_side_text(side),
    {
        match side {
            OrderSide::Buy => "buy",
            _ => "sell",
        }
    }

    pub fn convert_string_to_order_side(&self, s: &str) -> (r: OrderSide)
        ensures
            r == bitget_side_of(s@),
    {
        if str_eq(s, "buy") { OrderSide::Buy } else if str_eq(s, "sell") { OrderSide::Sell } else { OrderSide::Unknown }
    }

    pub fn convert_order_type_to_string(&self, order_type: OrderType) -> (r: &'static str)
        requires
            order_type != OrderType::Unknown,
        ensures
            r@ == bitget_order_type_text(order_type),
    {
        match order_type {
            OrderType::Market => "market",
            _ => "limit",
        }
    }

    pub fn convert_string_to_order_type(&self, s: &str) -> (r: OrderType)
        ensures
            r == bitget_order_type_of(s@),
    {
        if str_eq(s, "market") { OrderType::Market } else if str_eq(s, "limit") { OrderType::Limit } else { OrderType::Unknown }
    }

    pub fn convert_string_to_order_status(&self, s: &str) -> (r: OrderStatus)
        ensures
            r == bitget_status_of(s@),
    {
        if str_eq(s, "new") || str_eq(s, "init") || str_eq(s, "live") {
            OrderStatus::Placed
        } else if str_eq(s, "partially_filled") {
            OrderStatus::PartiallyFilled
        } else if str_eq(s, "filled") {
            OrderStatus::Filled
        } else if str_eq(s, "canceled") || str_eq(s, "cancelled") {
            OrderStatus::Canceled
        } else {
            OrderStatus::Unknown
        }
    }

    pub fn convert_string_to_position_side(&self, s: &str) -> (r: PositionSide)
        ensures
            r == bitget_position_side_of(s@),
    {
        if str_eq(s, "long") { PositionSide::Long } else if str_eq(s, "short") { PositionSide::Short } else { PositionSide::Unknown }
    }

    pub fn convert_json_value_to_order(&self, json_value: &JsonValue) -> (r: Order)
        ensures
            bitget_order_matches(r, *json_value, self.instrument_type),
    {
        let order_type = json_value.field_str("orderType");
        let side = json_value.field_str("side");
        let status = json_value.field_str("orderStatus");
        Order {
            exchange_instrument_type: ExchangeInstrumentType::Bitget(self.instrument_type),
            symbol: json_value.field_str("symbol"),
            order_id: json_value.field_str("orderId"),
            client_order_id: json_value.field_str("clientOid"),
            order_type: self.convert_string_to_order_type(order_type.as_str()),
            side: self.convert_string_to_order_side(side.as_str()),
            price: json_value.field_str("price"),
            quantity: json_value.field_str_or("qty", "0"),
            leverage: String::new(),
            remaining_quantity: String::new(),
            cumulative_filled_quantity: json_value.field_str_or("cumExecQty", "0"),
            cumulative_filled_quote_quantity: json_value.field_str("cumExecValue"),
            average_filled_price: json_value.field_str("avgPrice"),
            status: self.convert_string_to_order_status(status.as_str()),
            fill_price: String::new(),
            fill_quantity: String::new(),
            fill_quote_quantity: String::new(),
            fill_is_maker: false,
        }
    }

    pub fn convert_json_value_to_position(&self, json_value: &JsonValue) -> (r: Position)
        ensures
            bitget_position_matches(r, *json_value, self.instrument_type),
    {
        let side = json_value.field_str("posSide");
        Position {
            exchange_instrument_type: ExchangeInstrumentType::Bitget(self.instrument_type),
            symbol: json_value.field_str("symbol"),
            side: self.convert_string_to_position_side(side.as_str()),
            entry_price: json_value.field_str("avgPrice"),
            quantity: json_value.field_str("total"),
            leverage: json_value.field_str("leverage"),
            position_asset: json_value.field_str("marginCoin"),
        }
    }

    pub fn convert_json_value_to_balance(&self, json_value: &JsonValue) -> (r: Balance)
        ensures
            bitget_balance_matches(r, *json_value),
    {
        Balance {
            exchange: Exchange::Bitget,
            asset: json_value.field_str("coin"),
            quantity: json_value.field_str("available"),
        }
    }
}

#[derive(Debug, Clone)]
pub struct BitgetClientBuilder {
    pub rest_api_base_url: Option<String>,
    pub websocket_market_data_api_url: Option<String>,
    pub websocket_account_data_api_url: Option<String>,
    pub instrument_type: Option<BitgetInstrumentType>,
    pub credential: Option<BitgetCredential>,
    pub use_demo_trading: Option<bool>,
}

impl BitgetClientBuilder {
    pub fn rest_api_base_url(self, rest_api_base_url: String) -> (r: Self)
        ensures
            r == (BitgetClientBuilder { rest_api_base_url: Some(rest_api_base_url), ..self }),
    {
        BitgetClientBuilder { rest_api_base_url: Some(rest_api_base_url), ..self }
    }

    pub fn websocket_market_data_api_url(self, websocket_market_data_api_url: String) -> (r: Self)
        ensures
            r == (BitgetClientBuilder { websocket_market_data_api_url: Some(websocket_market_data_api_url), ..self }),
    {
        BitgetClientBuilder { websocket_market_data_api_url: Some(websocket_market_data_api_url), ..self }
    }

    pub fn websocket_account_data_api_url(self, websocket_account_data_api_url: String) -> (r: Self)
        ensures
            r == (BitgetClientBuilder { websocket_account_data_api_url: Some(websocket_account_data_api_url), ..self }),
    {
        BitgetClientBuilder { websocket_account_data_api_url: Some(websocket_account_data_api_url), ..self }
    }

    pub fn instrument_type(self, instrument_type: BitgetInstrumentType) -> (r: Self)
        ensures
            r == (BitgetClientBuilder { instrument_type: Some(instrument_type), ..self }),
    {
        BitgetClientBuilder { instrument_type: Some(instrument_type), ..self }
    }

    pub fn credential(self, credential: Option<BitgetCredential>) -> (r: Self)
        ensures
            r == (BitgetClientBuilder { credential, ..self }),
    {
        BitgetClientBuilder { credential, ..self }
    }

    pub fn use_demo_trading(self, use_demo_trading: Option<bool>) -> (r: Self)
        ensures
            r == (BitgetClientBuilder { use_demo_trading, ..self }),
    {
        BitgetClientBuilder { use_demo_trading, ..self }
    }

    /// The client: Bitget's public URLs where none were given, spot where no instrument
    /// type was given, and the category that the instrument type has.
    pub fn build(self) -> (r: BitgetClient)
        requires
            self.instrument_type != Some(BitgetInstrumentType::Unknown),
        ensures
            r.rest_api_base_url@ == match self.rest_api_base_url {
                Some(u) => u@,
                None => "https://api.bitget.com"@,
            },
            r.websocket_market_data_api_url@ == match self.websocket_market_data_api_url {
                Some(u) => u@,
                None => "wss://ws.bitget.com/v3/ws/public"@,
            },
            r.websocket_account_data_api_url@ == match self.websocket_account_data_api_url {
                Some(u) => u@,
                None => "wss://ws.bitget.com/v3/ws/private"@,
            },
            r.instrument_type == match self.instrument_type {
                Some(t) => t,
                None => BitgetInstrumentType::Spot,
            },
            r.category@ == bitget_category_text(r.instrument_type),
            r.credential == self.credential,
            r.api_channel_api_code@ == "95mpa"@,
            r.use_demo_trading == match self.use_demo_trading {
                Some(b) => b,
                None => false,
            },
    {
        let instrument_type = match self.instrument_type {
            Some(t) => t,
            None => BitgetInstrumentType::Spot,
        };
        let category = match instrument_type {
            BitgetInstrumentType::Spot => string_from("SPOT"),
            BitgetInstrumentType::UsdtFutures => string_from("USDT-FUTURES"),
            _ => string_from("COIN-FUTURES"),
        };
        BitgetClient {
            rest_api_base_url: match self.rest_api_base_url {
                Some(u) => u,
                None => string_from("https://api.bitget.com"),
            },
            websocket_market_data_api_url: match self.websocket_market_data_api_url {
                Some(u) => u,
                None => string_from("wss://ws.bitget.com/v3/ws/public"),
            },
            websocket_account_data_api_url: match self.websocket_account_data_api_url {
                Some(u) => u,
                None => string_from("wss://ws.bitget.com/v3/ws/private"),
            },
            instrument_type,
            credential: self.credential,
            category,
            api_channel_api_code: string_from("95mpa"),
            use_demo_trading: match self.use_demo_trading {
                Some(b) => b,
                None => false,
            },
        }
    }
}

/// The instrument type of a category name, in any ASCII case.
pub fn category_to_instrument_type(category: &str) -> (r: BitgetInstrumentType)
    requires
        ascii_upper(category@) == "SPOT"@ || ascii_upper(category@) == "USDT-FUTURES"@ || ascii_upper(category@)
            == "COIN-FUTURES"@,
    ensures
        ascii_upper(category@) == "SPOT"@ ==> r == BitgetInstrumentType::Spot,
        ascii_upper(category@) == "USDT-FUTURES"@ ==> r == BitgetInstrumentType::UsdtFutures,
        ascii_upper(category@) == "COIN-FUTURES"@ ==> r == BitgetInstrumentType::CoinFutures,
{
    let upper = to_ascii_uppercase(category);
    proof {
        reveal_strlit("SPOT");
        reveal_strlit("USDT-FUTURES");
        reveal_strlit("COIN-FUTURES");
        assert("SPOT"@.len() != "USDT-FUTURES"@.len());
        assert("SPOT"@.len() != "COIN-FUTURES"@.len());
        assert("USDT-FUTURES"@[0] != "COIN-FUTURES"@[0]);
    }
    if str_eq(upper.as_str(), "SPOT") {
        BitgetInstrumentType::Spot
    } else if str_eq(upper.as_str(), "USDT-FUTURES") {
        BitgetInstrumentType::UsdtFutures
    } else {
        BitgetInstrumentType::CoinFutures
    }
}

/// The text with ASCII letters in upper case.
pub fn to_ascii_uppercase(s: &str) -> (r: String)
    ensures
        r@ == ascii_upper(s@),
{
    let n: usize = s.unicode_len();
    let mut out = String::new();
    let mut i: usize = 0;
    while i < n
        invariant
            n == s@.len(),
            i <= n,
            out@ == ascii_upper(s@.subrange(0, i as int)),
        decreases n - i,
    {
        let c = s.get_char(i);
        let u = if 'a' <= c && c <= 'z' { ((c as u32) - 32) as u8 as char } else { c };
        crate::text::push_char(&mut out, u);
        assert(ascii_upper(s@.subrange(0, i + 1)) =~= ascii_upper(s@.subrange(0, i as int)).push(u));
        i = i + 1;
    }
    assert(s@.subrange(0, n as int) =~= s@);
    out
}

/// No prefix in front of client order ids.
impl Common for BitgetClient {
    open spec fn client_order_id_prefix(&self) -> Seq<char> {
        Seq::empty()
    }

    fn prefix_client_order_id(&self, client_order_id: &mut String) {
        assert(client_order_id@ =~= Seq::<char>::empty() + client_order_id@);
    }
}

} // verus!
