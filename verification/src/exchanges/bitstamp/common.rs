//! The Bitstamp client: its settings, and how it reads orders and positions.

use vstd::prelude::*;
use crate::exchange_client::common::Common;
use vstd::utf8::is_char_boundary;
use vstd::string::StringSliceAdditionalSpecFns;
use crate::json::{field_str, field_str_either, spec_as_i64, spec_as_str, spec_at, str_or_u64_text, JsonValue};
use crate::text::{str_eq, string_from, strip_prefix};
use crate::types::{
    ExchangeInstrumentType, Order, OrderSide, OrderStatus, OrderType, Position, PositionSide,
};

verus! {

#[derive(Debug, Clone)]
pub struct BitstampCredential {
    pub api_key: String,
    pub api_secret: String,
}

/// A Bitstamp client. The websocket token and user id are those obtained when the
/// websocket connection was authenticated.
pub struct BitstampClient {
    pub rest_api_base_url: String,
    pub websocket_market_data_api_url: String,
    pub websocket_account_data_api_url: String,
    pub credential: Option<BitstampCredential>,
    pub websocket_token: Option<String>,
    pub websocket_user_id: Option<String>,
}

impl Default for BitstampClient {
    fn default() -> (r: Self)
        ensures
            r.rest_api_base_url@.len() == 0,
            r.websocket_market_data_api_url@.len() == 0,
            r.websocket_account_data_api_url@.len() == 0,
            r.credential is None,
            r.websocket_token is None,
            r.websocket_user_id is None,
    {
        BitstampClient {
            rest_api_base_url: String::new(),
            websocket_market_data_api_url: String::new(),
            websocket_account_data_api_url: String::new(),
            credential: None,
            websocket_token: None,
            websocket_user_id: None,
        }
    }
}

pub open spec fn ascii_lower(b: u8) -> u8 {
    if 65 <= b <= 90 {
        (b + 32) as u8
    } else {
        b
    }
}

/// The bytes of "-perp".
pub open spec fn perp_suffix() -> Seq<u8> {
    seq![45u8, 112u8, 101u8, 114u8, 112u8]
}

/// Whether the last five bytes are "-perp", ignoring ASCII case.
pub open spec fn has_derivatives_suffix(b: Seq<u8>) -> bool {
    b.len() >= 5 && forall|i: int| 0 <= i < 5 ==> ascii_lower(#[trigger] b[b.len() - 5 + i]) == perp_suffix()[i]
}

/// Bitstamp's order side: "0" (or the number 0) buys, "1" (or any other integer) sells.
pub open spec fn bitstamp_side_of(v: JsonValue) -> OrderSide {
    match spec_as_str(v) {
        Some(s) => if s == "0"@ {
            OrderSide::Buy
        } else if s == "1"@ {
            OrderSide::Sell
        } else {
            OrderSide::Unknown
        },
        None => match spec_as_i64(v) {
            Some(n) => if n == 0 {
                OrderSide::Buy
            } else {
                OrderSide::Sell
            },
            None => OrderSide::Unknown,
        },
    }
}

pub open spec fn bitstamp_order_type_of(s: Seq<char>) -> OrderType {
    if s == "LIMIT"@ || s == "STOP_LOSS_LIMIT"@ || s == "TAKE_PROFIT_LIMIT"@ || s
        == "TRAILING_STOP_LOSS_LIMIT"@ || s == "TRAILING_TAKE_PROFIT_LIMIT"@ {
        OrderType::Limit
    } else if s == "MARKET"@ || s == "STOP_LOSS"@ || s == "TAKE_PROFIT"@ || s
        == "TRAILING_STOP_LOSS"@ || s == "TRAILING_TAKE_PROFIT"@ {
        OrderType::Market
    } else {
        OrderType::Unknown
    }
}

pub open spec fn bitstamp_position_side_of(v: JsonValue) -> PositionSide {
    match spec_as_str(v) {
        Some(s) => if s == "LONG"@ {
            PositionSide::Long
        } else if s == "SHORT"@ {
            PositionSide::Short
        } else {
            PositionSide::Unknown
        },
        None => PositionSide::Unknown,
    }
}

/// The position size without its leading '-', or empty where it has none.
pub open spec fn unsigned_size(s: Seq<char>) -> Seq<char> {
    if s.len() > 0 && s[0] == '-' {
        s.drop_first()
    } else {
        Seq::empty()
    }
}

/// An order read from one of Bitstamp's order documents.
pub open spec fn bitstamp_order_matches(r: Order, value: JsonValue) -> bool {
    &&& r.exchange_instrument_type == ExchangeInstrumentType::Bitstamp
    &&& r.symbol@ == field_str_either(value, "market"@, "currency_pair"@)
    &&& r.order_id@ == str_or_u64_text(spec_at(value, "id"@))
    &&& r.client_order_id@ == field_str(value, "client_order_id"@)
    &&& r.order_type == bitstamp_order_type_of(field_str(value, "subtype"@))
    &&& r.side == bitstamp_side_of(spec_at(value, "type"@))
    &&& r.price@ == field_str(value, "price"@)
    &&& r.quantity@ == field_str_either(value, "amount_at_create"@, "amount"@)
    &&& r.leverage@ == field_str(value, "leverage"@)
    &&& r.remaining_quantity@ == field_str(value, "amount"@)
    &&& r.status == OrderStatus::Open
    &&& r.cumulative_filled_quantity@.len() == 0
    &&& r.cumulative_filled_quote_quantity@.len() == 0
    &&& r.average_filled_price@.len() == 0
    &&& r.fill_price@.len() == 0
    &&& r.fill_quantity@.len() == 0
    &&& r.fill_quote_quantity@.len() == 0
    &&& !r.fill_is_maker
}

impl BitstampClient {
    pub fn builder() -> (r: BitstampClientBuilder)
        ensures
            r.rest_api_base_url is None,
            r.websocket_market_data_api_url is None,
            r.websocket_account_data_api_url is None,
            r.credential is None,
    {
        BitstampClientBuilder {
            rest_api_base_url: None,
            websocket_market_data_api_url: None,
            websocket_account_data_api_url: None,
            credential: None,
        }
    }

    /// Whether the symbol names a perpetual contract: it ends with "-perp", in any case.
    pub fn is_instrument_derivatives(symbol: &str) -> (r: bool)
        requires
            symbol.spec_bytes().len() >= 5 ==> is_char_boundary(
                symbol.spec_bytes(),
                symbol.spec_bytes().len() - 5,
            ),
        ensures
            r == has_derivatives_suffix(symbol.spec_bytes()),
    {
        let bytes = symbol.as_bytes();
        let n: usize = bytes.len();
        if n < 5 {
            return false;
        }
        let suffix: [u8; 5] = [45u8, 112u8, 101u8, 114u8, 112u8];
        let mut i: usize = 0;
        while i < 5
            invariant
                n == bytes@.len(),
                n >= 5,
                bytes@ == symbol.spec_bytes(),
                suffix@ == perp_suffix(),
                i <= 5,
                forall|j: int| 0 <= j < i ==> ascii_lower(#[trigger] bytes@[n - 5 + j]) == perp_suffix()[j],
            decreases 5 - i,
        {
            let b: u8 = bytes[n - 5 + i];
            let lower: u8 = if 65 <= b && b <= 90 { b + 32 } else { b };
            if lower != suffix[i] {
                return false;
            }
            i = i + 1;
        }
        true
    }

    /// Order side from Bitstamp's "type" member.
    pub fn convert_string_to_order_side(&self, value: &JsonValue) -> (r: OrderSide)
        ensures
            r == bitstamp_side_of(*value),
    {
        match value.as_str() {
            Some(s) => if str_eq(s, "0") {
                OrderSide::Buy
            } else if str_eq(s, "1") {
                OrderSide::Sell
            } else {
                OrderSide::Unknown
            },
            None => match value.as_i64() {
                Some(n) => if n == 0 {
                    OrderSide::Buy
                } else {
                    OrderSide::Sell
                },
                None => OrderSide::Unknown,
            },
        }
    }

    pub fn convert_string_to_order_type(&self, value: &str) -> (r: OrderType)
        ensures
            r == bitstamp_order_type_of(value@),
    {
        if str_eq(value, "LIMIT") || str_eq(value, "STOP_LOSS_LIMIT") || str_eq(value, "TAKE_PROFIT_LIMIT")
            || str_eq(value, "TRAILING_STOP_LOSS_LIMIT") || str_eq(value, "TRAILING_TAKE_PROFIT_LIMIT") {
            OrderType::Limit
        } else if str_eq(value, "MARKET") || str_eq(value, "STOP_LOSS") || str_eq(value, "TAKE_PROFIT")
            || str_eq(value, "TRAILING_STOP_LOSS") || str_eq(value, "TRAILING_TAKE_PROFIT") {
            OrderType::Market
        } else {
            OrderType::Unknown
        }
    }

    /// An open order from Bitstamp's order document.
    pub fn convert_json_value_to_order(&self, value: &JsonValue) -> (r: Order)
        ensures
            bitstamp_order_matches(r, *value),
    {
        let order_id = match value.at("id") {
            Some(id) => id.str_or_u64_text(),
            None => String::new(),
        };
        let side = match value.at("type") {
            Some(t) => self.convert_string_to_order_side(t),
            None => self.convert_string_to_order_side(&JsonValue::Null),
        };
        let subtype = value.field_str("subtype");
        Order {
            exchange_instrument_type: ExchangeInstrumentType::Bitstamp,
            symbol: value.field_str_either("market", "currency_pair"),
            order_id,
            client_order_id: value.field_str("client_order_id"),
            order_type: self.convert_string_to_order_type(subtype.as_str()),
            side,
            price: value.field_str("price"),
            quantity: value.field_str_either("amount_at_create", "amount"),
            leverage: value.field_str("leverage"),
            remaining_quantity: value.field_str("amount"),
            cumulative_filled_quantity: String::new(),
            cumulative_filled_quote_quantity: String::new(),
            average_filled_price: String::new(),
            status: OrderStatus::Open,
            fill_price: String::new(),
            fill_quantity: String::new(),
            fill_quote_quantity: String::new(),
            fill_is_maker: false,
        }
    }

    /// An open position from Bitstamp's position document.
    pub fn convert_json_value_to_position(&self, value: &JsonValue) -> (r: Position)
        ensures
            r.exchange_instrument_type == ExchangeInstrumentType::Bitstamp,
            r.symbol@ == field_str(*value, "market"@),
            r.side == bitstamp_position_side_of(spec_at(*value, "side"@)),
            r.entry_price@ == field_str(*value, "entry_price"@),
            r.quantity@ == unsigned_size(field_str(*value, "size"@)),
            r.leverage@ == field_str(*value, "leverage"@),
            r.position_asset@ == field_str(*value, "settlement_currency"@),
    {
        let side = match value.at("side") {
            Some(s) => match s.as_str() {
                Some(t) => if str_eq(t, "LONG") {
                    PositionSide::Long
                } else if str_eq(t, "SHORT") {
                    PositionSide::Short
                } else {
                    PositionSide::Unknown
                },
                None => PositionSide::Unknown,
            },
            None => PositionSide::Unknown,
        };
        let size = value.field_str("size");
        let quantity = match strip_prefix(size.as_str(), "-") {
            Some(q) => q,
            None => String::new(),
        };
        proof {
            reveal_strlit("-");
            assert("-"@.len() == 1 && "-"@[0] == '-');
            if "-"@.is_prefix_of(size@) {
                assert(size@[0] == "-"@[0]);
            }
            if size@.len() > 0 && size@[0] == '-' {
                assert("-"@.is_prefix_of(size@));
                assert(size@.subrange(1, size@.len() as int) =~= size@.drop_first());
            }
        }
        Position {
            exchange_instrument_type: ExchangeInstrumentType::Bitstamp,
            symbol: value.field_str("market"),
            side,
            entry_price: value.field_str("entry_price"),
            quantity,
            leverage: value.field_str("leverage"),
            position_asset: value.field_str("settlement_currency"),
        }
    }
}

#[derive(Debug, Clone)]
pub struct BitstampClientBuilder {
    pub rest_api_base_url: Option<String>,
    pub websocket_market_data_api_url: Option<String>,
    pub websocket_account_data_api_url: Option<String>,
    pub credential: Option<BitstampCredential>,
}

impl BitstampClientBuilder {
    pub fn rest_api_base_url(self, rest_api_base_url: String) -> (r: Self)
        ensures
            r.rest_api_base_url == Some(rest_api_base_url),
            r.websocket_market_data_api_url == self.websocket_market_data_api_url,
            r.websocket_account_data_api_url == self.websocket_account_data_api_url,
            r.credential == self.credential,
    {
        BitstampClientBuilder { rest_api_base_url: Some(rest_api_base_url), ..self }
    }

    pub fn websocket_market_data_api_url(self, websocket_market_data_api_url: String) -> (r: Self)
        ensures
            r.rest_api_base_url == self.rest_api_base_url,
            r.websocket_market_data_api_url == Some(websocket_market_data_api_url),
            r.websocket_account_data_api_url == self.websocket_account_data_api_url,
            r.credential == self.credential,
    {
        BitstampClientBuilder { websocket_market_data_api_url: Some(websocket_market_data_api_url), ..self }
    }

    pub fn websocket_account_data_api_url(self, websocket_account_data_api_url: String) -> (r: Self)
        ensures
            r.rest_api_base_url == self.rest_api_base_url,
            r.websocket_market_data_api_url == self.websocket_market_data_api_url,
            r.websocket_account_data_api_url == Some(websocket_account_data_api_url),
            r.credential == self.credential,
    {
        BitstampClientBuilder { websocket_account_data_api_url: Some(websocket_account_data_api_url), ..self }
    }

    pub fn credential(self, credential: Option<BitstampCredential>) -> (r: Self)
        ensures
            r.rest_api_base_url == self.rest_api_base_url,
            r.websocket_market_data_api_url == self.websocket_market_data_api_url,
            r.websocket_account_data_api_url == self.websocket_account_data_api_url,
            r.credential == credential,
    {
        BitstampClientBuilder { credential, ..self }
    }

    /// The client, with Bitstamp's public URLs where none were given.
    pub fn build(self) -> (r: BitstampClient)
        ensures
            r.rest_api_base_url@ == match self.rest_api_base_url {
                Some(u) => u@,
                None => "https://www.bitstamp.net"@,
            },
            r.websocket_market_data_api_url@ == match self.websocket_market_data_api_url {
                Some(u) => u@,
                None => "wss://ws.bitstamp.net"@,
            },
            r.websocket_account_data_api_url@ == match self.websocket_account_data_api_url {
                Some(u) => u@,
                None => "wss://ws.bitstamp.net"@,
            },
            r.credential == self.credential,
            r.websocket_token is None,
            r.websocket_user_id is None,
    {
        BitstampClient {
            rest_api_base_url: match self.rest_api_base_url {
                Some(u) => u,
                None => string_from("https://www.bitstamp.net"),
            },
            websocket_market_data_api_url: match self.websocket_market_data_api_url {
                Some(u) => u,
                None => string_from("wss://ws.bitstamp.net"),
            },
            websocket_account_data_api_url: match self.websocket_account_data_api_url {
                Some(u) => u,
                None => string_from("wss://ws.bitstamp.net"),
            },
            credential: self.credential,
            websocket_token: None,
            websocket_user_id: None,
        }
    }
}

/// No prefix in front of client order ids.
impl Common for BitstampClient {
    open spec fn client_order_id_prefix(&self) -> Seq<char> {
        Seq::empty()
    }

    fn prefix_client_order_id(&self, client_order_id: &mut String) {
        assert(client_order_id@ =~= Seq::<char>::empty() + client_order_id@);
    }
}

} // verus!
