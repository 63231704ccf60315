//! A client for spot trading on HTX: its settings, the percent-encoding its signatures
//! use, and how it reads instruments, orders and balances.

use vstd::prelude::*;
use vstd::utf8::encode_utf8;
use crate::exchange_client::common::Common;
use crate::exchanges::gateio_spot_and_margin::common::{i64_member_or_zero, i64_member_or_zero_exec};
use crate::json::{field_str, spec_as_u64, spec_at, JsonValue};
use crate::signing::hex_upper;
use crate::text::{
    decimal_unit, decimal_unit_text, ends_with_text, nat_digits, push_char, push_str, starts_with, str_eq,
    string_from, u64_to_string,
};
use crate::types::{
    Balance, Exchange, ExchangeInstrumentType, InstrumentInfo, Order, OrderSide, OrderStatus, OrderType, Timestamp,
};

verus! {

#[derive(Debug, Clone)]
pub struct HtxSpotCredential {
    pub api_key: String,
    pub api_secret: String,
}

pub struct HtxSpotClient {
    pub rest_api_base_url: String,
    pub websocket_market_data_api_url: String,
    pub websocket_account_data_api_url: String,
    pub credential: Option<HtxSpotCredential>,
    pub account_id: String,
    pub api_broker_id: String,
}

/// An order's type, which names its side and its kind: "buy-market", "sell-limit", ...
pub open spec fn htx_side_type_text(side: OrderSide, order_type: OrderType) -> Seq<char> {
    (if side == OrderSide::Buy { "buy"@ } else { "sell"@ }) + (if order_type == OrderType::Market {
        "-market"@
    } else {
        "-limit"@
    })
}

pub open spec fn htx_side_of(s: Seq<char>) -> OrderSide {
    if "buy"@.is_prefix_of(s) {
        OrderSide::Buy
    } else if "sell"@.is_prefix_of(s) {
        OrderSide::Sell
    } else {
        OrderSide::Unknown
    }
}

pub open spec fn htx_type_of(s: Seq<char>) -> OrderType {
    if "-market"@.is_suffix_of(s) {
        OrderType::Market
    } else if "-limit"@.is_suffix_of(s) || "-maker"@.is_suffix_of(s) || "-ioc"@.is_suffix_of(s) {
        OrderType::Limit
    } else {
        OrderType::Unknown
    }
}

pub open spec fn htx_status_of(s: Seq<char>) -> OrderStatus {
    if s == "submitted"@ || s == "pre-submitted"@ {
        OrderStatus::Placed
    } else if s == "partial-filled"@ {
        OrderStatus::PartiallyFilled
    } else if s == "filled"@ {
        OrderStatus::Filled
    } else if s == "partial-canceled"@ || s == "canceled"@ {
        OrderStatus::Canceled
    } else {
        OrderStatus::Unknown
    }
}

/// A number's value as a 64-bit float printed by Rust (its text where no decoder read
/// it), a string itself, and anything else the empty text.
pub open spec fn htx_number_text(v: JsonValue) -> Seq<char> {
    match v {
        JsonValue::Number(n) => match n.float_text {
            Some(t) => t@,
            None => n.text@,
        },
        JsonValue::Str(s) => s@,
        _ => Seq::empty(),
    }
}

/// The bytes HTX leaves as they are when it percent-encodes: letters, digits and "-_.~".
pub open spec fn htx_unreserved(b: u8) -> bool {
    (65 <= b <= 90) || (97 <= b <= 122) || (48 <= b <= 57) || b == 45 || b == 95 || b == 46 || b == 126
}

/// One byte percent-encoded: itself where unreserved, else "%" and two upper-case hex digits.
pub open spec fn htx_byte_text(b: u8) -> Seq<char> {
    if htx_unreserved(b) {
        seq![b as char]
    } else {
        seq!['%', hex_upper((b / 16) as nat), hex_upper((b % 16) as nat)]
    }
}

pub open spec fn htx_encoded(bytes: Seq<u8>) -> Seq<char>
    decreases bytes.len(),
{
    if bytes.len() == 0 {
        Seq::empty()
    } else {
        htx_encoded(bytes.drop_last()) + htx_byte_text(bytes.last())
    }
}

/// An instrument's precisions must not be negative.
pub open spec fn htx_instrument_ok(v: JsonValue) -> bool {
    i64_member_or_zero(v, "price-precision"@) >= 0 && i64_member_or_zero(v, "amount-precision"@) >= 0
}

pub open spec fn htx_instrument_matches(info: InstrumentInfo, v: JsonValue) -> bool {
    &&& info.exchange_instrument_type == ExchangeInstrumentType::HtxSpot
    &&& info.symbol@ == field_str(v, "symbol"@)
    &&& info.base_asset@ == field_str(v, "base-currency"@)
    &&& info.quote_asset@ == field_str(v, "quote-currency"@)
    &&& info.order_price_increment@ == decimal_unit(i64_member_or_zero(v, "price-precision"@) as nat)
    &&& info.order_quantity_increment@ == decimal_unit(i64_member_or_zero(v, "amount-precision"@) as nat)
    &&& info.order_quantity_min@ == htx_number_text(spec_at(v, "min-order-amt"@))
    &&& info.order_quantity_max@ == htx_number_text(spec_at(v, "max-order-amt"@))
    &&& info.order_quote_quantity_min@ == htx_number_text(spec_at(v, "min-order-value"@))
    &&& info.order_quote_quantity_max@ == htx_number_text(spec_at(v, "max-order-value"@))
    &&& info.settle_asset@.len() == 0
    &&& info.underlying_symbol@.len() == 0
    &&& info.contract_size@.len() == 0
    &&& info.expiry_timestamp.is_epoch()
}

/// An order of the REST API. The remaining quantity, a difference of floats, is left empty.
pub open spec fn htx_order_matches(r: Order, v: JsonValue) -> bool {
    let order_type = field_str(v, "type"@);
    &&& r.exchange_instrument_type == ExchangeInstrumentType::HtxSpot
    &&& r.symbol@ == field_str(v, "symbol"@)
    &&& r.order_id@ == match spec_as_u64(spec_at(v, "id"@)) {
        Some(n) => nat_digits(n as nat),
        None => Seq::empty(),
    }
    &&& r.client_order_id@ == field_str(v, "client-order-id"@)
    &&& r.order_type == htx_type_of(order_type)
    &&& r.side == htx_side_of(order_type)
    &&& r.price@ == field_str(v, "price"@)
    &&& r.quantity@ == field_str(v, "amount"@)
    &&& r.leverage@.len() == 0
    &&& r.remaining_quantity@.len() == 0
    &&& r.cumulative_filled_quantity@.len() == 0
    &&& r.cumulative_filled_quote_quantity@ == field_str(v, "field-cash-amount"@)
    &&& r.average_filled_price@.len() == 0
    &&& r.status == htx_status_of(field_str(v, "state"@))
    &&& r.fill_price@.len() == 0
    &&& r.fill_quantity@.len() == 0
    &&& r.fill_quote_quantity@.len() == 0
    &&& !r.fill_is_maker
}

pub open spec fn htx_balance_matches(b: Balance, v: JsonValue) -> bool {
    &&& b.exchange == Exchange::HtxSpot
    &&& b.asset@ == field_str(v, "currency"@)
    &&& b.quantity@ == field_str(v, "balance"@)
}

impl HtxSpotClient {
    pub fn builder() -> (r: HtxSpotClientBuilder)
        ensures
            r.rest_api_base_url is None,
            r.websocket_market_data_api_url is None,
            r.websocket_account_data_api_url is None,
            r.credential is None,
            r.account_id is None,
    {
        HtxSpotClientBuilder {
            rest_api_base_url: None,
            websocket_market_data_api_url: None,
            websocket_account_data_api_url: None,
            credential: None,
            account_id: None,
        }
    }

    pub fn convert_order_side_and_type_to_string(&self, side: OrderSide, order_type: OrderType) -> (r: &'static str)
        requires
            side != OrderSide::Unknown,
            order_type != OrderType::Unknown,
        ensures
            r@ == htx_side_type_text(side, order_type),
    {
        proof {
            reveal_strlit("buy-market");
            reveal_strlit("buy-limit");
            reveal_strlit("sell-market");
            reveal_strlit("sell-limit");
            reveal_strlit("buy");
            reveal_strlit("sell");
            reveal_strlit("-market");
            reveal_strlit("-limit");
        }
        match (side, order_type) {
            (OrderSide::Buy, OrderType::Market) => "buy-market",
            (OrderSide::Buy, _) => "buy-limit",
            (_, OrderType::Market) => "sell-market",
            _ => "sell-limit",
        }
    }

    pub fn convert_string_to_order_side(&self, s: &str) -> (r: OrderSide)
        ensures
            r == htx_side_of(s@),
    {
        if starts_with(s, "buy") {
            OrderSide::Buy
        } else if starts_with(s, "sell") {
            OrderSide::Sell
        } else {
            OrderSide::Unknown
        }
    }

    pub fn convert_string_to_order_type(&self, s: &str) -> (r: OrderType)
        ensures
            r == htx_type_of(s@),
    {
        if ends_with_text(s, "-market") {
            OrderType::Market
        } else if ends_with_text(s, "-limit") || ends_with_text(s, "-maker") || ends_with_text(s, "-ioc") {
            OrderType::Limit
        } else {
            OrderType::Unknown
        }
    }

    pub fn convert_string_to_order_status(&self, state: &str) -> (r: OrderStatus)
        ensures
            r == htx_status_of(state@),
    {
        if str_eq(state, "submitted") || str_eq(state, "pre-submitted") {
            OrderStatus::Placed
        } else if str_eq(state, "partial-filled") {
            OrderStatus::PartiallyFilled
        } else if str_eq(state, "filled") {
            OrderStatus::Filled
        } else if str_eq(state, "partial-canceled") || str_eq(state, "canceled") {
            OrderStatus::Canceled
        } else {
            OrderStatus::Unknown
        }
    }

    /// One unit in the last of `precision` decimal places.
    pub fn precision_to_increment_string(&self, precision: u64) -> (r: String)
        ensures
            r@ == decimal_unit(precision as nat),
    {
        decimal_unit_text(precision)
    }

    pub fn json_number_to_string(value: &JsonValue) -> (r: String)
        ensures
            r@ == htx_number_text(*value),
    {
        match value {
            JsonValue::Number(n) => match &n.float_text {
                Some(t) => t.clone(),
                None => n.text.clone(),
            },
            JsonValue::Str(s) => s.clone(),
            _ => String::new(),
        }
    }

    /// The UTF-8 bytes of the text, percent-encoded as HTX's signatures want them.
    pub fn percent_encode_htx(s: &str) -> (r: String)
        ensures
            r@ == htx_encoded(encode_utf8(s@)),
    {
        let bytes = s.as_bytes();
        let mut result = String::new();
        let mut i: usize = 0;
        while i < bytes.len()
            invariant
                i <= bytes@.len(),
                result@ == htx_encoded(bytes@.take(i as int)),
            decreases bytes@.len() - i,
        {
            let b: u8 = bytes[i];
            assert(bytes@.take(i + 1).drop_last() =~= bytes@.take(i as int));
            if (65 <= b && b <= 90) || (97 <= b && b <= 122) || (48 <= b && b <= 57) || b == 45 || b == 95 || b
                == 46 || b == 126 {
                push_char(&mut result, b as char);
            } else {
                push_char(&mut result, '%');
                push_char(&mut result, hex_digit_upper(b / 16));
                push_char(&mut result, hex_digit_upper(b % 16));
            }
            assert(result@ =~= htx_encoded(bytes@.take(i + 1)));
            i = i + 1;
        }
        assert(bytes@.take(bytes@.len() as int) =~= bytes@);
        result
    }

    pub fn convert_json_value_to_instrument_info(&self, item: &JsonValue) -> (r: InstrumentInfo)
        requires
            htx_instrument_ok(*item),
        ensures
            htx_instrument_matches(r, *item),
    {
        let price_precision = i64_member_or_zero_exec(item, "price-precision");
        let quantity_precision = i64_member_or_zero_exec(item, "amount-precision");
        let null = JsonValue::Null;
        InstrumentInfo {
            exchange_instrument_type: ExchangeInstrumentType::HtxSpot,
            symbol: item.field_str("symbol"),
            base_asset: item.field_str("base-currency"),
            quote_asset: item.field_str("quote-currency"),
            order_price_increment: self.precision_to_increment_string(price_precision as u64),
            order_quantity_increment: self.precision_to_increment_string(quantity_precision as u64),
            order_quantity_min: Self::json_number_to_string(member_or(item, "min-order-amt", &null)),
            order_quantity_max: Self::json_number_to_string(member_or(item, "max-order-amt", &null)),
            order_quote_quantity_min: Self::json_number_to_string(member_or(item, "min-order-value", &null)),
            order_quote_quantity_max: Self::json_number_to_string(member_or(item, "max-order-value", &null)),
            settle_asset: String::new(),
            underlying_symbol: String::new(),
            contract_size: String::new(),
            expiry_timestamp: Timestamp::epoch(),
        }
    }

    pub fn convert_json_value_to_order(&self, json_value: &JsonValue) -> (r: Order)
        ensures
            htx_order_matches(r, *json_value),
    {
        let type_str = json_value.field_str("type");
        let order_id = match json_value.at("id") {
            Some(v) => match v.as_u64() {
                Some(n) => u64_to_string(n),
                None => String::new(),
            },
            None => String::new(),
        };
        let state = json_value.field_str("state");
        Order {
            exchange_instrument_type: ExchangeInstrumentType::HtxSpot,
            symbol: json_value.field_str("symbol"),
            order_id,
            client_order_id: json_value.field_str("client-order-id"),
            order_type: self.convert_string_to_order_type(type_str.as_str()),
            side: self.convert_string_to_order_side(type_str.as_str()),
            price: json_value.field_str("price"),
            quantity: json_value.field_str("amount"),
            leverage: String::new(),
            remaining_quantity: String::new(),
            cumulative_filled_quantity: String::new(),
            cumulative_filled_quote_quantity: json_value.field_str("field-cash-amount"),
            average_filled_price: String::new(),
            status: self.convert_string_to_order_status(state.as_str()),
            fill_price: String::new(),
            fill_quantity: String::new(),
            fill_quote_quantity: String::new(),
            fill_is_maker: false,
        }
    }

    pub fn convert_json_value_to_balance(&self, json_value: &JsonValue) -> (r: Balance)
        ensures
            htx_balance_matches(r, *json_value),
    {
        Balance { exchange: Exchange::HtxSpot, asset: json_value.field_str("currency"), quantity: json_value.field_str("balance") }
    }
}

/// `value[key]`, or the fallback where there is no such member.
pub fn member_or<'a>(v: &'a JsonValue, key: &str, fallback: &'a JsonValue) -> (r: &'a JsonValue)
    requires
        *fallback == JsonValue::Null,
    ensures
        *r == spec_at(*v, key@),
{
    match v.at(key) {
        Some(m) => m,
        None => fallback,
    }
}

/// An upper-case hexadecimal digit.
pub fn hex_digit_upper(d: u8) -> (c: char)
    requires
        d < 16,
    ensures
        c == hex_upper(d as nat),
{
    if d < 10 {
        (48 + d) as char
    } else {
        (55 + d) as char
    }
}

#[derive(Debug, Clone)]
pub struct HtxSpotClientBuilder {
    pub rest_api_base_url: Option<String>,
    pub websocket_market_data_api_url: Option<String>,
    pub websocket_account_data_api_url: Option<String>,
    pub credential: Option<HtxSpotCredential>,
    pub account_id: Option<String>,
}

impl HtxSpotClientBuilder {
    pub fn rest_api_base_url(self, rest_api_base_url: String) -> (r: Self)
        ensures
            r == (HtxSpotClientBuilder { rest_api_base_url: Some(rest_api_base_url), ..self }),
    {
        HtxSpotClientBuilder { rest_api_base_url: Some(rest_api_base_url), ..self }
    }

    pub fn websocket_market_data_api_url(self, websocket_market_data_api_url: String) -> (r: Self)
        ensures
            r == (HtxSpotClientBuilder { websocket_market_data_api_url: Some(websocket_market_data_api_url), ..self }),
    {
        HtxSpotClientBuilder { websocket_market_data_api_url: Some(websocket_market_data_api_url), ..self }
    }

    pub fn websocket_account_data_api_url(self, websocket_account_data_api_url: String) -> (r: Self)
        ensures
            r == (HtxSpotClientBuilder { websocket_account_data_api_url: Some(websocket_account_data_api_url), ..self }),
    {
        HtxSpotClientBuilder { websocket_account_data_api_url: Some(websocket_account_data_api_url), ..self }
    }

    pub fn credential(self, credential: Option<HtxSpotCredential>) -> (r: Self)
        ensures
            r == (HtxSpotClientBuilder { credential, ..self }),
    {
        HtxSpotClientBuilder { credential, ..self }
    }

    pub fn account_id(self, account_id: String) -> (r: Self)
        ensures
            r == (HtxSpotClientBuilder { account_id: Some(account_id), ..self }),
    {
        HtxSpotClientBuilder { account_id: Some(account_id), ..self }
    }

    /// The client: HTX's public URLs where none were given, no account id unless given.
    pub fn build(self) -> (r: HtxSpotClient)
        ensures
            r.rest_api_base_url@ == match self.rest_api_base_url {
                Some(u) => u@,
                None => "https://api.huobi.pro"@,
            },
            r.websocket_market_data_api_url@ == match self.websocket_market_data_api_url {
                Some(u) => u@,
                None => "wss://api.huobi.pro/ws"@,
            },
            r.websocket_account_data_api_url@ == match self.websocket_account_data_api_url {
                Some(u) => u@,
                None => "wss://api.huobi.pro/ws/v2"@,
            },
            r.credential == self.credential,
            r.account_id@ == match self.account_id {
                Some(a) => a@,
                None => Seq::empty(),
            },
            r.api_broker_id@ == "AA3b46363e"@,
    {
        HtxSpotClient {
            rest_api_base_url: match self.rest_api_base_url {
                Some(u) => u,
                None => string_from("https://api.huobi.pro"),
            },
            websocket_market_data_api_url: match self.websocket_market_data_api_url {
                Some(u) => u,
                None => string_from("wss://api.huobi.pro/ws"),
            },
            websocket_account_data_api_url: match self.websocket_account_data_api_url {
                Some(u) => u,
                None => string_from("wss://api.huobi.pro/ws/v2"),
            },
            credential: self.credential,
            account_id: match self.account_id {
                Some(a) => a,
                None => String::new(),
            },
            api_broker_id: string_from("AA3b46363e"),
        }
    }
}

/// Client order ids start with the broker id and "-".
impl Common for HtxSpotClient {
    open spec fn client_order_id_prefix(&self) -> Seq<char> {
        self.api_broker_id@ + "-"@
    }

    fn prefix_client_order_id(&self, client_order_id: &mut String) {
        let mut prefixed = string_from(self.api_broker_id.as_str());
        push_str(&mut prefixed, "-");
        push_str(&mut prefixed, client_order_id.as_str());
        *client_order_id = prefixed;
    }
}

} // verus!
