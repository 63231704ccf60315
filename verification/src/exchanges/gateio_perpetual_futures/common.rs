//! A client for perpetual futures on Gate.io: its settings, how it reads contracts, orders,
//! positions and balances, and how it signs websocket requests.

use vstd::prelude::*;
use vstd::utf8::encode_utf8;
use crate::exchange_client::common::Common;
use crate::json::{field_str, json_text, members_text, push_member, quoted, spec_as_i64, spec_as_str, spec_at, spec_get, str_or, JsonValue};
use crate::signing::{hex_encode, hex_text, hmac_sha512, hmac_sha512_tag};
use crate::text::{
    i64_to_string, int_text, nat_digits, push_str, split_first, split_first_char, str_eq, string_from,
    to_lowercase, to_uppercase, u64_to_string, unicode_lowercase, unicode_uppercase,
};
use crate::types::{Balance, Exchange, ExchangeInstrumentType, InstrumentInfo, Order, OrderSide, OrderStatus, OrderType, Position, PositionSide, Timestamp};

verus! {

#[derive(Debug, Clone)]
pub struct GateioPerpetualFuturesCredential {
    pub api_key: String,
    pub api_secret: String,
}

pub struct GateioPerpetualFuturesClient {
    pub rest_api_base_url: String,
    pub websocket_market_data_api_url: String,
    pub websocket_account_data_api_url: String,
    pub settle: String,
    pub credential: Option<GateioPerpetualFuturesCredential>,
    pub api_channel_id: String,
}

/// The size Gate.io takes for an order: positive to buy, negative to sell.
pub open spec fn gate_signed_size(side: OrderSide, quantity: i64) -> int {
    if side == OrderSide::Buy { quantity as int } else { -(quantity as int) }
}

/// The side of a signed size.
pub open spec fn gate_side_of_size(size: int) -> OrderSide {
    if size > 0 { OrderSide::Buy } else if size < 0 { OrderSide::Sell } else { OrderSide::Unknown }
}

pub open spec fn gate_tif_text(t: OrderType) -> Seq<char> {
    if t == OrderType::Limit { "gtc"@ } else { "ioc"@ }
}

pub open spec fn gate_order_type_of_tif(tif: Seq<char>) -> OrderType {
    if tif == "gtc"@ || tif == "poc"@ || tif == "fok"@ {
        OrderType::Limit
    } else if tif == "ioc"@ {
        OrderType::Market
    } else {
        OrderType::Unknown
    }
}

/// How an order finished, read as its status.
pub open spec fn gate_finish_status(finish_as: Seq<char>) -> OrderStatus {
    if finish_as == "filled"@ {
        OrderStatus::Filled
    } else if finish_as == "cancelled"@ || finish_as == "ioc"@ || finish_as == "auto_deleveraged"@ || finish_as
        == "reduce_only"@ || finish_as == "position_closed"@ || finish_as == "reduce_out"@ || finish_as == "stp"@
        || finish_as == "liquidated"@ {
        OrderStatus::Canceled
    } else {
        OrderStatus::Unknown
    }
}

pub open spec fn gate_status_of(status: Seq<char>, finish_as: Seq<char>) -> OrderStatus {
    if status == "open"@ {
        OrderStatus::Placed
    } else if status == "finished"@ {
        gate_finish_status(finish_as)
    } else {
        OrderStatus::Unknown
    }
}

pub open spec fn gate_position_side_of(mode: Seq<char>, size: int) -> PositionSide {
    if mode == "dual_long"@ {
        PositionSide::Long
    } else if mode == "dual_short"@ {
        PositionSide::Short
    } else if size > 0 {
        PositionSide::Long
    } else if size < 0 {
        PositionSide::Short
    } else {
        PositionSide::Unknown
    }
}

/// An id that may be a number or a string: the number written out, or the string, or empty.
pub open spec fn number_or_str_text(m: Option<JsonValue>, default: Seq<char>) -> Seq<char> {
    match m {
        Some(v) => match spec_as_i64(v) {
            Some(n) => int_text(n as int),
            None => match spec_as_str(v) {
                Some(s) => s,
                None => default,
            },
        },
        None => default,
    }
}

/// `value[key].as_i64().unwrap_or(0)`.
pub open spec fn i64_or_zero(v: JsonValue, key: Seq<char>) -> i64 {
    match spec_as_i64(spec_at(v, key)) {
        Some(n) => n,
        None => 0,
    }
}

pub open spec fn abs_int(n: int) -> int {
    if n < 0 { -n } else { n }
}

pub open spec fn gate_instrument_matches(info: InstrumentInfo, v: JsonValue, settle: Seq<char>) -> bool {
    let name = field_str(v, "name"@);
    &&& info.exchange_instrument_type == ExchangeInstrumentType::GateioPerpetualFutures
    &&& info.symbol@ == name
    &&& info.base_asset@ == split_first(name, '_').0
    &&& info.quote_asset@ == split_first(name, '_').1
    &&& info.settle_asset@ == unicode_uppercase(settle)
    &&& info.contract_size@ == field_str(v, "quanto_multiplier"@)
    &&& info.order_price_increment@ == field_str(v, "order_price_round"@)
    &&& info.order_quantity_increment@ == "1"@
    &&& info.order_quantity_min@ == number_or_str_text(spec_get(v, "order_size_min"@), "0"@)
    &&& info.order_quantity_max@ == number_or_str_text(spec_get(v, "order_size_max"@), "0"@)
    &&& info.order_quote_quantity_min@ == "0"@
    &&& info.order_quote_quantity_max@.len() == 0
    &&& info.underlying_symbol@.len() == 0
    &&& info.expiry_timestamp.is_epoch()
}

/// The sizes of an order document must have absolute values (neither is the least `i64`).
pub open spec fn gate_order_ok(v: JsonValue) -> bool {
    i64_or_zero(v, "size"@) != i64::MIN && i64_or_zero(v, "left"@) != i64::MIN
}

pub open spec fn gate_order_matches(r: Order, v: JsonValue) -> bool {
    let size = i64_or_zero(v, "size"@) as int;
    let left = i64_or_zero(v, "left"@) as int;
    let filled = abs_int(size) - abs_int(left);
    &&& r.exchange_instrument_type == ExchangeInstrumentType::GateioPerpetualFutures
    &&& r.symbol@ == field_str(v, "contract"@)
    &&& r.order_id@ == number_or_str_text(spec_get(v, "id"@), Seq::empty())
    &&& r.client_order_id@ == field_str(v, "text"@)
    &&& r.order_type == gate_order_type_of_tif(str_or(spec_at(v, "tif"@), "gtc"@))
    &&& r.side == gate_side_of_size(size)
    &&& r.price@ == field_str(v, "price"@)
    &&& r.quantity@ == nat_digits(abs_int(size) as nat)
    &&& r.remaining_quantity@ == nat_digits(abs_int(left) as nat)
    &&& r.cumulative_filled_quantity@ == nat_digits(if filled > 0 { filled as nat } else { 0 })
    &&& r.average_filled_price@ == field_str(v, "fill_price"@)
    &&& r.fill_price@ == field_str(v, "fill_price"@)
    &&& r.status == gate_status_of(field_str(v, "status"@), field_str(v, "finish_as"@))
    &&& r.leverage@.len() == 0
    &&& r.cumulative_filled_quote_quantity@.len() == 0
    &&& r.fill_quantity@.len() == 0
    &&& r.fill_quote_quantity@.len() == 0
    &&& !r.fill_is_maker
}

/// A position. A leverage given as a number is written by floating-point formatting,
/// which is left to the caller: here it is empty.
pub open spec fn gate_position_matches(p: Position, v: JsonValue) -> bool {
    let size = i64_or_zero(v, "size"@) as int;
    &&& p.exchange_instrument_type == ExchangeInstrumentType::GateioPerpetualFutures
    &&& p.symbol@ == field_str(v, "contract"@)
    &&& p.side == gate_position_side_of(field_str(v, "mode"@), size)
    &&& p.entry_price@ == field_str(v, "entry_price"@)
    &&& p.quantity@ == int_text(size)
    &&& p.leverage@ == field_str(v, "leverage"@)
    &&& p.position_asset@.len() == 0
}

pub open spec fn gate_balance_matches(b: Balance, currency: Seq<char>, v: JsonValue) -> bool {
    &&& b.exchange == Exchange::GateioPerpetualFutures
    &&& b.asset@ == currency
    &&& b.quantity@ == field_str(v, "available"@)
}

/// What a websocket request signs: `channel=<channel>&event=<event>&time=<time>`.
pub open spec fn gate_ws_sign_message(channel: Seq<char>, event: Seq<char>, timestamp: int) -> Seq<char> {
    "channel="@ + channel + "&event="@ + event + "&time="@ + int_text(timestamp)
}

/// The signature of a websocket request: hex HMAC-SHA512 of what it signs.
pub open spec fn gate_ws_sign(c: GateioPerpetualFuturesCredential, channel: Seq<char>, event: Seq<char>, timestamp: int) -> Seq<char> {
    hex_text(hmac_sha512_tag(encode_utf8(c.api_secret@), encode_utf8(gate_ws_sign_message(channel, event, timestamp))))
}

/// The authentication object of a websocket request: `{"KEY":..,"SIGN":..,"method":"api_key"}`.
pub open spec fn gate_ws_auth_text(c: GateioPerpetualFuturesCredential, channel: Seq<char>, event: Seq<char>, timestamp: int) -> Seq<char> {
    seq!['{'] + quoted("KEY"@) + seq![':'] + quoted(c.api_key@) + seq![','] + quoted("SIGN"@) + seq![':'] + quoted(
        gate_ws_sign(c, channel, event, timestamp),
    ) + seq![','] + quoted("method"@) + seq![':'] + quoted("api_key"@) + seq!['}']
}

fn number_or_str_exec(m: Option<&JsonValue>, default: &str) -> (r: String)
    ensures
        r@ == number_or_str_text(match m { Some(x) => Some(*x), None => None }, default@),
{
    match m {
        Some(v) => match v.as_i64() {
            Some(n) => i64_to_string(n),
            None => match v.as_str() {
                Some(s) => string_from(s),
                None => string_from(default),
            },
        },
        None => string_from(default),
    }
}

pub fn i64_or_zero_exec(v: &JsonValue, key: &str) -> (r: i64)
    ensures
        r == i64_or_zero(*v, key@),
{
    match v.at(key) {
        Some(m) => match m.as_i64() {
            Some(n) => n,
            None => 0,
        },
        None => 0,
    }
}

/// The decimal text of the absolute value of a number that has one.
fn abs_text(n: i64) -> (r: String)
    requires
        n != i64::MIN,
    ensures
        r@ == nat_digits(abs_int(n as int) as nat),
{
    let a: i64 = if n < 0 { -n } else { n };
    u64_to_string(a as u64)
}

impl GateioPerpetualFuturesClient {
    pub fn builder() -> (r: GateioPerpetualFuturesClientBuilder)
        ensures
            r.rest_api_base_url is None,
            r.websocket_market_data_api_url is None,
            r.websocket_account_data_api_url is None,
            r.settle is None,
            r.credential is None,
    {
        GateioPerpetualFuturesClientBuilder {
            rest_api_base_url: None,
            websocket_market_data_api_url: None,
            websocket_account_data_api_url: None,
            settle: None,
            credential: None,
        }
    }

    pub fn convert_order_side_to_signed_size(&self, side: OrderSide, quantity: i64) -> (r: i64)
        requires
            side != OrderSide::Unknown,
            side == OrderSide::Sell ==> quantity != i64::MIN,
        ensures
            r == gate_signed_size(side, quantity),
    {
        match side {
            OrderSide::Buy => quantity,
            _ => -quantity,
        }
    }

    pub fn get_order_side_from_size(&self, size: i64) -> (r: OrderSide)
        ensures
            r == gate_side_of_size(size as int),
    {
        if size > 0 { OrderSide::Buy } else if size < 0 { OrderSide::Sell } else { OrderSide::Unknown }
    }

    pub fn convert_order_type_to_tif_string(&self, order_type: OrderType) -> (r: &'static str)
        requires
            order_type != OrderType::Unknown,
        ensures
            r@ == gate_tif_text(order_type),
    {
        match order_type {
            OrderType::Limit => "gtc",
            _ => "ioc",
        }
    }

    pub fn convert_tif_string_to_order_type(&self, tif: &str) -> (r: OrderType)
        ensures
            r == gate_order_type_of_tif(tif@),
    {
        if str_eq(tif, "gtc") || str_eq(tif, "poc") || str_eq(tif, "fok") {
            OrderType::Limit
        } else if str_eq(tif, "ioc") {
            OrderType::Market
        } else {
            OrderType::Unknown
        }
    }

    pub fn convert_string_to_order_status(&self, status: &str, finish_as: &str) -> (r: OrderStatus)
        ensures
            r == gate_status_of(status@, finish_as@),
    {
        if str_eq(status, "open") {
            OrderStatus::Placed
        } else if str_eq(status, "finished") {
            if str_eq(finish_as, "filled") {
                OrderStatus::Filled
            } else if str_eq(finish_as, "cancelled") || str_eq(finish_as, "ioc") || str_eq(finish_as, "auto_deleveraged")
                || str_eq(finish_as, "reduce_only") || str_eq(finish_as, "position_closed") || str_eq(
                finish_as,
                "reduce_out",
            ) || str_eq(finish_as, "stp") || str_eq(finish_as, "liquidated") {
                OrderStatus::Canceled
            } else {
                OrderStatus::Unknown
            }
        } else {
            OrderStatus::Unknown
        }
    }

    pub fn get_position_side_from_mode_and_size(&self, mode: &str, size: i64) -> (r: PositionSide)
        ensures
            r == gate_position_side_of(mode@, size as int),
    {
        if str_eq(mode, "dual_long") {
            PositionSide::Long
        } else if str_eq(mode, "dual_short") {
            PositionSide::Short
        } else if size > 0 {
            PositionSide::Long
        } else if size < 0 {
            PositionSide::Short
        } else {
            PositionSide::Unknown
        }
    }

    /// The document's "id": a number written out, or a string, or empty.
    pub fn extract_order_id_from_json(&self, json_value: &JsonValue) -> (r: String)
        ensures
            r@ == number_or_str_text(spec_get(*json_value, "id"@), Seq::empty()),
    {
        proof {
            reveal_strlit("");
        }
        number_or_str_exec(json_value.get("id"), "")
    }

    pub fn convert_json_value_to_instrument_info(&self, item: &JsonValue) -> (r: InstrumentInfo)
        ensures
            gate_instrument_matches(r, *item, self.settle@),
    {
        let symbol = item.field_str("name");
        let (base_asset, quote_asset) = split_first_char(symbol.as_str(), '_');
        InstrumentInfo {
            exchange_instrument_type: ExchangeInstrumentType::GateioPerpetualFutures,
            symbol,
            base_asset,
            quote_asset,
            order_price_increment: item.field_str("order_price_round"),
            order_quantity_increment: string_from("1"),
            order_quantity_min: number_or_str_exec(item.get("order_size_min"), "0"),
            order_quantity_max: number_or_str_exec(item.get("order_size_max"), "0"),
            order_quote_quantity_min: string_from("0"),
            order_quote_quantity_max: String::new(),
            settle_asset: to_uppercase(self.settle.as_str()),
            underlying_symbol: String::new(),
            contract_size: item.field_str("quanto_multiplier"),
            expiry_timestamp: Timestamp::epoch(),
        }
    }

    pub fn convert_json_value_to_order(&self, json_value: &JsonValue) -> (r: Order)
        requires
            gate_order_ok(*json_value),
        ensures
            gate_order_matches(r, *json_value),
    {
        let size = i64_or_zero_exec(json_value, "size");
        let left = i64_or_zero_exec(json_value, "left");
        let status = json_value.field_str("status");
        let finish_as = json_value.field_str("finish_as");
        let tif = json_value.field_str_or("tif", "gtc");
        let abs_size: i64 = if size < 0 { -size } else { size };
        let abs_left: i64 = if left < 0 { -left } else { left };
        let filled: i64 = if abs_size - abs_left > 0 { abs_size - abs_left } else { 0 };
        let fill_price = json_value.field_str("fill_price");
        Order {
            exchange_instrument_type: ExchangeInstrumentType::GateioPerpetualFutures,
            symbol: json_value.field_str("contract"),
            order_id: self.extract_order_id_from_json(json_value),
            client_order_id: json_value.field_str("text"),
            order_type: self.convert_tif_string_to_order_type(tif.as_str()),
            side: self.get_order_side_from_size(size),
            price: json_value.field_str("price"),
            quantity: abs_text(size),
            leverage: String::new(),
            remaining_quantity: abs_text(left),
            cumulative_filled_quantity: u64_to_string(filled as u64),
            cumulative_filled_quote_quantity: String::new(),
            average_filled_price: fill_price.clone(),
            status: self.convert_string_to_order_status(status.as_str(), finish_as.as_str()),
            fill_price,
            fill_quantity: String::new(),
            fill_quote_quantity: String::new(),
            fill_is_maker: false,
        }
    }

    pub fn convert_json_value_to_position(&self, json_value: &JsonValue) -> (r: Position)
        ensures
            gate_position_matches(r, *json_value),
    {
        let size = i64_or_zero_exec(json_value, "size");
        let mode = json_value.field_str("mode");
        Position {
            exchange_instrument_type: ExchangeInstrumentType::GateioPerpetualFutures,
            symbol: json_value.field_str("contract"),
            side: self.get_position_side_from_mode_and_size(mode.as_str(), size),
            entry_price: json_value.field_str("entry_price"),
            quantity: i64_to_string(size),
            leverage: json_value.field_str("leverage"),
            position_asset: String::new(),
        }
    }

    pub fn convert_balance_entry_to_balance(&self, currency: &str, json_value: &JsonValue) -> (r: Balance)
        ensures
            gate_balance_matches(r, currency@, *json_value),
    {
        Balance {
            exchange: Exchange::GateioPerpetualFutures,
            asset: string_from(currency),
            quantity: json_value.field_str("available"),
        }
    }

    /// The authentication object of a websocket request on a channel, signed at a time
    /// (whole seconds); none without a credential.
    pub fn sign_websocket_request(&self, channel: &str, event: &str, timestamp: i64) -> (r: Option<JsonValue>)
        ensures
            match self.credential {
                Some(c) => r matches Some(v) && json_text(v) == gate_ws_auth_text(c, channel@, event@, timestamp as int),
                None => r is None,
            },
    {
        let c = match &self.credential {
            Some(c) => c,
            None => return None,
        };
        let mut message = string_from("channel=");
        push_str(&mut message, channel);
        push_str(&mut message, "&event=");
        push_str(&mut message, event);
        push_str(&mut message, "&time=");
        let t = i64_to_string(timestamp);
        push_str(&mut message, t.as_str());
        let tag = hmac_sha512(c.api_secret.as_str().as_bytes(), message.as_str().as_bytes());
        let sign = hex_encode(tag.as_slice());
        let mut entries: Vec<(String, JsonValue)> = Vec::new();
        push_member(&mut entries, "KEY", JsonValue::Str(c.api_key.clone()));
        let ghost t1 = members_text(entries@);
        let ghost sign_view = sign@;
        push_member(&mut entries, "SIGN", JsonValue::Str(sign));
        let ghost t2 = members_text(entries@);
        assert(t2 == t1 + seq![','] + quoted("SIGN"@) + seq![':'] + quoted(sign_view));
        push_member(&mut entries, "method", JsonValue::Str(string_from("api_key")));
        assert(members_text(entries@) == t2 + seq![','] + quoted("method"@) + seq![':'] + quoted("api_key"@));
        assert(message@ =~= gate_ws_sign_message(channel@, event@, timestamp as int));
        let v = JsonValue::Object(entries);
        assert(json_text(v) =~= gate_ws_auth_text(*c, channel@, event@, timestamp as int));
        Some(v)
    }
}

#[derive(Debug, Clone)]
pub struct GateioPerpetualFuturesClientBuilder {
    pub rest_api_base_url: Option<String>,
    pub websocket_market_data_api_url: Option<String>,
    pub websocket_account_data_api_url: Option<String>,
    pub settle: Option<String>,
    pub credential: Option<GateioPerpetualFuturesCredential>,
}

impl GateioPerpetualFuturesClientBuilder {
    pub fn rest_api_base_url(self, rest_api_base_url: String) -> (r: Self)
        ensures
            r == (GateioPerpetualFuturesClientBuilder { rest_api_base_url: Some(rest_api_base_url), ..self }),
    {
        GateioPerpetualFuturesClientBuilder { rest_api_base_url: Some(rest_api_base_url), ..self }
    }

    pub fn websocket_market_data_api_url(self, websocket_market_data_api_url: String) -> (r: Self)
        ensures
            r == (GateioPerpetualFuturesClientBuilder {
                websocket_market_data_api_url: Some(websocket_market_data_api_url),
                ..self
            }),
    {
        GateioPerpetualFuturesClientBuilder { websocket_market_data_api_url: Some(websocket_market_data_api_url), ..self }
    }

    pub fn websocket_account_data_api_url(self, websocket_account_data_api_url: String) -> (r: Self)
        ensures
            r == (GateioPerpetualFuturesClientBuilder {
                websocket_account_data_api_url: Some(websocket_account_data_api_url),
                ..self
            }),
    {
        GateioPerpetualFuturesClientBuilder { websocket_account_data_api_url: Some(websocket_account_data_api_url), ..self }
    }

    pub fn settle(self, settle: String) -> (r: Self)
        ensures
            r == (GateioPerpetualFuturesClientBuilder { settle: Some(settle), ..self }),
    {
        GateioPerpetualFuturesClientBuilder { settle: Some(settle), ..self }
    }

    pub fn credential(self, credential: Option<GateioPerpetualFuturesCredential>) -> (r: Self)
        ensures
            r == (GateioPerpetualFuturesClientBuilder { credential, ..self }),
    {
        GateioPerpetualFuturesClientBuilder { credential, ..self }
    }

    /// The client: the settle currency in lower case ("usdt" where none was given), and
    /// Gate.io's public URLs for it where none were given.
    pub fn build(self) -> (r: GateioPerpetualFuturesClient)
        ensures
            r.settle@ == match self.settle {
                Some(s) => unicode_lowercase(s@),
                None => "usdt"@,
            },
            r.rest_api_base_url@ == match self.rest_api_base_url {
                Some(u) => u@,
                None => "https://api.gateio.ws"@,
            },
            r.websocket_market_data_api_url@ == match self.websocket_market_data_api_url {
                Some(u) => u@,
                None => "wss://fx-ws.gateio.ws/v4/ws/"@ + r.settle@,
            },
            r.websocket_account_data_api_url@ == match self.websocket_account_data_api_url {
                Some(u) => u@,
                None => "wss://fx-ws.gateio.ws/v4/ws/"@ + r.settle@,
            },
            r.credential == self.credential,
            r.api_channel_id@ == "cryptochassis2"@,
    {
        let settle = match &self.settle {
            Some(s) => to_lowercase(s.as_str()),
            None => string_from("usdt"),
        };
        let websocket_market_data_api_url = match self.websocket_market_data_api_url {
            Some(u) => u,
            None => {
                let mut u = string_from("wss://fx-ws.gateio.ws/v4/ws/");
                push_str(&mut u, settle.as_str());
                u
            },
        };
        let websocket_account_data_api_url = match self.websocket_account_data_api_url {
            Some(u) => u,
            None => {
                let mut u = string_from("wss://fx-ws.gateio.ws/v4/ws/");
                push_str(&mut u, settle.as_str());
                u
            },
        };
        GateioPerpetualFuturesClient {
            rest_api_base_url: match self.rest_api_base_url {
                Some(u) => u,
                None => string_from("https://api.gateio.ws"),
            },
            websocket_market_data_api_url,
            websocket_account_data_api_url,
            settle,
            credential: self.credential,
            api_channel_id: string_from("cryptochassis2"),
        }
    }
}

/// Gate.io client order ids start with "t-".
impl Common for GateioPerpetualFuturesClient {
    open spec fn client_order_id_prefix(&self) -> Seq<char> {
        "t-"@
    }

    fn prefix_client_order_id(&self, client_order_id: &mut String) {
        let mut s = string_from("t-");
        push_str(&mut s, client_order_id.as_str());
        *client_order_id = s;
    }
}

} // verus!
