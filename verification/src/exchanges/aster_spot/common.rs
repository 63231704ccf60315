//! A client for spot trading on Aster: its settings, how it reads orders and balances,
//! and the EIP-712 hash that its signatures sign.

use vstd::prelude::*;
use vstd::utf8::encode_utf8;
use crate::exchange_client::common::Common;
use crate::exchanges::binance_usds_margined_futures::common::{
    binance_order_type_of, binance_order_type_text, binance_side_of, binance_side_text, binance_status_of,
};
use crate::json::{field_str, has_str, spec_as_bool, spec_as_i64, spec_at, JsonValue};
use crate::signing::{check_secp256k1_secret_key, keccak256, keccak256_digest, secp256k1_secret_key_valid};
use crate::text::{i64_to_string, int_text, str_eq, string_from};
use crate::types::{Balance, Exchange, ExchangeInstrumentType, Order, OrderSide, OrderStatus, OrderType};

verus! {

/// The secp256k1 secret key that signs the requests.
#[derive(Clone)]
pub struct AsterSpotCredential {
    pub secret_key: Vec<u8>,
}

impl AsterSpotCredential {
    /// The credential of a secret key; none where `alloy`'s local signer refuses the bytes.
    pub fn new(secret_key: Vec<u8>) -> (r: Option<Self>)
        ensures
            match r {
                Some(c) => c.secret_key@ == secret_key@ && secp256k1_secret_key_valid(secret_key@),
                None => !secp256k1_secret_key_valid(secret_key@),
            },
    {
        if check_secp256k1_secret_key(secret_key.as_slice()) {
            Some(AsterSpotCredential { secret_key })
        } else {
            None
        }
    }
}

pub struct AsterSpotClient {
    pub rest_api_base_url: String,
    pub websocket_market_data_api_url: String,
    pub websocket_account_data_api_url: String,
    pub credential: Option<AsterSpotCredential>,
}

/// The members an order of the REST API must have.
pub open spec fn aster_rest_order_ok(v: JsonValue) -> bool {
    &&& has_str(v, "symbol"@)
    &&& spec_as_i64(spec_at(v, "orderId"@)) is Some
    &&& has_str(v, "clientOrderId"@)
    &&& has_str(v, "type"@)
    &&& has_str(v, "side"@)
    &&& has_str(v, "price"@)
    &&& has_str(v, "origQty"@)
    &&& has_str(v, "executedQty"@)
    &&& has_str(v, "cumQuote"@)
    &&& has_str(v, "status"@)
}

/// An order read from the REST API; its average price where there is one.
pub open spec fn aster_rest_order_matches(o: Order, v: JsonValue) -> bool {
    &&& o.exchange_instrument_type == ExchangeInstrumentType::AsterSpot
    &&& o.symbol@ == field_str(v, "symbol"@)
    &&& o.order_id@ == int_text(spec_as_i64(spec_at(v, "orderId"@))->0 as int)
    &&& o.client_order_id@ == field_str(v, "clientOrderId"@)
    &&& o.order_type == binance_order_type_of(field_str(v, "type"@))
    &&& o.side == binance_side_of(field_str(v, "side"@))
    &&& o.price@ == field_str(v, "price"@)
    &&& o.quantity@ == field_str(v, "origQty"@)
    &&& o.leverage@.len() == 0
    &&& o.remaining_quantity@.len() == 0
    &&& o.cumulative_filled_quantity@ == field_str(v, "executedQty"@)
    &&& o.cumulative_filled_quote_quantity@ == field_str(v, "cumQuote"@)
    &&& o.average_filled_price@ == field_str(v, "avgPrice"@)
    &&& o.status == binance_status_of(field_str(v, "status"@))
    &&& o.fill_price@.len() == 0
    &&& o.fill_quantity@.len() == 0
    &&& o.fill_quote_quantity@.len() == 0
    &&& !o.fill_is_maker
}

/// The members an execution report must have.
pub open spec fn aster_execution_report_ok(v: JsonValue) -> bool {
    &&& has_str(v, "s"@)
    &&& spec_as_i64(spec_at(v, "i"@)) is Some
    &&& has_str(v, "c"@)
    &&& has_str(v, "o"@)
    &&& has_str(v, "S"@)
    &&& has_str(v, "p"@)
    &&& has_str(v, "q"@)
    &&& has_str(v, "z"@)
    &&& has_str(v, "Z"@)
    &&& has_str(v, "ap"@)
    &&& has_str(v, "X"@)
    &&& has_str(v, "L"@)
    &&& has_str(v, "l"@)
    &&& has_str(v, "Y"@)
}

pub open spec fn aster_execution_report_matches(r: Order, v: JsonValue) -> bool {
    &&& r.exchange_instrument_type == ExchangeInstrumentType::AsterSpot
    &&& r.symbol@ == field_str(v, "s"@)
    &&& r.order_id@ == int_text(spec_as_i64(spec_at(v, "i"@))->0 as int)
    &&& r.client_order_id@ == field_str(v, "c"@)
    &&& r.order_type == binance_order_type_of(field_str(v, "o"@))
    &&& r.side == binance_side_of(field_str(v, "S"@))
    &&& r.price@ == field_str(v, "p"@)
    &&& r.quantity@ == field_str(v, "q"@)
    &&& r.leverage@.len() == 0
    &&& r.remaining_quantity@.len() == 0
    &&& r.cumulative_filled_quantity@ == field_str(v, "z"@)
    &&& r.cumulative_filled_quote_quantity@ == field_str(v, "Z"@)
    &&& r.average_filled_price@ == field_str(v, "ap"@)
    &&& r.status == binance_status_of(field_str(v, "X"@))
    &&& r.fill_price@ == field_str(v, "L"@)
    &&& r.fill_quantity@ == field_str(v, "l"@)
    &&& r.fill_quote_quantity@ == field_str(v, "Y"@)
    &&& r.fill_is_maker == match spec_as_bool(spec_at(v, "m"@)) {
        Some(b) => b,
        None => false,
    }
}

pub open spec fn aster_balance_ok(v: JsonValue) -> bool {
    has_str(v, "asset"@) && has_str(v, "free"@)
}

pub open spec fn aster_balance_matches(b: Balance, v: JsonValue) -> bool {
    &&& b.exchange == Exchange::AsterSpot
    &&& b.asset@ == field_str(v, "asset"@)
    &&& b.quantity@ == field_str(v, "free"@)
}

/// The chain id 1666 as a 32-byte big-endian word.
pub open spec fn aster_chain_id_word() -> Seq<u8> {
    Seq::new(32, |i: int| if i == 30 { 6u8 } else if i == 31 { 130u8 } else { 0u8 })
}

/// The EIP-712 domain separator of "AsterSignTransaction", version "1", chain 1666, and
/// the zero contract address.
pub open spec fn aster_domain_separator() -> Seq<u8> {
    keccak256_digest(
        keccak256_digest(encode_utf8("EIP712Domain(string name,string version,uint256 chainId,address verifyingContract)"@))
            + keccak256_digest(encode_utf8("AsterSignTransaction"@)) + keccak256_digest(encode_utf8("1"@))
            + aster_chain_id_word() + Seq::new(32, |i: int| 0u8),
    )
}

/// The EIP-712 hash of `Message(string msg)` with the message, in that domain.
pub open spec fn aster_signing_hash(message: Seq<char>) -> Seq<u8> {
    keccak256_digest(
        seq![0x19u8, 0x01u8] + aster_domain_separator() + keccak256_digest(
            keccak256_digest(encode_utf8("Message(string msg)"@)) + keccak256_digest(encode_utf8(message)),
        ),
    )
}

fn append_bytes(out: &mut Vec<u8>, data: &[u8])
    ensures
        final(out)@ == old(out)@ + data@,
{
    let mut i: usize = 0;
    while i < data.len()
        invariant
            i <= data@.len(),
            out@ == old(out)@ + data@.take(i as int),
        decreases data@.len() - i,
    {
        out.push(data[i]);
        assert(data@.take(i + 1) =~= data@.take(i as int).push(data@[i as int]));
        i = i + 1;
    }
    assert(data@.take(data@.len() as int) =~= data@);
}

impl AsterSpotClient {
    pub fn builder() -> (r: AsterSpotClientBuilder)
        ensures
            r.rest_api_base_url is None,
            r.websocket_market_data_api_url is None,
            r.websocket_account_data_api_url is None,
            r.credential is None,
    {
        AsterSpotClientBuilder {
            rest_api_base_url: None,
            websocket_market_data_api_url: None,
            websocket_account_data_api_url: None,
            credential: None,
        }
    }

    pub fn convert_order_side_to_string(&self, side: OrderSide) -> (r: &'static str)
        requires
            side != OrderSide::Unknown,
        ensures
            r@ == binance_side_text(side),
    {
        match side {
            OrderSide::Buy => "BUY",
            _ => "SELL",
        }
    }

    pub fn convert_string_to_order_side(&self, s: &str) -> (r: OrderSide)
        ensures
            r == binance_side_of(s@),
    {
        if str_eq(s, "BUY") { OrderSide::Buy } else if str_eq(s, "SELL") { OrderSide::Sell } else { OrderSide::Unknown }
    }

    pub fn convert_order_type_to_string(&self, order_type: OrderType) -> (r: &'static str)
        requires
            order_type != OrderType::Unknown,
        ensures
            r@ == binance_order_type_text(order_type),
    {
        match order_type {
            OrderType::Market => "MARKET",
            _ => "LIMIT",
        }
    }

    pub fn convert_string_to_order_type(&self, s: &str) -> (r: OrderType)
        ensures
            r == binance_order_type_of(s@),
    {
        if str_eq(s, "MARKET") {
            OrderType::Market
        } else if str_eq(s, "LIMIT") {
            OrderType::Limit
        } else {
            OrderType::Unknown
        }
    }

    pub fn convert_string_to_order_status(&self, s: &str) -> (r: OrderStatus)
        ensures
            r == binance_status_of(s@),
    {
        if str_eq(s, "NEW") {
            OrderStatus::Placed
        } else if str_eq(s, "PARTIALLY_FILLED") {
            OrderStatus::PartiallyFilled
        } else if str_eq(s, "FILLED") {
            OrderStatus::Filled
        } else if str_eq(s, "CANCELED") || str_eq(s, "PENDING_CANCEL") {
            OrderStatus::Canceled
        } else if str_eq(s, "REJECTED") {
            OrderStatus::Rejected
        } else if str_eq(s, "EXPIRED") || str_eq(s, "EXPIRED_IN_MATCH") {
            OrderStatus::Expired
        } else {
            OrderStatus::Unknown
        }
    }

    pub fn convert_rest_json_to_order(&self, json_value: &JsonValue) -> (r: Order)
        requires
            aster_rest_order_ok(*json_value),
        ensures
            aster_rest_order_matches(r, *json_value),
    {
        let order_id: i64 = match json_value.at("orderId") {
            Some(v) => match v.as_i64() {
                Some(n) => n,
                None => 0,
            },
            None => 0,
        };
        let order_type = json_value.field_str("type");
        let side = json_value.field_str("side");
        let status = json_value.field_str("status");
        Order {
            exchange_instrument_type: ExchangeInstrumentType::AsterSpot,
            symbol: json_value.field_str("symbol"),
            order_id: i64_to_string(order_id),
            client_order_id: json_value.field_str("clientOrderId"),
            order_type: self.convert_string_to_order_type(order_type.as_str()),
            side: self.convert_string_to_order_side(side.as_str()),
            price: json_value.field_str("price"),
            quantity: json_value.field_str("origQty"),
            leverage: String::new(),
            remaining_quantity: String::new(),
            cumulative_filled_quantity: json_value.field_str("executedQty"),
            cumulative_filled_quote_quantity: json_value.field_str("cumQuote"),
            average_filled_price: json_value.field_str("avgPrice"),
            status: self.convert_string_to_order_status(status.as_str()),
            fill_price: String::new(),
            fill_quantity: String::new(),
            fill_quote_quantity: String::new(),
            fill_is_maker: false,
        }
    }

    pub fn convert_ws_execution_report_to_order(&self, json_value: &JsonValue) -> (r: Order)
        requires
            aster_execution_report_ok(*json_value),
        ensures
            aster_execution_report_matches(r, *json_value),
    {
        let order_id: i64 = match json_value.at("i") {
            Some(v) => match v.as_i64() {
                Some(n) => n,
                None => 0,
            },
            None => 0,
        };
        let is_maker = match json_value.at("m") {
            Some(v) => match v.as_bool() {
                Some(b) => b,
                None => false,
            },
            None => false,
        };
        let order_type = json_value.field_str("o");
        let side = json_value.field_str("S");
        let status = json_value.field_str("X");
        Order {
            exchange_instrument_type: ExchangeInstrumentType::AsterSpot,
            symbol: json_value.field_str("s"),
            order_id: i64_to_string(order_id),
            client_order_id: json_value.field_str("c"),
            order_type: self.convert_string_to_order_type(order_type.as_str()),
            side: self.convert_string_to_order_side(side.as_str()),
            price: json_value.field_str("p"),
            quantity: json_value.field_str("q"),
            leverage: String::new(),
            remaining_quantity: String::new(),
            cumulative_filled_quantity: json_value.field_str("z"),
            cumulative_filled_quote_quantity: json_value.field_str("Z"),
            average_filled_price: json_value.field_str("ap"),
            status: self.convert_string_to_order_status(status.as_str()),
            fill_price: json_value.field_str("L"),
            fill_quantity: json_value.field_str("l"),
            fill_quote_quantity: json_value.field_str("Y"),
            fill_is_maker: is_maker,
        }
    }

    pub fn convert_json_value_to_balance(&self, json_value: &JsonValue) -> (r: Balance)
        requires
            aster_balance_ok(*json_value),
        ensures
            aster_balance_matches(r, *json_value),
    {
        Balance { exchange: Exchange::AsterSpot, asset: json_value.field_str("asset"), quantity: json_value.field_str("free") }
    }

    /// The EIP-712 hash that a signature of the message signs.
    pub fn compute_signing_hash(message: &str) -> (r: Vec<u8>)
        ensures
            r@ == aster_signing_hash(message@),
            r@.len() == 32,
    {
        let domain_type_hash = keccak256(
            "EIP712Domain(string name,string version,uint256 chainId,address verifyingContract)".as_bytes(),
        );
        let name_hash = keccak256("AsterSignTransaction".as_bytes());
        let version_hash = keccak256("1".as_bytes());
        let mut chain_id: Vec<u8> = Vec::new();
        let mut zero_word: Vec<u8> = Vec::new();
        let mut i: usize = 0;
        while i < 32
            invariant
                i <= 32,
                chain_id@ == aster_chain_id_word().take(i as int),
                zero_word@ == Seq::new(i as nat, |k: int| 0u8),
            decreases 32 - i,
        {
            let b: u8 = if i == 30 { 6 } else if i == 31 { 130 } else { 0 };
            chain_id.push(b);
            zero_word.push(0);
            assert(chain_id@ =~= aster_chain_id_word().take(i + 1));
            assert(zero_word@ =~= Seq::new((i + 1) as nat, |k: int| 0u8));
            i = i + 1;
        }
        assert(aster_chain_id_word().take(32) =~= aster_chain_id_word());
        let mut domain_data: Vec<u8> = Vec::new();
        append_bytes(&mut domain_data, domain_type_hash.as_slice());
        append_bytes(&mut domain_data, name_hash.as_slice());
        append_bytes(&mut domain_data, version_hash.as_slice());
        append_bytes(&mut domain_data, chain_id.as_slice());
        append_bytes(&mut domain_data, zero_word.as_slice());
        let domain_separator = keccak256(domain_data.as_slice());
        let message_type_hash = keccak256("Message(string msg)".as_bytes());
        let message_hash = keccak256(message.as_bytes());
        let mut message_data: Vec<u8> = Vec::new();
        append_bytes(&mut message_data, message_type_hash.as_slice());
        append_bytes(&mut message_data, message_hash.as_slice());
        let struct_hash = keccak256(message_data.as_slice());
        let mut signing_data: Vec<u8> = Vec::new();
        signing_data.push(0x19);
        signing_data.push(0x01);
        append_bytes(&mut signing_data, domain_separator.as_slice());
        append_bytes(&mut signing_data, struct_hash.as_slice());
        proof {
            assert(domain_data@ =~= domain_type_hash@ + name_hash@ + version_hash@ + aster_chain_id_word() + Seq::new(
                32,
                |k: int| 0u8,
            ));
            assert(seq![0x19u8, 0x01u8] + domain_separator@ + struct_hash@ =~= signing_data@);
        }
        keccak256(signing_data.as_slice())
    }
}

#[derive(Clone)]
pub struct AsterSpotClientBuilder {
    pub rest_api_base_url: Option<String>,
    pub websocket_market_data_api_url: Option<String>,
    pub websocket_account_data_api_url: Option<String>,
    pub credential: Option<AsterSpotCredential>,
}

impl AsterSpotClientBuilder {
    pub fn rest_api_base_url(self, rest_api_base_url: String) -> (r: Self)
        ensures
            r == (AsterSpotClientBuilder { rest_api_base_url: Some(rest_api_base_url), ..self }),
    {
        AsterSpotClientBuilder { rest_api_base_url: Some(rest_api_base_url), ..self }
    }

    pub fn websocket_market_data_api_url(self, websocket_market_data_api_url: String) -> (r: Self)
        ensures
            r == (AsterSpotClientBuilder { websocket_market_data_api_url: Some(websocket_market_data_api_url), ..self }),
    {
        AsterSpotClientBuilder { websocket_market_data_api_url: Some(websocket_market_data_api_url), ..self }
    }

    pub fn websocket_account_data_api_url(self, websocket_account_data_api_url: String) -> (r: Self)
        ensures
            r == (AsterSpotClientBuilder { websocket_account_data_api_url: Some(websocket_account_data_api_url), ..self }),
    {
        AsterSpotClientBuilder { websocket_account_data_api_url: Some(websocket_account_data_api_url), ..self }
    }

    pub fn credential(self, credential: Option<AsterSpotCredential>) -> (r: Self)
        ensures
            r == (AsterSpotClientBuilder { credential, ..self }),
    {
        AsterSpotClientBuilder { credential, ..self }
    }

    /// The client: Aster's public URLs where none were given (the account-data one with a
    /// place for the listen key).
    pub fn build(self) -> (r: AsterSpotClient)
        ensures
            r.rest_api_base_url@ == match self.rest_api_base_url {
                Some(u) => u@,
                None => "https://sapi.asterdex.com"@,
            },
            r.websocket_market_data_api_url@ == match self.websocket_market_data_api_url {
                Some(u) => u@,
                None => "wss://sstream.asterdex.com/stream"@,
            },
            r.websocket_account_data_api_url@ == match self.websocket_account_data_api_url {
                Some(u) => u@,
                None => "wss://sstream.asterdex.com/ws/{listen_key}"@,
            },
            r.credential == self.credential,
    {
        AsterSpotClient {
            rest_api_base_url: match self.rest_api_base_url {
                Some(u) => u,
                None => string_from("https://sapi.asterdex.com"),
            },
            websocket_market_data_api_url: match self.websocket_market_data_api_url {
                Some(u) => u,
                None => string_from("wss://sstream.asterdex.com/stream"),
            },
            websocket_account_data_api_url: match self.websocket_account_data_api_url {
                Some(u) => u,
                None => string_from("wss://sstream.asterdex.com/ws/{listen_key}"),
            },
            credential: self.credential,
        }
    }
}

/// Client order ids of this exchange carry no prefix.
impl Common for AsterSpotClient {
    open spec fn client_order_id_prefix(&self) -> Seq<char> {
        Seq::empty()
    }

    fn prefix_client_order_id(&self, client_order_id: &mut String) {
        assert(client_order_id@ =~= Seq::<char>::empty() + client_order_id@);
    }
}

} // verus!
