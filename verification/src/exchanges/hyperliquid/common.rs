//! A client for Hyperliquid: its settings, the EIP-712 "Agent" signature it puts on an
//! action, and how it reads orders, positions and balances.

use vstd::prelude::*;
use vstd::utf8::encode_utf8;
use crate::exchange_client::common::Common;
use crate::exchanges::htx_usdt_margined_futures::rest::object_of;
use crate::json::{field_str, json_int, json_text, members_text, quoted, spec_as_u64, spec_at, str_or, JsonValue};
use crate::signing::{
    check_secp256k1_secret_key, hex_encode, hex_text, keccak256, keccak256_digest, secp256k1_address,
    secp256k1_address_text, secp256k1_hash_signature, secp256k1_hash_signs, secp256k1_secret_key_valid, secp256k1_sign_hash,
};
use crate::text::{nat_digits, push_str, str_eq, string_from, trim_start_matches, trim_start_matches_text, u64_to_string};
use crate::types::{
    Balance, Exchange, ExchangeInstrumentType, HyperliquidInstrumentType, Order, OrderSide, OrderStatus, OrderType,
    Position, PositionSide,
};

verus! {

/// The secp256k1 secret key of the wallet (or agent) that signs actions.
#[derive(Clone)]
pub struct HyperliquidCredential {
    pub secret_key: Vec<u8>,
}

impl HyperliquidCredential {
    /// The credential of a secret key; none where `alloy`'s local signer refuses the bytes.
    pub fn new(secret_key: Vec<u8>) -> (r: Option<Self>)
        ensures
            match r {
                Some(c) => c.secret_key@ == secret_key@ && secp256k1_secret_key_valid(secret_key@),
                None => !secp256k1_secret_key_valid(secret_key@),
            },
    {
        if check_secp256k1_secret_key(secret_key.as_slice()) {
            Some(HyperliquidCredential { secret_key })
        } else {
            None
        }
    }
}

pub struct HyperliquidClient {
    pub rest_api_base_url: String,
    pub websocket_url: String,
    pub instrument_type: HyperliquidInstrumentType,
    pub credential: Option<HyperliquidCredential>,
    pub is_mainnet: bool,
    pub wallet_address: String,
}

/// "B" is a buy and "A" (ask) a sell.
pub open spec fn hl_side_of(s: Seq<char>) -> OrderSide {
    if s == "B"@ {
        OrderSide::Buy
    } else if s == "A"@ {
        OrderSide::Sell
    } else {
        OrderSide::Unknown
    }
}

pub open spec fn hl_order_type_of(s: Seq<char>) -> OrderType {
    if s == "Market"@ {
        OrderType::Market
    } else if s == "Limit"@ {
        OrderType::Limit
    } else {
        OrderType::Unknown
    }
}

/// Spot pairs are named "@<index>", except "PURR/USDC"; every other name is a perpetual.
pub open spec fn hl_instrument_type_of(symbol: Seq<char>) -> HyperliquidInstrumentType {
    if (symbol.len() > 0 && symbol[0] == '@') || symbol == "PURR/USDC"@ {
        HyperliquidInstrumentType::Spot
    } else {
        HyperliquidInstrumentType::Perpetuals
    }
}

/// The eight big-endian bytes of a number.
pub open spec fn be8(n: u64) -> Seq<u8> {
    Seq::new(8, |i: int| ((n >> ((8 * (7 - i)) as u64)) & 0xffu64) as u8)
}

/// The connection id of an action: the Keccak-256 digest of its MessagePack encoding
/// (with named fields), the nonce's eight big-endian bytes and a zero byte (no vault).
pub open spec fn hl_connection_id(action_msgpack: Seq<u8>, nonce: u64) -> Seq<u8> {
    keccak256_digest(action_msgpack + be8(nonce) + seq![0u8])
}

/// The chain id 1337 as a 32-byte big-endian word.
pub open spec fn hl_chain_id_word() -> Seq<u8> {
    Seq::new(32, |i: int| if i == 30 { 0x05u8 } else if i == 31 { 0x39u8 } else { 0u8 })
}

/// The EIP-712 domain separator of "Exchange", version "1", chain 1337 and the zero contract.
pub open spec fn hl_domain_separator() -> Seq<u8> {
    keccak256_digest(
        keccak256_digest(encode_utf8("EIP712Domain(string name,string version,uint256 chainId,address verifyingContract)"@))
            + keccak256_digest(encode_utf8("Exchange"@)) + keccak256_digest(encode_utf8("1"@)) + hl_chain_id_word()
            + Seq::new(32, |i: int| 0u8),
    )
}

/// The source of an agent: "a" on mainnet, "b" on testnet.
pub open spec fn hl_source(is_mainnet: bool) -> Seq<char> {
    if is_mainnet { "a"@ } else { "b"@ }
}

/// The EIP-712 hash of `Agent(string source,bytes32 connectionId)` in that domain.
pub open spec fn hl_agent_signing_hash(connection_id: Seq<u8>, is_mainnet: bool) -> Seq<u8> {
    keccak256_digest(
        seq![0x19u8, 0x01u8] + hl_domain_separator() + keccak256_digest(
            keccak256_digest(encode_utf8("Agent(string source,bytes32 connectionId)"@)) + keccak256_digest(
                encode_utf8(hl_source(is_mainnet)),
            ) + connection_id,
        ),
    )
}

/// The signature object of a 65-byte signature: `r` and `s` as "0x" and 64 hexadecimal
/// digits, `v` as a number.
pub open spec fn hl_signature_text(sig: Seq<u8>) -> Seq<char> {
    object_of(
        seq![
            ("r"@, quoted("0x"@ + hex_text(sig.subrange(0, 32)))),
            ("s"@, quoted("0x"@ + hex_text(sig.subrange(32, 64)))),
            ("v"@, nat_digits(sig[64] as nat)),
        ],
    )
}

pub open spec fn hl_order_matches(o: Order, v: JsonValue, t: HyperliquidInstrumentType, status: OrderStatus) -> bool {
    &&& o.exchange_instrument_type == ExchangeInstrumentType::Hyperliquid(t)
    &&& o.symbol@ == field_str(v, "coin"@)
    &&& o.order_id@ == nat_digits(match spec_as_u64(spec_at(v, "oid"@)) {
        Some(n) => n as nat,
        None => 0,
    })
    &&& o.client_order_id@ == field_str(v, "cloid"@)
    &&& o.order_type == hl_order_type_of(field_str(v, "orderType"@))
    &&& o.side == hl_side_of(field_str(v, "side"@))
    &&& o.price@ == field_str(v, "limitPx"@)
    &&& o.quantity@ == field_str(v, "origSz"@)
    &&& o.remaining_quantity@ == field_str(v, "sz"@)
    &&& o.status == status
    &&& o.leverage@.len() == 0
    &&& o.cumulative_filled_quantity@.len() == 0
    &&& o.cumulative_filled_quote_quantity@.len() == 0
    &&& o.average_filled_price@.len() == 0
    &&& o.fill_price@.len() == 0
    &&& o.fill_quantity@.len() == 0
    &&& o.fill_quote_quantity@.len() == 0
    &&& !o.fill_is_maker
}

/// A position of an asset-position document. Its side is the sign of "szi" read as a
/// float, which the caller sets (floats stay outside this library): unknown here.
pub open spec fn hl_position_matches(p: Position, v: JsonValue) -> bool {
    let pos = spec_at(v, "position"@);
    &&& p.exchange_instrument_type == ExchangeInstrumentType::Hyperliquid(HyperliquidInstrumentType::Perpetuals)
    &&& p.symbol@ == field_str(pos, "coin"@)
    &&& p.side == PositionSide::Unknown
    &&& p.entry_price@ == field_str(pos, "entryPx"@)
    &&& p.quantity@ == trim_start_matches(str_or(spec_at(pos, "szi"@), "0"@), "-"@)
    &&& p.leverage@ == nat_digits(match spec_as_u64(spec_at(spec_at(pos, "leverage"@), "value"@)) {
        Some(n) => n as nat,
        None => 0,
    })
    &&& p.position_asset@.len() == 0
}

pub open spec fn hl_balance_matches(b: Balance, v: JsonValue) -> bool {
    &&& b.exchange == Exchange::Hyperliquid
    &&& b.asset@ == field_str(v, "coin"@)
    &&& b.quantity@ == field_str(v, "total"@)
}

pub(crate) fn append_bytes(out: &mut Vec<u8>, data: &[u8])
    ensures
        final(out)@ == old(out)@ + data@,
{
    let mut i: usize = 0;
    while i < data.len()
        invariant
            i <= data@.len(),
            out@ == old(out)@ + data@.take(i as int),
        decreases data@.len() - i,
    {
        out.push(data[i]);
        assert(data@.take(i + 1) =~= data@.take(i as int).push(data@[i as int]));
        i = i + 1;
    }
    assert(data@.take(data@.len() as int) =~= data@);
}

fn take_bytes(data: &Vec<u8>, start: usize, end: usize) -> (r: Vec<u8>)
    requires
        start <= end <= data@.len(),
    ensures
        r@ == data@.subrange(start as int, end as int),
{
    let mut r: Vec<u8> = Vec::new();
    let mut i: usize = start;
    while i < end
        invariant
            start <= i <= end,
            end <= data@.len(),
            r@ == data@.subrange(start as int, i as int),
        decreases end - i,
    {
        r.push(data[i]);
        assert(data@.subrange(start as int, i + 1) =~= data@.subrange(start as int, i as int).push(data@[i as int]));
        i = i + 1;
    }
    r
}

impl HyperliquidClient {
    pub fn builder() -> (r: HyperliquidClientBuilder)
        ensures
            r.rest_api_base_url is None,
            r.websocket_url is None,
            r.instrument_type is None,
            r.credential is None,
            r.is_mainnet is None,
            r.wallet_address is None,
    {
        HyperliquidClientBuilder {
            rest_api_base_url: None,
            websocket_url: None,
            instrument_type: None,
            credential: None,
            is_mainnet: None,
            wallet_address: None,
        }
    }

    /// True for a buy, false for a sell.
    pub fn convert_order_side_to_bool(&self, side: OrderSide) -> (r: bool)
        requires
            side != OrderSide::Unknown,
        ensures
            r == (side == OrderSide::Buy),
    {
        match side {
            OrderSide::Buy => true,
            _ => false,
        }
    }

    pub fn convert_side_str_to_order_side(&self, s: &str) -> (r: OrderSide)
        ensures
            r == hl_side_of(s@),
    {
        if str_eq(s, "B") {
            OrderSide::Buy
        } else if str_eq(s, "A") {
            OrderSide::Sell
        } else {
            OrderSide::Unknown
        }
    }

    pub fn convert_string_to_order_type(&self, s: &str) -> (r: OrderType)
        ensures
            r == hl_order_type_of(s@),
    {
        if str_eq(s, "Market") {
            OrderType::Market
        } else if str_eq(s, "Limit") {
            OrderType::Limit
        } else {
            OrderType::Unknown
        }
    }

    /// The connection id of an action, from its MessagePack encoding with named fields
    /// (`rmp_serde::to_vec_named`, which the caller makes: the action is a document of
    /// this library) and the nonce.
    pub fn compute_connection_id(action_msgpack: &[u8], nonce: u64) -> (r: Vec<u8>)
        ensures
            r@ == hl_connection_id(action_msgpack@, nonce),
            r@.len() == 32,
    {
        let mut bytes: Vec<u8> = Vec::new();
        append_bytes(&mut bytes, action_msgpack);
        let mut i: u64 = 0;
        while i < 8
            invariant
                i <= 8,
                bytes@ == action_msgpack@ + be8(nonce).take(i as int),
            decreases 8 - i,
        {
            let shift: u64 = 8 * (7 - i);
            let b: u8 = (#[verifier::truncate] (((nonce >> shift) & 0xff) as u8));
            assert(b == be8(nonce)[i as int]);
            bytes.push(b);
            assert(be8(nonce).take(i + 1) =~= be8(nonce).take(i as int).push(b));
            i = i + 1;
        }
        assert(be8(nonce).take(8) =~= be8(nonce));
        bytes.push(0u8);
        assert(bytes@ =~= action_msgpack@ + be8(nonce) + seq![0u8]);
        keccak256(bytes.as_slice())
    }

    /// The EIP-712 hash that the agent signature of a connection id signs.
    pub fn compute_agent_signing_hash(connection_id: &[u8], is_mainnet: bool) -> (r: Vec<u8>)
        ensures
            r@ == hl_agent_signing_hash(connection_id@, is_mainnet),
            r@.len() == 32,
    {
        let domain_type_hash = keccak256(
            "EIP712Domain(string name,string version,uint256 chainId,address verifyingContract)".as_bytes(),
        );
        let name_hash = keccak256("Exchange".as_bytes());
        let version_hash = keccak256("1".as_bytes());
        let mut chain_id: Vec<u8> = Vec::new();
        let mut zero_word: Vec<u8> = Vec::new();
        let mut i: usize = 0;
        while i < 32
            invariant
                i <= 32,
                chain_id@ == hl_chain_id_word().take(i as int),
                zero_word@ == Seq::new(i as nat, |k: int| 0u8),
            decreases 32 - i,
        {
            let b: u8 = if i == 30 { 0x05 } else if i == 31 { 0x39 } else { 0 };
            chain_id.push(b);
            zero_word.push(0);
            assert(chain_id@ =~= hl_chain_id_word().take(i + 1));
            assert(zero_word@ =~= Seq::new((i + 1) as nat, |k: int| 0u8));
            i = i + 1;
        }
        assert(hl_chain_id_word().take(32) =~= hl_chain_id_word());
        let mut domain_data: Vec<u8> = Vec::new();
        append_bytes(&mut domain_data, domain_type_hash.as_slice());
        append_bytes(&mut domain_data, name_hash.as_slice());
        append_bytes(&mut domain_data, version_hash.as_slice());
        append_bytes(&mut domain_data, chain_id.as_slice());
        append_bytes(&mut domain_data, zero_word.as_slice());
        let domain_separator = keccak256(domain_data.as_slice());
        let agent_type_hash = keccak256("Agent(string source,bytes32 connectionId)".as_bytes());
        let source = if is_mainnet { "a" } else { "b" };
        let source_hash = keccak256(source.as_bytes());
        let mut struct_data: Vec<u8> = Vec::new();
        append_bytes(&mut struct_data, agent_type_hash.as_slice());
        append_bytes(&mut struct_data, source_hash.as_slice());
        append_bytes(&mut struct_data, connection_id);
        let struct_hash = keccak256(struct_data.as_slice());
        let mut signing_data: Vec<u8> = Vec::new();
        signing_data.push(0x19);
        signing_data.push(0x01);
        append_bytes(&mut signing_data, domain_separator.as_slice());
        append_bytes(&mut signing_data, struct_hash.as_slice());
        proof {
            assert(domain_data@ =~= domain_type_hash@ + name_hash@ + version_hash@ + hl_chain_id_word() + Seq::new(
                32,
                |k: int| 0u8,
            ));
            assert(source@ == hl_source(is_mainnet));
            assert(seq![0x19u8, 0x01u8] + domain_separator@ + struct_hash@ =~= signing_data@);
        }
        keccak256(signing_data.as_slice())
    }

    /// Whether the key signs the agent hash of an action and nonce.
    pub open spec fn signs_action(&self, action_msgpack: Seq<u8>, nonce: u64) -> bool {
        secp256k1_hash_signs(
            self.credential->0.secret_key@,
            hl_agent_signing_hash(hl_connection_id(action_msgpack, nonce), self.is_mainnet),
        )
    }

    /// The signature object of an action (given as its MessagePack encoding) with a
    /// nonce; none exactly where `alloy` does not sign its agent hash.
    pub fn sign_action(&self, action_msgpack: &[u8], nonce: u64) -> (r: Option<JsonValue>)
        requires
            self.credential matches Some(c) && secp256k1_secret_key_valid(c.secret_key@),
        ensures
            r is Some <==> self.signs_action(action_msgpack@, nonce),
            r matches Some(j) ==> json_text(j) == hl_signature_text(
                secp256k1_hash_signature(
                    self.credential->0.secret_key@,
                    hl_agent_signing_hash(hl_connection_id(action_msgpack@, nonce), self.is_mainnet),
                ),
            ),
    {
        let connection_id = Self::compute_connection_id(action_msgpack, nonce);
        let signing_hash = Self::compute_agent_signing_hash(connection_id.as_slice(), self.is_mainnet);
        let c = self.credential.as_ref().unwrap();
        let sig = match secp256k1_sign_hash(c.secret_key.as_slice(), signing_hash.as_slice()) {
            Some(s) => s,
            None => return None,
        };
        let r_bytes = take_bytes(&sig, 0, 32);
        let s_bytes = take_bytes(&sig, 32, 64);
        let mut r_text = string_from("0x");
        let r_hex = hex_encode(r_bytes.as_slice());
        push_str(&mut r_text, r_hex.as_str());
        let mut s_text = string_from("0x");
        let s_hex = hex_encode(s_bytes.as_slice());
        push_str(&mut s_text, s_hex.as_str());
        let v: u8 = sig[64];
        let ghost rt = r_text@;
        let ghost st = s_text@;
        let mut entries: Vec<(String, JsonValue)> = Vec::new();
        let ghost m0: Seq<(Seq<char>, Seq<char>)> = Seq::empty();
        let ghost m1: Seq<(Seq<char>, Seq<char>)> = seq![("r"@, quoted(rt))];
        let ghost m2: Seq<(Seq<char>, Seq<char>)> = seq![("r"@, quoted(rt)), ("s"@, quoted(st))];
        proof {
            assert(members_text(entries@) == crate::exchanges::htx_usdt_margined_futures::rest::members_of(m0));
        }
        crate::exchanges::htx_usdt_margined_futures::rest::add_member(&mut entries, "r", JsonValue::Str(r_text), Ghost(m0));
        assert(m0.push(("r"@, quoted(rt))) =~= m1);
        crate::exchanges::htx_usdt_margined_futures::rest::add_member(&mut entries, "s", JsonValue::Str(s_text), Ghost(m1));
        assert(m1.push(("s"@, quoted(st))) =~= m2);
        let vj = json_int(v as i64);
        crate::exchanges::htx_usdt_margined_futures::rest::add_member(&mut entries, "v", vj, Ghost(m2));
        let j = JsonValue::Object(entries);
        proof {
            reveal_strlit("0x");
            assert(m2.push(("v"@, crate::text::int_text(v as int))) =~= seq![
                ("r"@, quoted(rt)),
                ("s"@, quoted(st)),
                ("v"@, nat_digits(v as nat)),
            ]);
        }
        Some(j)
    }

    pub fn convert_json_value_to_order(&self, json_value: &JsonValue, order_status: OrderStatus) -> (r: Order)
        ensures
            hl_order_matches(r, *json_value, self.instrument_type, order_status),
    {
        let oid: u64 = match json_value.at("oid") {
            Some(v) => match v.as_u64() {
                Some(n) => n,
                None => 0,
            },
            None => 0,
        };
        let order_type = json_value.field_str("orderType");
        let side = json_value.field_str("side");
        Order {
            exchange_instrument_type: ExchangeInstrumentType::Hyperliquid(self.instrument_type),
            symbol: json_value.field_str("coin"),
            order_id: u64_to_string(oid),
            client_order_id: json_value.field_str("cloid"),
            order_type: self.convert_string_to_order_type(order_type.as_str()),
            side: self.convert_side_str_to_order_side(side.as_str()),
            price: json_value.field_str("limitPx"),
            quantity: json_value.field_str("origSz"),
            leverage: String::new(),
            remaining_quantity: json_value.field_str("sz"),
            cumulative_filled_quantity: String::new(),
            cumulative_filled_quote_quantity: String::new(),
            average_filled_price: String::new(),
            status: order_status,
            fill_price: String::new(),
            fill_quantity: String::new(),
            fill_quote_quantity: String::new(),
            fill_is_maker: false,
        }
    }

    /// The position of an asset-position document; its side, the sign of "szi" read as a
    /// float, is left unknown for the caller to set.
    pub fn convert_json_value_to_position(&self, json_value: &JsonValue) -> (r: Position)
        ensures
            hl_position_matches(r, *json_value),
    {
        let null = JsonValue::Null;
        let pos = match json_value.at("position") {
            Some(p) => p,
            None => &null,
        };
        let szi = match pos.at("szi") {
            Some(v) => v.str_or("0"),
            None => null.str_or("0"),
        };
        let leverage: u64 = match pos.at("leverage") {
            Some(l) => match l.at("value") {
                Some(v) => match v.as_u64() {
                    Some(n) => n,
                    None => 0,
                },
                None => match null.as_u64() {
                    Some(n) => n,
                    None => 0,
                },
            },
            None => 0,
        };
        Position {
            exchange_instrument_type: ExchangeInstrumentType::Hyperliquid(HyperliquidInstrumentType::Perpetuals),
            symbol: pos.field_str("coin"),
            side: PositionSide::Unknown,
            entry_price: pos.field_str("entryPx"),
            quantity: trim_start_matches_text(szi.as_str(), "-"),
            leverage: u64_to_string(leverage),
            position_asset: String::new(),
        }
    }

    pub fn convert_json_value_to_balance(&self, json_value: &JsonValue) -> (r: Balance)
        ensures
            hl_balance_matches(r, *json_value),
    {
        Balance { exchange: Exchange::Hyperliquid, asset: json_value.field_str("coin"), quantity: json_value.field_str("total") }
    }

    pub fn convert_symbol_to_instrument_type(&self, symbol: &str) -> (r: HyperliquidInstrumentType)
        ensures
            r == hl_instrument_type_of(symbol@),
    {
        if (symbol.unicode_len() > 0 && symbol.get_char(0) == '@') || str_eq(symbol, "PURR/USDC") {
            HyperliquidInstrumentType::Spot
        } else {
            HyperliquidInstrumentType::Perpetuals
        }
    }
}

pub struct HyperliquidClientBuilder {
    pub rest_api_base_url: Option<String>,
    pub websocket_url: Option<String>,
    pub instrument_type: Option<HyperliquidInstrumentType>,
    pub credential: Option<HyperliquidCredential>,
    pub is_mainnet: Option<bool>,
    pub wallet_address: Option<String>,
}

impl HyperliquidClientBuilder {
    pub fn rest_api_base_url(self, rest_api_base_url: String) -> (r: Self)
        ensures
            r == (HyperliquidClientBuilder { rest_api_base_url: Some(rest_api_base_url), ..self }),
    {
        HyperliquidClientBuilder { rest_api_base_url: Some(rest_api_base_url), ..self }
    }

    pub fn websocket_url(self, websocket_url: String) -> (r: Self)
        ensures
            r == (HyperliquidClientBuilder { websocket_url: Some(websocket_url), ..self }),
    {
        HyperliquidClientBuilder { websocket_url: Some(websocket_url), ..self }
    }

    pub fn instrument_type(self, instrument_type: HyperliquidInstrumentType) -> (r: Self)
        ensures
            r == (HyperliquidClientBuilder { instrument_type: Some(instrument_type), ..self }),
    {
        HyperliquidClientBuilder { instrument_type: Some(instrument_type), ..self }
    }

    pub fn credential(self, credential: Option<HyperliquidCredential>) -> (r: Self)
        ensures
            r == (HyperliquidClientBuilder { credential, ..self }),
    {
        HyperliquidClientBuilder { credential, ..self }
    }

    pub fn is_mainnet(self, is_mainnet: bool) -> (r: Self)
        ensures
            r == (HyperliquidClientBuilder { is_mainnet: Some(is_mainnet), ..self }),
    {
        HyperliquidClientBuilder { is_mainnet: Some(is_mainnet), ..self }
    }

    pub fn wallet_address(self, wallet_address: String) -> (r: Self)
        ensures
            r == (HyperliquidClientBuilder { wallet_address: Some(wallet_address), ..self }),
    {
        HyperliquidClientBuilder { wallet_address: Some(wallet_address), ..self }
    }

    /// What a build needs: a signing key that the signer accepts, and a given (non-empty)
    /// wallet address that is the key's address (where the original asserts it).
    pub open spec fn build_ok(&self) -> bool {
        &&& self.credential matches Some(c) ==> secp256k1_secret_key_valid(c.secret_key@)
        &&& self.credential is Some && self.wallet_address is Some && self.wallet_address->0@.len() > 0
            ==> self.wallet_address->0@ == secp256k1_address_text(self.credential->0.secret_key@)
    }

    /// The client a build gives: mainnet unless told otherwise, the network's public URLs
    /// where none were given, and the wallet address given (when non-empty), else the
    /// signing key's.
    pub open spec fn built(&self, r: HyperliquidClient) -> bool {
        ({
            let mainnet = match self.is_mainnet {
                Some(m) => m,
                None => true,
            };
            &&& r.is_mainnet == mainnet
            &&& r.rest_api_base_url@ == match self.rest_api_base_url {
                Some(u) => u@,
                None => if mainnet {
                    "https://api.hyperliquid.xyz"@
                } else {
                    "https://api.hyperliquid-testnet.xyz"@
                },
            }
            &&& r.websocket_url@ == match self.websocket_url {
                Some(u) => u@,
                None => if mainnet {
                    "wss://api.hyperliquid.xyz/ws"@
                } else {
                    "wss://api.hyperliquid-testnet.xyz/ws"@
                },
            }
            &&& r.wallet_address@ == match self.wallet_address {
                Some(w) => if w@.len() > 0 {
                    w@
                } else {
                    match self.credential {
                        Some(c) => secp256k1_address_text(c.secret_key@),
                        None => Seq::empty(),
                    }
                },
                None => match self.credential {
                    Some(c) => secp256k1_address_text(c.secret_key@),
                    None => Seq::empty(),
                },
            }
            &&& r.instrument_type == match self.instrument_type {
                Some(t) => t,
                None => HyperliquidInstrumentType::Unknown,
            }
            &&& r.credential == self.credential
        })
    }

    /// The client, as `built` describes it.
    pub fn build(self) -> (r: HyperliquidClient)
        requires
            self.build_ok(),
        ensures
            self.built(r),
    {
        let is_mainnet = match self.is_mainnet {
            Some(m) => m,
            None => true,
        };
        let rest_api_base_url = match self.rest_api_base_url {
            Some(u) => u,
            None => if is_mainnet {
                string_from("https://api.hyperliquid.xyz")
            } else {
                string_from("https://api.hyperliquid-testnet.xyz")
            },
        };
        let websocket_url = match self.websocket_url {
            Some(u) => u,
            None => if is_mainnet {
                string_from("wss://api.hyperliquid.xyz/ws")
            } else {
                string_from("wss://api.hyperliquid-testnet.xyz/ws")
            },
        };
        let derived = match &self.credential {
            Some(c) => secp256k1_address(c.secret_key.as_slice()),
            None => String::new(),
        };
        let wallet_address = match self.wallet_address {
            Some(w) => if w.as_str().unicode_len() > 0 {
                w
            } else {
                derived
            },
            None => derived,
        };
        HyperliquidClient {
            rest_api_base_url,
            websocket_url,
            instrument_type: match self.instrument_type {
                Some(t) => t,
                None => HyperliquidInstrumentType::Unknown,
            },
            credential: self.credential,
            is_mainnet,
            wallet_address,
        }
    }

    /// The client where a build may be made (`build_ok`), none where the original panics:
    /// a signing key the signer refuses, or a given wallet address that is not the key's.
    pub fn try_build(self) -> (r: Option<HyperliquidClient>)
        ensures
            match r {
                Some(c) => self.build_ok() && self.built(c),
                None => !self.build_ok(),
            },
    {
        match &self.credential {
            Some(c) => {
                if !check_secp256k1_secret_key(c.secret_key.as_slice()) {
                    return None;
                }
                match &self.wallet_address {
                    Some(w) => if w.as_str().unicode_len() > 0 {
                        let derived = secp256k1_address(c.secret_key.as_slice());
                        if !str_eq(w.as_str(), derived.as_str()) {
                            return None;
                        }
                    },
                    None => {},
                }
            },
            None => {},
        }
        let r = self.build();
        Some(r)
    }
}

/// Lower-case hexadecimal digits of a number, most significant first.
pub open spec fn nat_hex(n: nat) -> Seq<char>
    decreases n,
{
    if n < 16 {
        seq![crate::json::hex_digit_lower(n)]
    } else {
        nat_hex(n / 16).push(crate::json::hex_digit_lower(n % 16))
    }
}

/// A client order id: the decimal id (seconds, then the sequence number with at least
/// three digits) read as a number, written "0x" and in hexadecimal, zero-padded to 32 digits.
pub open spec fn hl_client_order_id_text(seconds: u64, sequence: u64) -> Seq<char> {
    let value: i64 = match crate::text::parse_i64_spec(
        crate::exchange_client::common::client_order_id_text(Seq::empty(), seconds, sequence),
    ) {
        Some(v) => v,
        None => 0,
    };
    let digits = nat_hex((value as u64) as nat);
    "0x"@ + Seq::new(if digits.len() < 32 { (32 - digits.len()) as nat } else { 0 }, |i: int| '0') + digits
}

fn u64_to_hex(n: u64) -> (r: String)
    ensures
        r@ == nat_hex(n as nat),
    decreases n,
{
    if n < 16 {
        let mut s = String::new();
        crate::text::push_char(&mut s, crate::json::hex_digit(n as u32));
        assert(s@ =~= nat_hex(n as nat));
        s
    } else {
        let mut s = u64_to_hex(n / 16);
        crate::text::push_char(&mut s, crate::json::hex_digit((n % 16) as u32));
        s
    }
}

impl HyperliquidClient {
    /// The next client order id (Hyperliquid's form, `hl_client_order_id_text`): from the
    /// generator's state and the current second, the state to store and the id.
    pub fn hex_client_order_id_from(&self, state: u64, now: u64) -> (r: (u64, String))
        ensures
            ({
                let (seconds, sequence) = crate::exchange_client::common::next_id_parts(state, now);
                &&& r.0 == crate::exchange_client::common::pack_state(seconds, sequence)
                &&& r.1@ == hl_client_order_id_text(seconds, sequence)
            }),
    {
        let (next, seconds, sequence) = crate::exchange_client::common::next_client_order_id_state(state, now);
        let text = self.client_order_id_at(seconds, sequence);
        let value: i64 = match crate::text::parse_i64(text.as_str()) {
            Some(v) => v,
            None => 0,
        };
        let digits = u64_to_hex(value as u64);
        let mut out = string_from("0x");
        let n: usize = digits.as_str().unicode_len();
        let pad: usize = if n < 32 { 32 - n } else { 0 };
        let mut i: usize = 0;
        while i < pad
            invariant
                i <= pad,
                out@ == "0x"@ + Seq::new(i as nat, |k: int| '0'),
            decreases pad - i,
        {
            crate::text::push_char(&mut out, '0');
            assert(out@ =~= "0x"@ + Seq::new((i + 1) as nat, |k: int| '0'));
            i = i + 1;
        }
        push_str(&mut out, digits.as_str());
        (next, out)
    }
}

/// The id writer of this exchange puts no prefix in front.
impl Common for HyperliquidClient {
    open spec fn client_order_id_prefix(&self) -> Seq<char> {
        Seq::empty()
    }

    fn prefix_client_order_id(&self, client_order_id: &mut String) {
        assert(client_order_id@ =~= Seq::<char>::empty() + client_order_id@);
    }
}

} // verus!
