//! A client for Kalshi's event contracts: its settings, its RSA-PSS request signature,
//! and how it reads orders, positions and balances.

use vstd::prelude::*;
use crate::exchange_client::common::Common;
use crate::json::{field_str, spec_as_str, spec_at, str_or, JsonValue};
use crate::signing::{
    base64_encode, base64_standard, pem_private_key_readable, read_private_key_pem, rsa_pss_sha256_sign, rsa_pss_sha256_verifies,
};
use vstd::utf8::encode_utf8;
use crate::text::{push_str, str_eq, string_from};
use crate::types::{Balance, Exchange, ExchangeInstrumentType, Order, OrderSide, OrderStatus, OrderType, Position, PositionSide};

verus! {

/// An API key and the PEM text of the RSA private key that signs its requests.
#[derive(Clone)]
pub struct KalshiCredential {
    pub api_key: String,
    pub private_key_pem: Vec<u8>,
}

impl KalshiCredential {
    /// The credential of an API key and PEM text; none where the text is longer than
    /// `openssl` takes (a C `int`) or `openssl` reads no private key from it.
    pub fn from_pem(api_key: String, private_key_pem: Vec<u8>) -> (r: Option<Self>)
        ensures
            match r {
                Some(c) => c.api_key == api_key && c.private_key_pem@ == private_key_pem@
                    && private_key_pem@.len() <= i32::MAX && pem_private_key_readable(private_key_pem@),
                None => private_key_pem@.len() > i32::MAX || !pem_private_key_readable(private_key_pem@),
            },
    {
        if private_key_pem.len() > 2147483647 {
            return None;
        }
        if read_private_key_pem(private_key_pem.as_slice()) {
            Some(KalshiCredential { api_key, private_key_pem })
        } else {
            None
        }
    }
}

pub struct KalshiClient {
    pub rest_api_base_url: String,
    pub websocket_api_url: String,
    pub credential: Option<KalshiCredential>,
}

pub open spec fn kalshi_side_text(side: OrderSide) -> Seq<char> {
    if side == OrderSide::Buy { "bid"@ } else { "ask"@ }
}

pub open spec fn kalshi_side_of(s: Seq<char>) -> OrderSide {
    if s == "bid"@ {
        OrderSide::Buy
    } else if s == "ask"@ {
        OrderSide::Sell
    } else {
        OrderSide::Unknown
    }
}

pub open spec fn kalshi_type_of(s: Seq<char>) -> OrderType {
    if s == "market"@ {
        OrderType::Market
    } else if s == "limit"@ {
        OrderType::Limit
    } else {
        OrderType::Unknown
    }
}

pub open spec fn kalshi_status_of(s: Seq<char>) -> OrderStatus {
    if s == "resting"@ {
        OrderStatus::Open
    } else if s == "executed"@ {
        OrderStatus::Filled
    } else if s == "canceled"@ {
        OrderStatus::Canceled
    } else {
        OrderStatus::Unknown
    }
}

/// What a request's signature covers: the time, the method and the path.
pub open spec fn kalshi_signed_message(timestamp: Seq<char>, method: Seq<char>, path: Seq<char>) -> Seq<char> {
    timestamp + method + path
}

pub open spec fn kalshi_order_matches(r: Order, v: JsonValue) -> bool {
    &&& r.exchange_instrument_type == ExchangeInstrumentType::Kalshi
    &&& r.symbol@ == field_str(v, "ticker"@)
    &&& r.order_id@ == field_str(v, "order_id"@)
    &&& r.client_order_id@ == field_str(v, "client_order_id"@)
    &&& r.order_type == kalshi_type_of(str_or(spec_at(v, "type"@), "limit"@))
    &&& r.side == kalshi_side_of(field_str(v, "book_side"@))
    &&& r.price@ == field_str(v, "yes_price_dollars"@)
    &&& r.quantity@ == field_str(v, "initial_count_fp"@)
    &&& r.leverage@.len() == 0
    &&& r.remaining_quantity@ == field_str(v, "remaining_count_fp"@)
    &&& r.cumulative_filled_quantity@ == field_str(v, "fill_count_fp"@)
    &&& r.cumulative_filled_quote_quantity@.len() == 0
    &&& r.average_filled_price@.len() == 0
    &&& r.status == kalshi_status_of(field_str(v, "status"@))
    &&& r.fill_price@.len() == 0
    &&& r.fill_quantity@.len() == 0
    &&& r.fill_quote_quantity@.len() == 0
    &&& !r.fill_is_maker
}

/// A position: short where its signed count starts with '-', its size without that sign.
pub open spec fn kalshi_position_matches(p: Position, v: JsonValue) -> bool {
    let count = str_or(spec_at(v, "position_fp"@), "0"@);
    let short = count.len() > 0 && count[0] == '-';
    &&& p.exchange_instrument_type == ExchangeInstrumentType::Kalshi
    &&& p.symbol@ == field_str(v, "ticker"@)
    &&& p.side == if short { PositionSide::Short } else { PositionSide::Long }
    &&& p.entry_price@.len() == 0
    &&& p.quantity@ == if short { count.drop_first() } else { count }
    &&& p.leverage@.len() == 0
    &&& p.position_asset@.len() == 0
}

pub open spec fn kalshi_balance_matches(b: Balance, v: JsonValue) -> bool {
    &&& b.exchange == Exchange::Kalshi
    &&& b.asset@ == "USD"@
    &&& b.quantity@ == str_or(spec_at(v, "balance_dollars"@), "0"@)
}

impl KalshiClient {
    pub fn builder() -> (r: KalshiClientBuilder)
        ensures
            r.rest_api_base_url is None,
            r.websocket_api_url is None,
            r.credential is None,
            r.use_demo_trading is None,
    {
        KalshiClientBuilder { rest_api_base_url: None, websocket_api_url: None, credential: None, use_demo_trading: None }
    }

    /// The Base64 RSA-PSS signature of the time, method and path; none where `openssl`
    /// cannot sign with the key.
    pub fn build_signature(&self, timestamp: &str, method: &str, path: &str) -> (r: Option<String>)
        requires
            self.credential is Some,
        ensures
            r matches Some(s) ==> exists|sig: Seq<u8>| s@ == #[trigger] base64_standard(sig) && rsa_pss_sha256_verifies(
                self.credential->0.private_key_pem@,
                encode_utf8(kalshi_signed_message(timestamp@, method@, path@)),
                sig,
            ),
            r is Some ==> self.credential->0.private_key_pem@.len() <= i32::MAX && pem_private_key_readable(
                self.credential->0.private_key_pem@,
            ),
    {
        let c = self.credential.as_ref().unwrap();
        if c.private_key_pem.len() > 2147483647 {
            return None;
        }
        let mut message = string_from(timestamp);
        push_str(&mut message, method);
        push_str(&mut message, path);
        assert(message@ == kalshi_signed_message(timestamp@, method@, path@));
        match rsa_pss_sha256_sign(c.private_key_pem.as_slice(), message.as_str().as_bytes()) {
            Some(sig) => {
                let r = base64_encode(sig.as_slice());
                assert(r@ == base64_standard(sig@));
                Some(r)
            },
            None => None,
        }
    }

    pub fn convert_order_side_to_string(&self, side: OrderSide) -> (r: &'static str)
        requires
            side != OrderSide::Unknown,
        ensures
            r@ == kalshi_side_text(side),
    {
        match side {
            OrderSide::Buy => "bid",
            _ => "ask",
        }
    }

    pub fn convert_string_to_order_side(&self, s: &str) -> (r: OrderSide)
        ensures
            r == kalshi_side_of(s@),
    {
        if str_eq(s, "bid") {
            OrderSide::Buy
        } else if str_eq(s, "ask") {
            OrderSide::Sell
        } else {
            OrderSide::Unknown
        }
    }

    pub fn convert_string_to_order_type(&self, s: &str) -> (r: OrderType)
        ensures
            r == kalshi_type_of(s@),
    {
        if str_eq(s, "market") {
            OrderType::Market
        } else if str_eq(s, "limit") {
            OrderType::Limit
        } else {
            OrderType::Unknown
        }
    }

    pub fn convert_string_to_order_status(&self, s: &str) -> (r: OrderStatus)
        ensures
            r == kalshi_status_of(s@),
    {
        if str_eq(s, "resting") {
            OrderStatus::Open
        } else if str_eq(s, "executed") {
            OrderStatus::Filled
        } else if str_eq(s, "canceled") {
            OrderStatus::Canceled
        } else {
            OrderStatus::Unknown
        }
    }

    pub fn convert_json_value_to_order(&self, json_value: &JsonValue) -> (r: Order)
        ensures
            kalshi_order_matches(r, *json_value),
    {
        let order_type = json_value.field_str_or("type", "limit");
        let side = json_value.field_str("book_side");
        let status = json_value.field_str("status");
        Order {
            exchange_instrument_type: ExchangeInstrumentType::Kalshi,
            symbol: json_value.field_str("ticker"),
            order_id: json_value.field_str("order_id"),
            client_order_id: json_value.field_str("client_order_id"),
            order_type: self.convert_string_to_order_type(order_type.as_str()),
            side: self.convert_string_to_order_side(side.as_str()),
            price: json_value.field_str("yes_price_dollars"),
            quantity: json_value.field_str("initial_count_fp"),
            leverage: String::new(),
            remaining_quantity: json_value.field_str("remaining_count_fp"),
            cumulative_filled_quantity: json_value.field_str("fill_count_fp"),
            cumulative_filled_quote_quantity: String::new(),
            average_filled_price: String::new(),
            status: self.convert_string_to_order_status(status.as_str()),
            fill_price: String::new(),
            fill_quantity: String::new(),
            fill_quote_quantity: String::new(),
            fill_is_maker: false,
        }
    }

    pub fn convert_json_value_to_position(&self, json_value: &JsonValue) -> (r: Position)
        ensures
            kalshi_position_matches(r, *json_value),
    {
        let count = json_value.field_str_or("position_fp", "0");
        let short = count.as_str().unicode_len() > 0 && count.as_str().get_char(0) == '-';
        let quantity = if short {
            string_from(count.as_str().substring_char(1, count.as_str().unicode_len()))
        } else {
            count.clone()
        };
        proof {
            if short {
                assert(count@.subrange(1, count@.len() as int) =~= count@.drop_first());
            }
        }
        Position {
            exchange_instrument_type: ExchangeInstrumentType::Kalshi,
            symbol: json_value.field_str("ticker"),
            side: if short { PositionSide::Short } else { PositionSide::Long },
            entry_price: String::new(),
            quantity,
            leverage: String::new(),
            position_asset: String::new(),
        }
    }

    pub fn convert_json_value_to_balance(&self, json_value: &JsonValue) -> (r: Balance)
        ensures
            kalshi_balance_matches(r, *json_value),
    {
        Balance {
            exchange: Exchange::Kalshi,
            asset: string_from("USD"),
            quantity: json_value.field_str_or("balance_dollars", "0"),
        }
    }
}

#[derive(Clone)]
pub struct KalshiClientBuilder {
    pub rest_api_base_url: Option<String>,
    pub websocket_api_url: Option<String>,
    pub credential: Option<KalshiCredential>,
    pub use_demo_trading: Option<bool>,
}

impl KalshiClientBuilder {
    pub fn rest_api_base_url(self, rest_api_base_url: String) -> (r: Self)
        ensures
            r == (KalshiClientBuilder { rest_api_base_url: Some(rest_api_base_url), ..self }),
    {
        KalshiClientBuilder { rest_api_base_url: Some(rest_api_base_url), ..self }
    }

    pub fn websocket_api_url(self, websocket_api_url: String) -> (r: Self)
        ensures
            r == (KalshiClientBuilder { websocket_api_url: Some(websocket_api_url), ..self }),
    {
        KalshiClientBuilder { websocket_api_url: Some(websocket_api_url), ..self }
    }

    pub fn credential(self, credential: Option<KalshiCredential>) -> (r: Self)
        ensures
            r == (KalshiClientBuilder { credential, ..self }),
    {
        KalshiClientBuilder { credential, ..self }
    }

    pub fn use_demo_trading(self, use_demo_trading: Option<bool>) -> (r: Self)
        ensures
            r == (KalshiClientBuilder { use_demo_trading, ..self }),
    {
        KalshiClientBuilder { use_demo_trading, ..self }
    }

    /// The client: Kalshi's URLs (those of its demo where asked) where none were given.
    pub fn build(self) -> (r: KalshiClient)
        ensures
            ({
                let demo = self.use_demo_trading == Some(true);
                &&& r.rest_api_base_url@ == match self.rest_api_base_url {
                    Some(u) => u@,
                    None => if demo {
                        "https://external-api.demo.kalshi.co"@
                    } else {
                        "https://external-api.kalshi.com"@
                    },
                }
                &&& r.websocket_api_url@ == match self.websocket_api_url {
                    Some(u) => u@,
                    None => if demo {
                        "wss://external-api-ws.demo.kalshi.co/trade-api/ws/v2"@
                    } else {
                        "wss://external-api-ws.kalshi.com/trade-api/ws/v2"@
                    },
                }
                &&& r.credential == self.credential
            }),
    {
        let demo = match self.use_demo_trading {
            Some(d) => d,
            None => false,
        };
        KalshiClient {
            rest_api_base_url: match self.rest_api_base_url {
                Some(u) => u,
                None => if demo {
                    string_from("https://external-api.demo.kalshi.co")
                } else {
                    string_from("https://external-api.kalshi.com")
                },
            },
            websocket_api_url: match self.websocket_api_url {
                Some(u) => u,
                None => if demo {
                    string_from("wss://external-api-ws.demo.kalshi.co/trade-api/ws/v2")
                } else {
                    string_from("wss://external-api-ws.kalshi.com/trade-api/ws/v2")
                },
            },
            credential: self.credential,
        }
    }
}

/// Client order ids of this exchange carry no prefix.
impl Common for KalshiClient {
    open spec fn client_order_id_prefix(&self) -> Seq<char> {
        Seq::empty()
    }

    fn prefix_client_order_id(&self, client_order_id: &mut String) {
        assert(client_order_id@ =~= Seq::<char>::empty() + client_order_id@);
    }
}

} // verus!
