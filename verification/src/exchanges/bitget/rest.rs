//! Bitget's REST API: the requests, their signature, and the responses.

use vstd::prelude::*;
use vstd::utf8::encode_utf8;
use crate::exchange_client::common::{
    CancelOrderRequest, CancelOrderResponse, GetBalanceRequest, GetBalanceResponse,
    GetInstrumentInfoRequest, GetInstrumentInfoResponse, GetOpenOrderRequest, GetOpenOrderResponse,
    GetPositionRequest, GetPositionResponse, GetTopOfBookRequest, GetTopOfBookResponse,
    PlaceOrderRequest, PlaceOrderResponse, Response,
};
use crate::exchange_client::common::{answers, is_private_request, is_rest_request, Request};
use crate::exchanges::bitget::common::{
    bitget_balance_matches, bitget_order_matches, bitget_order_type_text, bitget_position_matches,
    bitget_side_text, BitgetClient,
};
use crate::json::{field_str, spec_as_array, spec_as_str, spec_at, spec_get, str_or, JsonValue};
use crate::networking::http::{
    has_json_body, has_query, header_value_ok, json_request, method_text, opt_view, push_pair,
    query_request, status_is_success, HttpMethod, HttpRequest, HttpResponse,
};
use crate::signing::{base64_encode, base64_standard, hmac_sha256_crate_tag, hmac_sha256_single, pair_views};
use crate::text::{
    decimal_unit, decimal_unit_text, decimal_zero, decimal_zero_text, i64_to_string, int_text, parse_i64,
    parse_i64_spec, parse_u64, parse_u64_spec, push_str, str_eq, string_from,
};
use crate::time::{from_millis_or_epoch, millis_of, timestamp_from_millis_or_epoch, timestamp_millis, timestamp_valid};
use crate::types::{
    Balance, BitgetInstrumentType, ExchangeInstrumentType, InstrumentInfo, Order, OrderSide, OrderType,
    Position, Timestamp, TopOfBook,
};

verus! {

/// What Bitget signs: time, method, path (with "?" and the query for GET), body (for POST).
pub open spec fn bitget_prehash(
    timestamp: Seq<char>,
    method: HttpMethod,
    path: Seq<char>,
    query: Option<Seq<char>>,
    payload: Option<Seq<char>>,
) -> Seq<char> {
    let path_with_query = if method == HttpMethod::Get {
        match query {
            Some(q) => path + "?"@ + q,
            None => path,
        }
    } else {
        path
    };
    let body = if method == HttpMethod::Post {
        match payload {
            Some(p) => p,
            None => Seq::empty(),
        }
    } else {
        Seq::empty()
    };
    timestamp + method_text(method) + path_with_query + body
}

/// The category, plus the symbol when it is given.
pub open spec fn category_symbol_pairs(category: Seq<char>, symbol: Seq<char>) -> Seq<(Seq<char>, Seq<char>)> {
    if symbol.len() != 0 {
        seq![("category"@, category), ("symbol"@, symbol)]
    } else {
        seq![("category"@, category)]
    }
}

pub open spec fn place_order_members(category: Seq<char>, req: PlaceOrderRequest) -> Seq<(Seq<char>, Seq<char>)> {
    let a = seq![("category"@, category)];
    let b = if req.client_order_id@.len() != 0 { a.push(("clientOid"@, req.client_order_id@)) } else { a };
    let c = b.push(("orderType"@, bitget_order_type_text(req.order_type)));
    let d = if req.order_type == OrderType::Limit { c.push(("price"@, req.price@)) } else { c };
    d.push(("qty"@, req.quantity@)).push(("side"@, bitget_side_text(req.side))).push(("symbol"@, req.symbol@))
}

pub open spec fn cancel_order_members(category: Seq<char>, req: CancelOrderRequest) -> Seq<(Seq<char>, Seq<char>)> {
    let a = seq![("category"@, category)];
    let b = if req.order_id@.len() != 0 {
        a.push(("orderId"@, req.order_id@))
    } else if req.client_order_id@.len() != 0 {
        a.push(("clientOid"@, req.client_order_id@))
    } else {
        a
    };
    b.push(("symbol"@, req.symbol@))
}

pub open spec fn open_order_pairs(category: Seq<char>, req: GetOpenOrderRequest) -> Seq<(Seq<char>, Seq<char>)> {
    let a = category_symbol_pairs(category, req.symbol@);
    let b = if req.limit > 0 { a.push(("limit"@, crate::text::nat_digits(req.limit as nat))) } else { a };
    if req.next_page_cursor@.len() != 0 { b.push(("cursor"@, req.next_page_cursor@)) } else { b }
}

impl BitgetClient {
    /// A GET of the instruments of the client's category.
    pub open spec fn instrument_info_http_request(&self, request: GetInstrumentInfoRequest, r: HttpRequest) -> bool {
        &&& r.base_url@ == self.rest_api_base_url@
        &&& r.method == HttpMethod::Get
        &&& r.path@ == "/api/v3/market/instruments"@
        &&& r.headers.entries@.len() == 0
        &&& has_query(r, category_symbol_pairs(self.category@, request.symbol@))
        &&& r.payload is None
    }

    pub fn create_get_instrument_info_http_request(&self, request: &GetInstrumentInfoRequest) -> (r: HttpRequest)
        ensures
            self.instrument_info_http_request(*request, r),
    {
        let mut pairs: Vec<(String, String)> = Vec::new();
        assert(pair_views(pairs@) =~= Seq::empty());
        push_pair(&mut pairs, "category", self.category.as_str());
        if request.symbol.as_str().unicode_len() != 0 {
            push_pair(&mut pairs, "symbol", request.symbol.as_str());
        }
        assert(pair_views(pairs@) =~= category_symbol_pairs(self.category@, request.symbol@));
        query_request(self.rest_api_base_url.as_str(), HttpMethod::Get, "/api/v3/market/instruments", pairs)
    }

    /// A GET of the ticker of the symbol in the client's category.
    pub open spec fn top_of_book_http_request(&self, request: GetTopOfBookRequest, r: HttpRequest) -> bool {
        &&& r.base_url@ == self.rest_api_base_url@
        &&& r.method == HttpMethod::Get
        &&& r.path@ == "/api/v3/market/tickers"@
        &&& r.headers.entries@.len() == 0
        &&& has_query(r, seq![("category"@, self.category@), ("symbol"@, request.symbol@)])
        &&& r.payload is None
    }

    pub fn create_get_top_of_book_http_request(&self, request: &GetTopOfBookRequest) -> (r: HttpRequest)
        ensures
            self.top_of_book_http_request(*request, r),
    {
        let mut pairs: Vec<(String, String)> = Vec::new();
        assert(pair_views(pairs@) =~= Seq::empty());
        push_pair(&mut pairs, "category", self.category.as_str());
        push_pair(&mut pairs, "symbol", request.symbol.as_str());
        assert(pair_views(pairs@) =~= seq![("category"@, self.category@), ("symbol"@, request.symbol@)]);
        query_request(self.rest_api_base_url.as_str(), HttpMethod::Get, "/api/v3/market/tickers", pairs)
    }

    /// The signed request: the unsigned one with the access headers, the JSON content
    /// type, the channel code, and the demo trading flag when it is set; the signature is
    /// the Base64 HMAC-SHA256 of the prehash.
    pub open spec fn signed_http_request(&self, o: HttpRequest, n: HttpRequest, timestamp: Seq<char>) -> bool {
        let c = self.credential->0;
        let prehash = bitget_prehash(timestamp, o.method, o.path@, opt_view(o.query_string), opt_view(o.payload));
        &&& n.base_url == o.base_url
        &&& n.method == o.method
        &&& n.path == o.path
        &&& n.query_string == o.query_string
        &&& n.payload == o.payload
        &&& n.headers.spec_get("content-type"@) == Some("application/json"@)
        &&& n.headers.spec_get("access-key"@) == Some(c.api_key@)
        &&& n.headers.spec_get("access-sign"@) == Some(
            base64_standard(hmac_sha256_crate_tag(encode_utf8(c.api_secret@), encode_utf8(prehash))))
        &&& n.headers.spec_get("access-timestamp"@) == Some(timestamp)
        &&& n.headers.spec_get("access-passphrase"@) == Some(c.passphrase@)
        &&& n.headers.spec_get("x-channel-api-code"@) == Some(self.api_channel_api_code@)
        &&& n.headers.spec_get("paptrading"@) == if self.use_demo_trading {
            Some("1"@)
        } else {
            o.headers.spec_get("paptrading"@)
        }
        &&& forall|k: Seq<char>| k != "content-type"@ && k != "access-key"@ && k != "access-sign"@ && k != "access-timestamp"@ && k != "access-passphrase"@ && k != "x-channel-api-code"@ && k != "paptrading"@ ==> n.headers.spec_get(k) == o.headers.spec_get(k)
    }

    /// Signs the request at the given time (milliseconds, as text): the access headers,
    /// the JSON content type, the channel code, and the demo trading flag when it is set.
    pub fn sign_http_request_with(&self, http_request: &mut HttpRequest, timestamp: &str)
        requires
            self.credential is Some,
            header_value_ok(self.credential->0.api_key@),
            header_value_ok(self.credential->0.passphrase@),
            header_value_ok(self.api_channel_api_code@),
            header_value_ok(timestamp@),
        ensures
            self.signed_http_request(*old(http_request), *final(http_request), timestamp@),
    {
        let c = self.credential.as_ref().unwrap();
        let mut prehash = string_from(timestamp);
        push_str(&mut prehash, http_request.method.as_str());
        push_str(&mut prehash, http_request.path.as_str());
        if http_request.method == HttpMethod::Get {
            match &http_request.query_string {
                Some(q) => {
                    push_str(&mut prehash, "?");
                    push_str(&mut prehash, q.as_str());
                },
                None => {},
            }
        }
        if http_request.method == HttpMethod::Post {
            match &http_request.payload {
                Some(p) => push_str(&mut prehash, p.as_str()),
                None => {},
            }
        }
        let ghost o = *old(http_request);
        assert(prehash@ =~= bitget_prehash(timestamp@, o.method, o.path@, opt_view(o.query_string), opt_view(o.payload)));
        let tag = hmac_sha256_single(c.api_secret.as_str().as_bytes(), prehash.as_str().as_bytes());
        let signature = base64_encode(tag.as_slice());
        let ghost sg = signature@;
        proof {
            reveal_strlit("content-type");
            reveal_strlit("access-key");
            reveal_strlit("access-sign");
            reveal_strlit("access-timestamp");
            reveal_strlit("access-passphrase");
            reveal_strlit("x-channel-api-code");
            reveal_strlit("paptrading");
            assert("content-type"@.len() == 12);
            assert("access-key"@.len() == 10);
            assert("access-sign"@.len() == 11);
            assert("access-timestamp"@.len() == 16);
            assert("access-passphrase"@.len() == 17);
            assert("x-channel-api-code"@.len() == 18);
            assert("paptrading"@.len() == 10);
            assert("access-key"@[0] != "paptrading"@[0]);
        }
        http_request.headers.insert(string_from("content-type"), string_from("application/json"));
        http_request.headers.insert(string_from("access-key"), c.api_key.clone());
        http_request.headers.insert(string_from("access-sign"), signature);
        http_request.headers.insert(string_from("access-timestamp"), string_from(timestamp));
        http_request.headers.insert(string_from("access-passphrase"), c.passphrase.clone());
        http_request.headers.insert(string_from("x-channel-api-code"), self.api_channel_api_code.clone());
        assert(http_request.headers.spec_get("access-sign"@) == Some(sg));
        if self.use_demo_trading {
            http_request.headers.insert(string_from("paptrading"), string_from("1"));
        }
        assert(http_request.headers.spec_get("access-sign"@) == Some(sg));
    }

    /// Signs the request at the given time; false, with the request unchanged, where a
    /// header value would not be valid.
    pub fn sign_http_request(&self, http_request: &mut HttpRequest, now: Timestamp) -> (signed: bool)
        requires
            self.credential is Some,
            timestamp_valid(now),
        ensures
            signed == (header_value_ok(self.credential->0.api_key@) && header_value_ok(self.credential->0.passphrase@)
                && header_value_ok(self.api_channel_api_code@) && header_value_ok(int_text(millis_of(now)))),
            !signed ==> *final(http_request) == *old(http_request),
            signed ==> self.signed_http_request(*old(http_request), *final(http_request), int_text(millis_of(now))),
    {
        let c = self.credential.as_ref().unwrap();
        let timestamp = i64_to_string(timestamp_millis(now));
        if !crate::networking::http::is_header_value(c.api_key.as_str())
            || !crate::networking::http::is_header_value(c.passphrase.as_str())
            || !crate::networking::http::is_header_value(self.api_channel_api_code.as_str())
            || !crate::networking::http::is_header_value(timestamp.as_str()) {
            return false;
        }
        self.sign_http_request_with(http_request, timestamp.as_str());
        true
    }

    /// A JSON order posted to the place-order path.
    pub open spec fn place_order_http_request(&self, request: PlaceOrderRequest, r: HttpRequest) -> bool {
        &&& r.base_url@ == self.rest_api_base_url@
        &&& r.method == HttpMethod::Post
        &&& r.path@ == "/api/v3/trade/place-order"@
        &&& r.headers.entries@.len() == 0
        &&& r.query_string is None
        &&& has_json_body(r, place_order_members(self.category@, request))
    }

    pub fn create_place_order_http_request(&self, request: &PlaceOrderRequest) -> (r: HttpRequest)
        requires
            request.side != OrderSide::Unknown,
            request.order_type != OrderType::Unknown,
        ensures
            self.place_order_http_request(*request, r),
    {
        let mut pairs: Vec<(String, String)> = Vec::new();
        assert(pair_views(pairs@) =~= Seq::empty());
        push_pair(&mut pairs, "category", self.category.as_str());
        if request.client_order_id.as_str().unicode_len() != 0 {
            push_pair(&mut pairs, "clientOid", request.client_order_id.as_str());
        }
        push_pair(&mut pairs, "orderType", self.convert_order_type_to_string(request.order_type));
        if request.order_type == OrderType::Limit {
            push_pair(&mut pairs, "price", request.price.as_str());
        }
        push_pair(&mut pairs, "qty", request.quantity.as_str());
        push_pair(&mut pairs, "side", self.convert_order_side_to_string(request.side));
        push_pair(&mut pairs, "symbol", request.symbol.as_str());
        json_request(self.rest_api_base_url.as_str(), HttpMethod::Post, "/api/v3/trade/place-order", &pairs)
    }

    /// A JSON cancellation posted to the cancel-order path.
    pub open spec fn cancel_order_http_request(&self, request: CancelOrderRequest, r: HttpRequest) -> bool {
        &&& r.base_url@ == self.rest_api_base_url@
        &&& r.method == HttpMethod::Post
        &&& r.path@ == "/api/v3/trade/cancel-order"@
        &&& r.headers.entries@.len() == 0
        &&& r.query_string is None
        &&& has_json_body(r, cancel_order_members(self.category@, request))
    }

    pub fn create_cancel_order_http_request(&self, request: &CancelOrderRequest) -> (r: HttpRequest)
        ensures
            self.cancel_order_http_request(*request, r),
    {
        let mut pairs: Vec<(String, String)> = Vec::new();
        assert(pair_views(pairs@) =~= Seq::empty());
        push_pair(&mut pairs, "category", self.category.as_str());
        if request.order_id.as_str().unicode_len() != 0 {
            push_pair(&mut pairs, "orderId", request.order_id.as_str());
        } else if request.client_order_id.as_str().unicode_len() != 0 {
            push_pair(&mut pairs, "clientOid", request.client_order_id.as_str());
        }
        push_pair(&mut pairs, "symbol", request.symbol.as_str());
        json_request(self.rest_api_base_url.as_str(), HttpMethod::Post, "/api/v3/trade/cancel-order", &pairs)
    }

    /// A GET of the unfilled orders.
    pub open spec fn open_order_http_request(&self, request: GetOpenOrderRequest, r: HttpRequest) -> bool {
        &&& r.base_url@ == self.rest_api_base_url@
        &&& r.method == HttpMethod::Get
        &&& r.path@ == "/api/v3/trade/unfilled-orders"@
        &&& r.headers.entries@.len() == 0
        &&& has_query(r, open_order_pairs(self.category@, request))
        &&& r.payload is None
    }

    pub fn create_get_open_order_http_request(&self, request: &GetOpenOrderRequest) -> (r: HttpRequest)
        ensures
            self.open_order_http_request(*request, r),
    {
        let mut pairs: Vec<(String, String)> = Vec::new();
        assert(pair_views(pairs@) =~= Seq::empty());
        push_pair(&mut pairs, "category", self.category.as_str());
        if request.symbol.as_str().unicode_len() != 0 {
            push_pair(&mut pairs, "symbol", request.symbol.as_str());
        }
        if request.limit > 0 {
            let limit = crate::text::u64_to_string(request.limit as u64);
            push_pair(&mut pairs, "limit", limit.as_str());
        }
        if request.next_page_cursor.as_str().unicode_len() != 0 {
            push_pair(&mut pairs, "cursor", request.next_page_cursor.as_str());
        }
        assert(pair_views(pairs@) =~= open_order_pairs(self.category@, *request));
        query_request(self.rest_api_base_url.as_str(), HttpMethod::Get, "/api/v3/trade/unfilled-orders", pairs)
    }

    /// A GET of the current positions.
    pub open spec fn position_http_request(&self, request: GetPositionRequest, r: HttpRequest) -> bool {
        &&& r.base_url@ == self.rest_api_base_url@
        &&& r.method == HttpMethod::Get
        &&& r.path@ == "/api/v3/position/current-position"@
        &&& r.headers.entries@.len() == 0
        &&& has_query(r, category_symbol_pairs(self.category@, request.symbol@))
        &&& r.payload is None
    }

    pub fn create_get_position_http_request(&self, request: &GetPositionRequest) -> (r: HttpRequest)
        ensures
            self.position_http_request(*request, r),
    {
        let mut pairs: Vec<(String, String)> = Vec::new();
        assert(pair_views(pairs@) =~= Seq::empty());
        push_pair(&mut pairs, "category", self.category.as_str());
        if request.symbol.as_str().unicode_len() != 0 {
            push_pair(&mut pairs, "symbol", request.symbol.as_str());
        }
        assert(pair_views(pairs@) =~= category_symbol_pairs(self.category@, request.symbol@));
        query_request(self.rest_api_base_url.as_str(), HttpMethod::Get, "/api/v3/position/current-position", pairs)
    }

    /// A GET of the account's assets.
    pub open spec fn balance_http_request(&self, request: GetBalanceRequest, r: HttpRequest) -> bool {
        &&& r.base_url@ == self.rest_api_base_url@
        &&& r.method == HttpMethod::Get
        &&& r.path@ == "/api/v3/account/assets"@
        &&& r.headers.entries@.len() == 0
        &&& has_query(r, if request.asset@.len() != 0 { seq![("coin"@, request.asset@)] } else { Seq::empty() })
        &&& r.payload is None
    }

    pub fn create_get_balance_http_request(&self, request: &GetBalanceRequest) -> (r: HttpRequest)
        ensures
            self.balance_http_request(*request, r),
    {
        let mut pairs: Vec<(String, String)> = Vec::new();
        assert(pair_views(pairs@) =~= Seq::empty());
        if request.asset.as_str().unicode_len() != 0 {
            push_pair(&mut pairs, "coin", request.asset.as_str());
        }
        query_request(self.rest_api_base_url.as_str(), HttpMethod::Get, "/api/v3/account/assets", pairs)
    }
}

/// `text.parse::<usize>().unwrap_or(0)` of a member read with "0" as its default.
pub open spec fn precision_of(v: JsonValue, key: Seq<char>) -> nat {
    match parse_u64_spec(str_or(spec_at(v, key), "0"@)) {
        Some(n) => n as nat,
        None => 0,
    }
}

/// `format!("{:.p$}", 10f64.powi(-p))`: one unit in the last of `p` places while the power
/// is a normal number; beyond 308 places the power is zero.
pub open spec fn power_of_ten_text(p: nat) -> Seq<char> {
    if p <= 308 {
        decimal_unit(p)
    } else {
        decimal_zero(p)
    }
}

/// The items of the "data" array of a Bitget response, or none.
pub open spec fn data_items(j: JsonValue) -> Seq<JsonValue> {
    match spec_get(j, "data"@) {
        Some(d) => match spec_as_array(d) {
            Some(items) => items,
            None => Seq::empty(),
        },
        None => Seq::empty(),
    }
}

/// The items of `data.list`, or none.
pub open spec fn data_list_items(j: JsonValue) -> Seq<JsonValue> {
    match spec_as_array(spec_at(spec_at(j, "data"@), "list"@)) {
        Some(items) => items,
        None => Seq::empty(),
    }
}

/// The balances' documents: the "data" array, else the "data.assets" array, else none.
pub open spec fn balance_items(j: JsonValue) -> Seq<JsonValue> {
    match spec_as_array(spec_at(j, "data"@)) {
        Some(items) => items,
        None => match spec_as_array(spec_at(spec_at(j, "data"@), "assets"@)) {
            Some(items) => items,
            None => Seq::empty(),
        },
    }
}

/// The members that every instrument of a category reads alike.
pub open spec fn bitget_instrument_common(info: InstrumentInfo, v: JsonValue, t: BitgetInstrumentType) -> bool {
    &&& info.exchange_instrument_type == ExchangeInstrumentType::Bitget(t)
    &&& info.symbol@ == field_str(v, "symbol"@)
    &&& info.base_asset@ == field_str(v, "baseCoin"@)
    &&& info.quote_asset@ == field_str(v, "quoteCoin"@)
    &&& info.order_quantity_min@ == field_str(v, "minOrderQty"@)
    &&& info.order_quantity_max@ == field_str(v, "maxOrderQty"@)
    &&& info.order_quote_quantity_min@ == field_str(v, "minOrderAmount"@)
    &&& info.order_quote_quantity_max@.len() == 0
    &&& info.underlying_symbol@.len() == 0
    &&& info.contract_size@.len() == 0
}

/// A spot instrument: the increments are one unit in the last of its price and quantity places.
pub open spec fn bitget_spot_instrument_matches(info: InstrumentInfo, v: JsonValue, t: BitgetInstrumentType) -> bool {
    &&& bitget_instrument_common(info, v, t)
    &&& info.order_price_increment@ == power_of_ten_text(precision_of(v, "pricePrecision"@))
    &&& info.order_quantity_increment@ == power_of_ten_text(precision_of(v, "quantityPrecision"@))
    &&& info.settle_asset@.len() == 0
    &&& info.expiry_timestamp.is_epoch()
}

/// When a futures contract is delivered: never where "deliveryTime" is "", "0" or "-1"
/// (or missing), otherwise its milliseconds.
pub open spec fn delivery_time_matches(t: Timestamp, v: JsonValue) -> bool {
    let s = str_or(spec_at(v, "deliveryTime"@), "0"@);
    if s.len() == 0 || s == "0"@ || s == "-1"@ {
        t.is_epoch()
    } else {
        from_millis_or_epoch(t, match parse_i64_spec(s) { Some(n) => n as int, None => 0 })
    }
}

/// A futures instrument. Its price increment is the price multiplier written with the price
/// precision's places, a floating-point formatting that is left to the caller: here it is empty.
pub open spec fn bitget_futures_instrument_matches(info: InstrumentInfo, v: JsonValue, t: BitgetInstrumentType) -> bool {
    &&& bitget_instrument_common(info, v, t)
    &&& info.order_price_increment@.len() == 0
    &&& info.order_quantity_increment@ == field_str(v, "quantityMultiplier"@)
    &&& info.settle_asset@ == field_str(v, "quoteCoin"@)
    &&& delivery_time_matches(info.expiry_timestamp, v)
}

pub open spec fn bitget_instrument_matches(info: InstrumentInfo, v: JsonValue, t: BitgetInstrumentType) -> bool {
    if t == BitgetInstrumentType::Spot {
        bitget_spot_instrument_matches(info, v, t)
    } else {
        bitget_futures_instrument_matches(info, v, t)
    }
}

/// A ticker: "ts" in milliseconds ("0" where missing or unreadable), best bid and ask.
pub open spec fn bitget_ticker_matches(b: TopOfBook, v: JsonValue, t: BitgetInstrumentType) -> bool {
    &&& b.exchange_instrument_type == ExchangeInstrumentType::Bitget(t)
    &&& b.symbol@ == field_str(v, "symbol"@)
    &&& from_millis_or_epoch(b.timestamp, match parse_i64_spec(str_or(spec_at(v, "ts"@), "0"@)) {
        Some(n) => n as int,
        None => 0,
    })
    &&& b.bid_price@ == field_str(v, "bid1Price"@)
    &&& b.bid_size@ == field_str(v, "bid1Size"@)
    &&& b.ask_price@ == field_str(v, "ask1Price"@)
    &&& b.ask_size@ == field_str(v, "ask1Size"@)
}

/// `member.as_str().unwrap_or(default).parse::<usize>().unwrap_or(0)`.
fn precision_member(v: &JsonValue, key: &str) -> (r: u64)
    ensures
        r == precision_of(*v, key@),
{
    let text = v.field_str_or(key, "0");
    match parse_u64(text.as_str()) {
        Some(n) => n,
        None => 0,
    }
}

fn power_of_ten(p: u64) -> (r: String)
    ensures
        r@ == power_of_ten_text(p as nat),
{
    if p <= 308 {
        decimal_unit_text(p)
    } else {
        decimal_zero_text(p)
    }
}

/// Milliseconds read from a member with `default`, the epoch where they are not a number.
fn millis_member_or_epoch(v: &JsonValue, key: &str) -> (r: Timestamp)
    ensures
        from_millis_or_epoch(r, match parse_i64_spec(str_or(spec_at(*v, key@), "0"@)) {
            Some(n) => n as int,
            None => 0,
        }),
{
    let text = v.field_str_or(key, "0");
    let millis: i64 = match parse_i64(text.as_str()) {
        Some(n) => n,
        None => 0,
    };
    timestamp_from_millis_or_epoch(millis)
}

/// The items of the array under "data", where there is one.
fn data_array(j: &JsonValue) -> (r: Option<&Vec<JsonValue>>)
    ensures
        match r {
            Some(items) => data_items(*j) == items@,
            None => data_items(*j) == Seq::<JsonValue>::empty(),
        },
{
    match j.get("data") {
        Some(d) => d.as_array(),
        None => None,
    }
}

/// The array under `data.list`, where there is one.
fn data_list(j: &JsonValue) -> (r: Option<&Vec<JsonValue>>)
    ensures
        match r {
            Some(items) => data_list_items(*j) == items@,
            None => data_list_items(*j) == Seq::<JsonValue>::empty(),
        },
{
    match j.at("data") {
        Some(d) => match d.at("list") {
            Some(l) => l.as_array(),
            None => None,
        },
        None => None,
    }
}

/// The string member of `data`, where there is one.
fn data_member_str(j: &JsonValue, key: &str) -> (r: Option<String>)
    ensures
        match r {
            Some(s) => spec_as_str(spec_at(spec_at(*j, "data"@), key@)) == Some(s@),
            None => spec_as_str(spec_at(spec_at(*j, "data"@), key@)) is None,
        },
{
    match j.at("data") {
        Some(d) => match d.at(key) {
            Some(m) => match m.as_str() {
                Some(s) => Some(string_from(s)),
                None => None,
            },
            None => None,
        },
        None => None,
    }
}

impl BitgetClient {
    /// The request that the builder of the request's kind makes, before any signature.
    pub open spec fn http_request_for(&self, request: Request, r: HttpRequest) -> bool {
        match request {
            Request::GetInstrumentInfo(q) => self.instrument_info_http_request(q, r),
            Request::GetTopOfBook(q) => self.top_of_book_http_request(q, r),
            Request::PlaceOrder(q) => self.place_order_http_request(q, r),
            Request::CancelOrder(q) => self.cancel_order_http_request(q, r),
            Request::GetOpenOrder(q) => self.open_order_http_request(q, r),
            Request::GetPosition(q) => self.position_http_request(q, r),
            Request::GetBalance(q) => self.balance_http_request(q, r),
            _ => false,
        }
    }

    /// The REST requests this client can send: orders of a known side and type, and
    /// private requests only with a credential.
    pub open spec fn rest_request_ok(&self, request: Request) -> bool {
        &&& is_rest_request(request)
        &&& is_private_request(request) ==> self.credential is Some
        &&& request matches Request::PlaceOrder(q) ==> q.side != OrderSide::Unknown && q.order_type
            != OrderType::Unknown
    }

    /// The HTTP request for a REST request at the given time: built by its kind, and
    /// signed when it is private. None where the signature could not be made.
    pub fn create_http_request(&self, request: &Request, now: Timestamp) -> (r: Option<HttpRequest>)
        requires
            self.rest_request_ok(*request),
            timestamp_valid(now),
        ensures
            !is_private_request(*request) ==> (r matches Some(h) && self.http_request_for(*request, h)),
            is_private_request(*request) ==> match r {
                Some(h) => exists|u: HttpRequest| #[trigger] self.http_request_for(*request, u)
                    && self.signed_http_request(u, h, int_text(millis_of(now))),
                None => true,
            },
            is_private_request(*request) ==> (r is Some <==> (header_value_ok(self.credential->0.api_key@) && header_value_ok(self.credential->0.passphrase@)
                && header_value_ok(self.api_channel_api_code@) && header_value_ok(int_text(millis_of(now))))),
    {
        let mut http_request = match request {
            Request::GetInstrumentInfo(q) => return Some(self.create_get_instrument_info_http_request(q)),
            Request::GetTopOfBook(q) => return Some(self.create_get_top_of_book_http_request(q)),
            Request::PlaceOrder(q) => self.create_place_order_http_request(q),
            Request::CancelOrder(q) => self.create_cancel_order_http_request(q),
            Request::GetOpenOrder(q) => self.create_get_open_order_http_request(q),
            Request::GetPosition(q) => self.create_get_position_http_request(q),
            Request::GetBalance(q) => self.create_get_balance_http_request(q),
            _ => return None,
        };
        let ghost unsigned = http_request;
        assert(self.http_request_for(*request, unsigned));
        if self.sign_http_request(&mut http_request, now) {
            Some(http_request)
        } else {
            None
        }
    }

    /// What the converter of the request's kind makes of a successful response.
    pub open spec fn rest_response(&self, request: Request, resp: HttpResponse, r: Response) -> bool {
        match request {
            Request::GetInstrumentInfo(_) => self.instrument_info_response(resp, r),
            Request::GetTopOfBook(_) => self.top_of_book_response(resp, r),
            Request::PlaceOrder(_) => self.place_order_response(resp, r),
            Request::CancelOrder(_) => r is CancelOrder,
            Request::GetOpenOrder(_) => self.open_order_response(resp, r),
            Request::GetPosition(_) => self.position_response(resp, r),
            Request::GetBalance(_) => self.balance_response(resp, r),
            _ => false,
        }
    }

    /// A 2xx status, a JSON body, and "00000" as its "code".
    pub open spec fn http_response_success(resp: HttpResponse) -> bool {
        status_is_success(resp.status) && match resp.json_payload {
            Some(j) => match spec_get(j, "code"@) {
                Some(c) => spec_as_str(c) == Some("00000"@),
                None => false,
            },
            None => false,
        }
    }

    /// The response to a REST request: the error response where the HTTP response is not
    /// a success, else what the converter of the request's kind makes of it.
    pub fn create_rest_response(&self, request: &Request, http_response: HttpResponse) -> (r: Response)
        requires
            is_rest_request(*request),
            request is GetInstrumentInfo ==> self.instrument_type != BitgetInstrumentType::Unknown,
        ensures
            !Self::http_response_success(http_response) ==> self.error_response(http_response, r),
            Self::http_response_success(http_response) ==> answers(*request, r) && self.rest_response(
                *request,
                http_response,
                r,
            ),
    {
        if !self.is_http_response_success(&http_response) {
            return self.create_http_error_response(http_response);
        }
        match request {
            Request::GetInstrumentInfo(_) => self.create_get_instrument_info_rest_response(http_response),
            Request::GetTopOfBook(_) => self.create_get_top_of_book_rest_response(http_response),
            Request::PlaceOrder(_) => self.create_place_order_rest_response(http_response),
            Request::CancelOrder(_) => self.create_cancel_order_rest_response(http_response),
            Request::GetOpenOrder(_) => self.create_get_open_order_rest_response(http_response),
            Request::GetPosition(_) => self.create_get_position_rest_response(http_response),
            Request::GetBalance(_) => self.create_get_balance_rest_response(http_response),
            _ => self.create_http_error_response(http_response),
        }
    }
}

impl BitgetClient {
    /// A 2xx status, a JSON body, and "00000" as its "code".
    pub fn is_http_response_success(&self, http_response: &HttpResponse) -> (r: bool)
        ensures
            r == (status_is_success(http_response.status) && match http_response.json_payload {
                Some(j) => match spec_get(j, "code"@) {
                    Some(c) => spec_as_str(c) == Some("00000"@),
                    None => false,
                },
                None => false,
            }),
    {
        if !http_response.is_status_success() {
            return false;
        }
        match &http_response.json_payload {
            Some(j) => match j.get("code") {
                Some(c) => match c.as_str() {
                    Some(s) => str_eq(s, "00000"),
                    None => false,
                },
                None => false,
            },
            None => false,
        }
    }

    /// The price precision of a futures instrument document, with which the caller writes
    /// its price multiplier as the price increment.
    pub fn futures_price_precision(&self, item: &JsonValue) -> (r: u64)
        ensures
            r == precision_of(*item, "pricePrecision"@),
    {
        precision_member(item, "pricePrecision")
    }

    fn convert_json_value_to_instrument_info(&self, v: &JsonValue) -> (r: InstrumentInfo)
        requires
            self.instrument_type != BitgetInstrumentType::Unknown,
        ensures
            bitget_instrument_matches(r, *v, self.instrument_type),
    {
        let spot = self.instrument_type == BitgetInstrumentType::Spot;
        let (order_price_increment, order_quantity_increment, settle_asset, expiry_timestamp) = if spot {
            (
                power_of_ten(precision_member(v, "pricePrecision")),
                power_of_ten(precision_member(v, "quantityPrecision")),
                String::new(),
                Timestamp::epoch(),
            )
        } else {
            let delivery = v.field_str_or("deliveryTime", "0");
            let expiry = if delivery.as_str().unicode_len() == 0 || str_eq(delivery.as_str(), "0") || str_eq(
                delivery.as_str(),
                "-1",
            ) {
                Timestamp::epoch()
            } else {
                let millis: i64 = match parse_i64(delivery.as_str()) {
                    Some(n) => n,
                    None => 0,
                };
                timestamp_from_millis_or_epoch(millis)
            };
            (String::new(), v.field_str("quantityMultiplier"), v.field_str("quoteCoin"), expiry)
        };
        InstrumentInfo {
            exchange_instrument_type: ExchangeInstrumentType::Bitget(self.instrument_type),
            symbol: v.field_str("symbol"),
            base_asset: v.field_str("baseCoin"),
            quote_asset: v.field_str("quoteCoin"),
            order_price_increment,
            order_quantity_increment,
            order_quantity_min: v.field_str("minOrderQty"),
            order_quantity_max: v.field_str("maxOrderQty"),
            order_quote_quantity_min: v.field_str("minOrderAmount"),
            order_quote_quantity_max: String::new(),
            settle_asset,
            underlying_symbol: String::new(),
            contract_size: String::new(),
            expiry_timestamp,
        }
    }

    /// An instrument per item of the body's data, and no cursor.
    pub open spec fn instrument_info_response(&self, resp: HttpResponse, r: Response) -> bool {
        &&& r matches Response::GetInstrumentInfo(g) && g.next_page_cursor@.len() == 0
                && g.data@.len() == data_items(resp.json_payload->0).len()
                && forall|i: int| 0 <= i < g.data@.len() ==> bitget_instrument_matches(
                #[trigger] g.data@[i],
                data_items(resp.json_payload->0)[i],
                self.instrument_type,
            )
    }

    /// One instrument per item of the "data" array; no next page.
    pub fn create_get_instrument_info_rest_response(&self, http_response: HttpResponse) -> (r: Response)
        requires
            http_response.json_payload is Some,
            self.instrument_type != BitgetInstrumentType::Unknown,
        ensures
            self.instrument_info_response(http_response, r),
    {
        let json = http_response.json_payload.unwrap();
        let mut data: Vec<InstrumentInfo> = Vec::new();
        match data_array(&json) {
            Some(items) => {
                let mut i: usize = 0;
                while i < items.len()
                    invariant
                        self.instrument_type != BitgetInstrumentType::Unknown,
                        data_items(json) == items@,
                        i <= items@.len(),
                        data@.len() == i,
                        forall|k: int| 0 <= k < i ==> bitget_instrument_matches(#[trigger] data@[k], items@[k], self.instrument_type),
                    decreases items.len() - i,
                {
                    let info = self.convert_json_value_to_instrument_info(&items[i]);
                    data.push(info);
                    i = i + 1;
                }
            },
            None => {},
        }
        Response::GetInstrumentInfo(GetInstrumentInfoResponse { data, next_page_cursor: String::new() })
    }

    /// A ticker per item of the body's data.
    pub open spec fn top_of_book_response(&self, resp: HttpResponse, r: Response) -> bool {
        &&& r matches Response::GetTopOfBook(g) && g.data@.len() == data_items(resp.json_payload->0).len()
                && forall|i: int| 0 <= i < g.data@.len() ==> bitget_ticker_matches(
                #[trigger] g.data@[i],
                data_items(resp.json_payload->0)[i],
                self.instrument_type,
            )
    }

    /// One ticker per item of the "data" array.
    pub fn create_get_top_of_book_rest_response(&self, http_response: HttpResponse) -> (r: Response)
        requires
            http_response.json_payload is Some,
        ensures
            self.top_of_book_response(http_response, r),
    {
        let json = http_response.json_payload.unwrap();
        let mut data: Vec<TopOfBook> = Vec::new();
        match data_array(&json) {
            Some(items) => {
                let mut i: usize = 0;
                while i < items.len()
                    invariant
                        data_items(json) == items@,
                        i <= items@.len(),
                        data@.len() == i,
                        forall|k: int| 0 <= k < i ==> bitget_ticker_matches(#[trigger] data@[k], items@[k], self.instrument_type),
                    decreases items.len() - i,
                {
                    let v = &items[i];
                    let t = TopOfBook {
                        exchange_instrument_type: ExchangeInstrumentType::Bitget(self.instrument_type),
                        symbol: v.field_str("symbol"),
                        timestamp: millis_member_or_epoch(v, "ts"),
                        bid_price: v.field_str("bid1Price"),
                        bid_size: v.field_str("bid1Size"),
                        ask_price: v.field_str("ask1Price"),
                        ask_size: v.field_str("ask1Size"),
                    };
                    data.push(t);
                    i = i + 1;
                }
            },
            None => {},
        }
        Response::GetTopOfBook(GetTopOfBookResponse { data })
    }

    /// The id at data.orderId.
    pub open spec fn place_order_response(&self, resp: HttpResponse, r: Response) -> bool {
        &&& r matches Response::PlaceOrder(p) && p.order_id@ == field_str(
                spec_at(resp.json_payload->0, "data"@),
                "orderId"@,
            )
    }

    /// The placed order's id: `data.orderId`, or empty.
    pub fn create_place_order_rest_response(&self, http_response: HttpResponse) -> (r: Response)
        requires
            http_response.json_payload is Some,
        ensures
            self.place_order_response(http_response, r),
    {
        let json = http_response.json_payload.unwrap();
        let order_id = match data_member_str(&json, "orderId") {
            Some(s) => s,
            None => String::new(),
        };
        Response::PlaceOrder(PlaceOrderResponse { order_id })
    }

    pub fn create_cancel_order_rest_response(&self, _http_response: HttpResponse) -> (r: Response)
        ensures
            r is CancelOrder,
    {
        Response::CancelOrder(CancelOrderResponse {})
    }

    /// An order per item of data.list; the next page is data.cursor.
    pub open spec fn open_order_response(&self, resp: HttpResponse, r: Response) -> bool {
        &&& r matches Response::GetOpenOrder(g)
                && g.data@.len() == data_list_items(resp.json_payload->0).len()
                && (forall|i: int| 0 <= i < g.data@.len() ==> bitget_order_matches(
                #[trigger] g.data@[i],
                data_list_items(resp.json_payload->0)[i],
                self.instrument_type,
            )) && g.next_page_cursor@ == field_str(spec_at(resp.json_payload->0, "data"@), "cursor"@)
    }

    /// One order per item of `data.list`; the next page is `data.cursor`.
    pub fn create_get_open_order_rest_response(&self, http_response: HttpResponse) -> (r: Response)
        requires
            http_response.json_payload is Some,
        ensures
            self.open_order_response(http_response, r),
    {
        let json = http_response.json_payload.unwrap();
        let mut data: Vec<Order> = Vec::new();
        match data_list(&json) {
            Some(items) => {
                let mut i: usize = 0;
                while i < items.len()
                    invariant
                        data_list_items(json) == items@,
                        i <= items@.len(),
                        data@.len() == i,
                        forall|k: int| 0 <= k < i ==> bitget_order_matches(#[trigger] data@[k], items@[k], self.instrument_type),
                    decreases items.len() - i,
                {
                    let o = self.convert_json_value_to_order(&items[i]);
                    data.push(o);
                    i = i + 1;
                }
            },
            None => {},
        }
        let next_page_cursor = match data_member_str(&json, "cursor") {
            Some(s) => s,
            None => String::new(),
        };
        Response::GetOpenOrder(GetOpenOrderResponse { data, next_page_cursor })
    }

    /// A position per item of data.list; the next page is nextCursor.
    pub open spec fn position_response(&self, resp: HttpResponse, r: Response) -> bool {
        &&& r matches Response::GetPosition(g)
                && g.data@.len() == data_list_items(resp.json_payload->0).len()
                && (forall|i: int| 0 <= i < g.data@.len() ==> bitget_position_matches(
                #[trigger] g.data@[i],
                data_list_items(resp.json_payload->0)[i],
                self.instrument_type,
            )) && g.next_page_cursor@ == field_str(resp.json_payload->0, "nextCursor"@)
    }

    /// One position per item of `data.list`; the next page is the top-level "nextCursor".
    pub fn create_get_position_rest_response(&self, http_response: HttpResponse) -> (r: Response)
        requires
            http_response.json_payload is Some,
        ensures
            self.position_response(http_response, r),
    {
        let json = http_response.json_payload.unwrap();
        let mut data: Vec<Position> = Vec::new();
        match data_list(&json) {
            Some(items) => {
                let mut i: usize = 0;
                while i < items.len()
                    invariant
                        data_list_items(json) == items@,
                        i <= items@.len(),
                        data@.len() == i,
                        forall|k: int| 0 <= k < i ==> bitget_position_matches(#[trigger] data@[k], items@[k], self.instrument_type),
                    decreases items.len() - i,
                {
                    let p = self.convert_json_value_to_position(&items[i]);
                    data.push(p);
                    i = i + 1;
                }
            },
            None => {},
        }
        let next_page_cursor = json.field_str("nextCursor");
        Response::GetPosition(GetPositionResponse { data, next_page_cursor })
    }

    /// A balance per asset of the body's data.
    pub open spec fn balance_response(&self, resp: HttpResponse, r: Response) -> bool {
        &&& r matches Response::GetBalance(g)
                && g.data@.len() == balance_items(resp.json_payload->0).len()
                && forall|i: int| 0 <= i < g.data@.len() ==> bitget_balance_matches(
                #[trigger] g.data@[i],
                balance_items(resp.json_payload->0)[i],
            )
    }

    /// One balance per item of the "data" array, or else of the "data.assets" array.
    pub fn create_get_balance_rest_response(&self, http_response: HttpResponse) -> (r: Response)
        requires
            http_response.json_payload is Some,
        ensures
            self.balance_response(http_response, r),
    {
        let json = http_response.json_payload.unwrap();
        let mut data: Vec<Balance> = Vec::new();
        let found: Option<&Vec<JsonValue>> = match json.at("data") {
            Some(d) => match d.as_array() {
                Some(items) => Some(items),
                None => match d.at("assets") {
                    Some(a) => a.as_array(),
                    None => None,
                },
            },
            None => None,
        };
        match found {
            Some(items) => {
                assert(balance_items(json) == items@);
                let mut i: usize = 0;
                while i < items.len()
                    invariant
                        balance_items(json) == items@,
                        i <= items@.len(),
                        data@.len() == i,
                        forall|k: int| 0 <= k < i ==> bitget_balance_matches(#[trigger] data@[k], items@[k]),
                    decreases items.len() - i,
                {
                    let b = self.convert_json_value_to_balance(&items[i]);
                    data.push(b);
                    i = i + 1;
                }
            },
            None => {
                assert(balance_items(json) =~= Seq::<JsonValue>::empty());
            },
        }
        Response::GetBalance(GetBalanceResponse { data })
    }

    /// The response itself, with Bitget's code and msg where it has a JSON body.
    pub open spec fn error_response(&self, resp: HttpResponse, r: Response) -> bool {
        &&& r matches Response::HttpErrorResponse(e) && e.http_request == resp.http_request && e.status == resp.status
                && e.body == resp.body && e.json_payload == resp.json_payload
                && match resp.json_payload {
                Some(j) => opt_view(e.error_code) == (match spec_get(j, "code"@) {
                    Some(c) => spec_as_str(c),
                    None => None,
                }) && opt_view(e.error_message) == (match spec_get(j, "msg"@) {
                    Some(m) => spec_as_str(m),
                    None => None,
                }),
                None => e.error_code == resp.error_code && e.error_message
                    == resp.error_message,
            }
    }

    /// The response with Bitget's "code" and "msg" where it has a JSON body.
    pub fn create_http_error_response(&self, http_response: HttpResponse) -> (r: Response)
        ensures
            self.error_response(http_response, r),
    {
        let mut response = http_response;
        match &response.json_payload {
            Some(j) => {
                let code = match j.get("code") {
                    Some(c) => match c.as_str() {
                        Some(s) => Some(string_from(s)),
                        None => None,
                    },
                    None => None,
                };
                let message = match j.get("msg") {
                    Some(m) => match m.as_str() {
                        Some(s) => Some(string_from(s)),
                        None => None,
                    },
                    None => None,
                };
                response.error_code = code;
                response.error_message = message;
            },
            None => {},
        }
        Response::HttpErrorResponse(response)
    }
}

} // verus!
