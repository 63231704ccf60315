//! Bybit's REST API: the requests, their signature, and the responses.

use vstd::prelude::*;
use vstd::utf8::encode_utf8;
use crate::exchange_client::common::{
    CancelOrderRequest, CancelOrderResponse, GetBalanceRequest, GetBalanceResponse, GetInstrumentInfoRequest,
    GetInstrumentInfoResponse, GetOpenOrderRequest, GetOpenOrderResponse, GetPositionRequest, GetPositionResponse,
    GetTopOfBookRequest, GetTopOfBookResponse, PlaceOrderRequest, PlaceOrderResponse, Response,
};
use crate::exchange_client::common::{answers, is_private_request, is_rest_request, Request};
use crate::exchanges::bybit::common::{
    bybit_balance_matches, bybit_balance_ok, bybit_order_matches, bybit_order_ok, bybit_order_type_text,
    bybit_position_matches, bybit_position_ok, bybit_side_text, BybitClient,
};
use crate::json::{field_str, has_str, spec_as_array, spec_as_i64, spec_as_str, spec_at, spec_get, JsonValue};
use crate::networking::http::{
    has_json_body, has_query, header_value_ok, is_header_value, json_request, opt_view, payload_or_empty, push_pair,
    query_or_empty, query_request, status_is_success, HttpMethod, HttpRequest, HttpResponse,
};
use crate::signing::{hex_encode, hex_text, hmac_sha256_crate_tag, hmac_sha256_single, pair_views};
use crate::text::{i64_to_string, int_text, nat_digits, parse_i64, parse_i64_spec, push_str, string_from, u64_to_string};
use crate::time::{from_millis_or_epoch, millis_of, timestamp_from_millis_or_epoch, timestamp_millis, timestamp_valid};
use crate::types::{
    Balance, BybitInstrumentType, ExchangeInstrumentType, InstrumentInfo, Order, OrderSide, OrderType, Position,
    Timestamp, TopOfBook,
};

verus! {

/// What Bybit signs after the time, key and window: the body of a POST, the query of a GET.
pub open spec fn bybit_params(r: HttpRequest) -> Seq<char> {
    if r.method == HttpMethod::Post {
        payload_or_empty(r)
    } else if r.method == HttpMethod::Get {
        query_or_empty(r)
    } else {
        Seq::empty()
    }
}

/// The text Bybit signs.
pub open spec fn bybit_prehash(timestamp: Seq<char>, api_key: Seq<char>, recv_window: i64, r: HttpRequest) -> Seq<char> {
    timestamp + api_key + int_text(recv_window as int) + bybit_params(r)
}

pub open spec fn limit_cursor_pairs(
    a: Seq<(Seq<char>, Seq<char>)>,
    limit: u32,
    cursor: Seq<char>,
) -> Seq<(Seq<char>, Seq<char>)> {
    let b = if limit > 0 { a.push(("limit"@, nat_digits(limit as nat))) } else { a };
    if cursor.len() != 0 { b.push(("cursor"@, cursor)) } else { b }
}

pub open spec fn bybit_place_order_members(category: Seq<char>, req: PlaceOrderRequest) -> Seq<(Seq<char>, Seq<char>)> {
    let a = seq![("category"@, category)];
    let b = if req.client_order_id@.len() != 0 { a.push(("orderLinkId"@, req.client_order_id@)) } else { a };
    let c = b.push(("orderType"@, bybit_order_type_text(req.order_type)));
    let d = if req.order_type == OrderType::Limit { c.push(("price"@, req.price@)) } else { c };
    d.push(("qty"@, req.quantity@)).push(("side"@, bybit_side_text(req.side))).push(("symbol"@, req.symbol@))
}

pub open spec fn bybit_cancel_order_members(category: Seq<char>, req: CancelOrderRequest) -> Seq<(Seq<char>, Seq<char>)> {
    let a = seq![("category"@, category)];
    let b = if req.order_id@.len() != 0 {
        a.push(("orderId"@, req.order_id@))
    } else if req.client_order_id@.len() != 0 {
        a.push(("orderLinkId"@, req.client_order_id@))
    } else {
        a
    };
    b.push(("symbol"@, req.symbol@))
}

pub open spec fn bybit_open_order_pairs(category: Seq<char>, req: GetOpenOrderRequest) -> Seq<(Seq<char>, Seq<char>)> {
    let a = seq![("category"@, category)];
    let b = if req.symbol@.len() != 0 { a.push(("symbol"@, req.symbol@)) } else { a };
    limit_cursor_pairs(b, req.limit, req.next_page_cursor@)
}

pub open spec fn bybit_position_pairs(category: Seq<char>, req: GetPositionRequest) -> Seq<(Seq<char>, Seq<char>)> {
    let a = seq![("category"@, category)];
    let b = if req.symbol@.len() != 0 { a.push(("symbol"@, req.symbol@)) } else { a };
    let c = if req.settle_asset@.len() != 0 { b.push(("settleCoin"@, req.settle_asset@)) } else { b };
    limit_cursor_pairs(c, req.limit, req.next_page_cursor@)
}

/// The "result" member of a response.
pub open spec fn result_of(j: JsonValue) -> JsonValue {
    spec_at(j, "result"@)
}

/// The items of `result.list`, where it is an array.
pub open spec fn result_list(j: JsonValue) -> Option<Seq<JsonValue>> {
    spec_as_array(spec_at(result_of(j), "list"@))
}

pub open spec fn result_items(j: JsonValue) -> Seq<JsonValue> {
    match result_list(j) {
        Some(items) => items,
        None => Seq::empty(),
    }
}

/// A string member of a member.
pub open spec fn nested_str(v: JsonValue, outer: Seq<char>, inner: Seq<char>) -> Seq<char> {
    field_str(spec_at(v, outer), inner)
}

pub open spec fn has_nested_str(v: JsonValue, outer: Seq<char>, inner: Seq<char>) -> bool {
    has_str(spec_at(v, outer), inner)
}

/// The members a spot instrument document must have.
pub open spec fn bybit_spot_instrument_ok(v: JsonValue) -> bool {
    &&& has_str(v, "symbol"@)
    &&& has_str(v, "baseCoin"@)
    &&& has_str(v, "quoteCoin"@)
    &&& has_nested_str(v, "priceFilter"@, "tickSize"@)
    &&& has_nested_str(v, "lotSizeFilter"@, "basePrecision"@)
    &&& has_nested_str(v, "lotSizeFilter"@, "minOrderQty"@)
    &&& has_nested_str(v, "lotSizeFilter"@, "maxOrderQty"@)
    &&& has_nested_str(v, "lotSizeFilter"@, "minOrderAmt"@)
    &&& has_nested_str(v, "lotSizeFilter"@, "maxOrderAmt"@)
}

/// The members a futures instrument document must have; its delivery time reads as milliseconds.
pub open spec fn bybit_futures_instrument_ok(v: JsonValue) -> bool {
    &&& has_str(v, "symbol"@)
    &&& has_str(v, "baseCoin"@)
    &&& has_str(v, "quoteCoin"@)
    &&& has_nested_str(v, "priceFilter"@, "tickSize"@)
    &&& has_nested_str(v, "lotSizeFilter"@, "qtyStep"@)
    &&& has_nested_str(v, "lotSizeFilter"@, "minOrderQty"@)
    &&& has_nested_str(v, "lotSizeFilter"@, "maxOrderQty"@)
    &&& has_nested_str(v, "lotSizeFilter"@, "minNotionalValue"@)
    &&& has_str(v, "settleCoin"@)
    &&& spec_as_str(spec_at(v, "deliveryTime"@)) matches Some(s) && parse_i64_spec(s) is Some
}

/// What an instrument response must hold where it has a list: a known instrument type,
/// complete documents, and (for futures) the next page's cursor.
pub open spec fn bybit_instruments_ok(j: JsonValue, t: BybitInstrumentType) -> bool {
    match result_list(j) {
        Some(items) => {
            &&& t != BybitInstrumentType::Unknown
            &&& t == BybitInstrumentType::Spot ==> (forall|i: int| 0 <= i < items.len() ==> bybit_spot_instrument_ok(#[trigger] items[i]))
            &&& t != BybitInstrumentType::Spot ==> (forall|i: int| 0 <= i < items.len() ==> bybit_futures_instrument_ok(#[trigger] items[i]))
            &&& t != BybitInstrumentType::Spot ==> has_str(result_of(j), "nextPageCursor"@)
        },
        None => true,
    }
}

pub open spec fn bybit_instrument_matches(info: InstrumentInfo, v: JsonValue, t: BybitInstrumentType) -> bool {
    &&& info.exchange_instrument_type == ExchangeInstrumentType::Bybit(t)
    &&& info.symbol@ == field_str(v, "symbol"@)
    &&& info.base_asset@ == field_str(v, "baseCoin"@)
    &&& info.quote_asset@ == field_str(v, "quoteCoin"@)
    &&& info.order_price_increment@ == nested_str(v, "priceFilter"@, "tickSize"@)
    &&& info.order_quantity_min@ == nested_str(v, "lotSizeFilter"@, "minOrderQty"@)
    &&& info.order_quantity_max@ == nested_str(v, "lotSizeFilter"@, "maxOrderQty"@)
    &&& info.underlying_symbol@.len() == 0
    &&& info.contract_size@.len() == 0
    &&& if t == BybitInstrumentType::Spot {
        &&& info.order_quantity_increment@ == nested_str(v, "lotSizeFilter"@, "basePrecision"@)
        &&& info.order_quote_quantity_min@ == nested_str(v, "lotSizeFilter"@, "minOrderAmt"@)
        &&& info.order_quote_quantity_max@ == nested_str(v, "lotSizeFilter"@, "maxOrderAmt"@)
        &&& info.settle_asset@.len() == 0
        &&& info.expiry_timestamp.is_epoch()
    } else {
        &&& info.order_quantity_increment@ == nested_str(v, "lotSizeFilter"@, "qtyStep"@)
        &&& info.order_quote_quantity_min@ == nested_str(v, "lotSizeFilter"@, "minNotionalValue"@)
        &&& info.order_quote_quantity_max@.len() == 0
        &&& info.settle_asset@ == field_str(v, "settleCoin"@)
        &&& from_millis_or_epoch(info.expiry_timestamp, parse_i64_spec(field_str(v, "deliveryTime"@))->0 as int)
    }
}

pub open spec fn bybit_ticker_ok(v: JsonValue) -> bool {
    &&& has_str(v, "symbol"@)
    &&& has_str(v, "bid1Price"@)
    &&& has_str(v, "bid1Size"@)
    &&& has_str(v, "ask1Price"@)
    &&& has_str(v, "ask1Size"@)
}

/// A ticker response must have its "time" as an integer, and complete tickers in its list.
pub open spec fn bybit_tickers_ok(j: JsonValue) -> bool {
    &&& spec_as_i64(spec_at(j, "time"@)) is Some
    &&& forall|i: int| 0 <= i < result_items(j).len() ==> bybit_ticker_ok(#[trigger] result_items(j)[i])
}

pub open spec fn bybit_ticker_matches(b: TopOfBook, v: JsonValue, millis: int, t: BybitInstrumentType) -> bool {
    &&& b.exchange_instrument_type == ExchangeInstrumentType::Bybit(t)
    &&& b.symbol@ == field_str(v, "symbol"@)
    &&& from_millis_or_epoch(b.timestamp, millis)
    &&& b.bid_price@ == field_str(v, "bid1Price"@)
    &&& b.bid_size@ == field_str(v, "bid1Size"@)
    &&& b.ask_price@ == field_str(v, "ask1Price"@)
    &&& b.ask_size@ == field_str(v, "ask1Size"@)
}

/// The coins of the first account of `result.list`.
pub open spec fn bybit_coin_items(j: JsonValue) -> Seq<JsonValue> {
    spec_as_array(spec_at(result_items(j)[0], "coin"@))->0
}

pub open spec fn bybit_balances_ok(j: JsonValue) -> bool {
    &&& result_list(j) matches Some(items) && items.len() > 0
    &&& spec_as_array(spec_at(result_items(j)[0], "coin"@)) is Some
    &&& forall|i: int| 0 <= i < bybit_coin_items(j).len() ==> bybit_balance_ok(#[trigger] bybit_coin_items(j)[i])
}

fn required_nested_str(v: &JsonValue, outer: &str, inner: &str) -> (r: String)
    requires
        has_nested_str(*v, outer@, inner@),
    ensures
        r@ == nested_str(*v, outer@, inner@),
{
    match v.at(outer) {
        Some(o) => o.field_str(inner),
        None => String::new(),
    }
}

fn result_list_exec(j: &JsonValue) -> (r: Option<&Vec<JsonValue>>)
    ensures
        match r {
            Some(items) => result_list(*j) == Some(items@),
            None => result_list(*j) is None,
        },
{
    match j.at("result") {
        Some(res) => match res.at("list") {
            Some(l) => l.as_array(),
            None => None,
        },
        None => None,
    }
}

/// `result.<key>` as a string, which must be there.
fn required_result_str(j: &JsonValue, key: &str) -> (r: String)
    requires
        has_str(result_of(*j), key@),
    ensures
        r@ == field_str(result_of(*j), key@),
{
    match j.at("result") {
        Some(res) => res.field_str(key),
        None => String::new(),
    }
}

fn nested_has_str(v: &JsonValue, outer: &str, inner: &str) -> (r: bool)
    ensures
        r == has_nested_str(*v, outer@, inner@),
{
    match v.at(outer) {
        Some(o) => o.has_str(inner),
        None => false,
    }
}

fn spot_instrument_ok(v: &JsonValue) -> (r: bool)
    ensures
        r == bybit_spot_instrument_ok(*v),
{
    v.has_str("symbol") && v.has_str("baseCoin") && v.has_str("quoteCoin")
        && nested_has_str(v, "priceFilter", "tickSize")
        && nested_has_str(v, "lotSizeFilter", "basePrecision")
        && nested_has_str(v, "lotSizeFilter", "minOrderQty")
        && nested_has_str(v, "lotSizeFilter", "maxOrderQty")
        && nested_has_str(v, "lotSizeFilter", "minOrderAmt")
        && nested_has_str(v, "lotSizeFilter", "maxOrderAmt")
}

fn futures_instrument_ok(v: &JsonValue) -> (r: bool)
    ensures
        r == bybit_futures_instrument_ok(*v),
{
    let delivery_ok = match v.at("deliveryTime") {
        Some(d) => match d.as_str() {
            Some(s) => parse_i64(s).is_some(),
            None => false,
        },
        None => false,
    };
    v.has_str("symbol") && v.has_str("baseCoin") && v.has_str("quoteCoin")
        && nested_has_str(v, "priceFilter", "tickSize")
        && nested_has_str(v, "lotSizeFilter", "qtyStep")
        && nested_has_str(v, "lotSizeFilter", "minOrderQty")
        && nested_has_str(v, "lotSizeFilter", "maxOrderQty")
        && nested_has_str(v, "lotSizeFilter", "minNotionalValue")
        && v.has_str("settleCoin") && delivery_ok
}

fn result_has_str(j: &JsonValue, key: &str) -> (r: bool)
    ensures
        r == has_str(result_of(*j), key@),
{
    match j.at("result") {
        Some(res) => res.has_str(key),
        None => false,
    }
}

/// Whether an instrument response holds what the conversion reads.
fn instruments_ok(j: &JsonValue, t: BybitInstrumentType) -> (r: bool)
    ensures
        r == bybit_instruments_ok(*j, t),
{
    match result_list_exec(j) {
        Some(items) => {
            if t == BybitInstrumentType::Unknown {
                return false;
            }
            let spot = t == BybitInstrumentType::Spot;
            let mut i: usize = 0;
            while i < items.len()
                invariant
                    i <= items@.len(),
                    result_list(*j) == Some(items@),
                    t != BybitInstrumentType::Unknown,
                    spot == (t == BybitInstrumentType::Spot),
                    spot ==> forall|k: int| 0 <= k < i ==> bybit_spot_instrument_ok(#[trigger] items@[k]),
                    !spot ==> forall|k: int| 0 <= k < i ==> bybit_futures_instrument_ok(#[trigger] items@[k]),
                decreases items.len() - i,
            {
                let ok = if spot { spot_instrument_ok(&items[i]) } else { futures_instrument_ok(&items[i]) };
                if !ok {
                    proof {
                        let l = result_list(*j)->0;
                        assert(l[i as int] == items@[i as int]);
                        if spot {
                            assert(!bybit_spot_instrument_ok(l[i as int]));
                        } else {
                            assert(!bybit_futures_instrument_ok(l[i as int]));
                        }
                    }
                    return false;
                }
                i = i + 1;
            }
            spot || result_has_str(j, "nextPageCursor")
        },
        None => true,
    }
}

/// Whether a ticker response holds what the conversion reads.
fn tickers_ok(j: &JsonValue) -> (r: bool)
    ensures
        r == bybit_tickers_ok(*j),
{
    let time_ok = match j.at("time") {
        Some(t) => t.as_i64().is_some(),
        None => false,
    };
    if !time_ok {
        return false;
    }
    match result_list_exec(j) {
        Some(items) => {
            let mut i: usize = 0;
            while i < items.len()
                invariant
                    i <= items@.len(),
                    result_items(*j) == items@,
                    forall|k: int| 0 <= k < i ==> bybit_ticker_ok(#[trigger] items@[k]),
                decreases items.len() - i,
            {
                let v = &items[i];
                if !(v.has_str("symbol") && v.has_str("bid1Price") && v.has_str("bid1Size")
                    && v.has_str("ask1Price") && v.has_str("ask1Size")) {
                    return false;
                }
                i = i + 1;
            }
            true
        },
        None => true,
    }
}

/// Whether an order or position list has its cursor and the members the conversion reads.
fn list_ok(j: &JsonValue, orders: bool) -> (r: bool)
    ensures
        r == (has_str(result_of(*j), "nextPageCursor"@) && if orders {
            forall|i: int| 0 <= i < result_items(*j).len() ==> bybit_order_ok(#[trigger] result_items(*j)[i])
        } else {
            forall|i: int| 0 <= i < result_items(*j).len() ==> bybit_position_ok(#[trigger] result_items(*j)[i])
        }),
{
    if !result_has_str(j, "nextPageCursor") {
        return false;
    }
    match result_list_exec(j) {
        Some(items) => {
            let mut i: usize = 0;
            while i < items.len()
                invariant
                    i <= items@.len(),
                    result_items(*j) == items@,
                    orders ==> forall|k: int| 0 <= k < i ==> bybit_order_ok(#[trigger] items@[k]),
                    !orders ==> forall|k: int| 0 <= k < i ==> bybit_position_ok(#[trigger] items@[k]),
                decreases items.len() - i,
            {
                let v = &items[i];
                let ok = if orders {
                    v.has_str("symbol") && v.has_str("orderId") && v.has_str("orderLinkId")
                        && v.has_str("orderType") && v.has_str("side") && v.has_str("price")
                        && v.has_str("qty") && v.has_str("leavesQty") && v.has_str("cumExecQty")
                        && v.has_str("cumExecValue") && v.has_str("avgPrice") && v.has_str("orderStatus")
                } else {
                    v.has_str("symbol") && v.has_str("side") && v.has_str("avgPrice") && v.has_str("size")
                        && v.has_str("leverage")
                };
                if !ok {
                    return false;
                }
                i = i + 1;
            }
            true
        },
        None => true,
    }
}

/// Whether a balance response has an account with coins, each with the members read.
fn balances_ok(j: &JsonValue) -> (r: bool)
    ensures
        r == bybit_balances_ok(*j),
{
    let items = match result_list_exec(j) {
        Some(items) => items,
        None => return false,
    };
    if items.len() == 0 {
        return false;
    }
    let coins = match items[0].at("coin") {
        Some(c) => match c.as_array() {
            Some(coins) => coins,
            None => return false,
        },
        None => return false,
    };
    assert(bybit_coin_items(*j) == coins@);
    let mut i: usize = 0;
    while i < coins.len()
        invariant
            i <= coins@.len(),
            bybit_coin_items(*j) == coins@,
            forall|k: int| 0 <= k < i ==> bybit_balance_ok(#[trigger] coins@[k]),
        decreases coins.len() - i,
    {
        if !(coins[i].has_str("coin") && coins[i].has_str("walletBalance")) {
            return false;
        }
        i = i + 1;
    }
    true
}

impl BybitClient {
    /// A GET of the instruments of the client's category.
    pub open spec fn instrument_info_http_request(&self, request: GetInstrumentInfoRequest, r: HttpRequest) -> bool {
        &&& r.base_url@ == self.rest_api_base_url@
        &&& r.method == HttpMethod::Get
        &&& r.path@ == "/v5/market/instruments-info"@
        &&& r.headers.entries@.len() == 0
        &&& has_query(r, limit_cursor_pairs(
                seq![("category"@, self.category@), ("symbol"@, request.symbol@)],
                request.limit,
                request.next_page_cursor@,
            ))
        &&& r.payload is None
    }

    pub fn create_get_instrument_info_http_request(&self, request: &GetInstrumentInfoRequest) -> (r: HttpRequest)
        ensures
            self.instrument_info_http_request(*request, r),
    {
        let mut pairs: Vec<(String, String)> = Vec::new();
        assert(pair_views(pairs@) =~= Seq::empty());
        push_pair(&mut pairs, "category", self.category.as_str());
        push_pair(&mut pairs, "symbol", request.symbol.as_str());
        if request.limit > 0 {
            let limit = u64_to_string(request.limit as u64);
            push_pair(&mut pairs, "limit", limit.as_str());
        }
        if request.next_page_cursor.as_str().unicode_len() != 0 {
            push_pair(&mut pairs, "cursor", request.next_page_cursor.as_str());
        }
        assert(pair_views(pairs@) =~= limit_cursor_pairs(
            seq![("category"@, self.category@), ("symbol"@, request.symbol@)],
            request.limit,
            request.next_page_cursor@,
        ));
        query_request(self.rest_api_base_url.as_str(), HttpMethod::Get, "/v5/market/instruments-info", pairs)
    }

    /// A GET of the ticker of the symbol in the client's category.
    pub open spec fn top_of_book_http_request(&self, request: GetTopOfBookRequest, r: HttpRequest) -> bool {
        &&& r.base_url@ == self.rest_api_base_url@
        &&& r.method == HttpMethod::Get
        &&& r.path@ == "/v5/market/tickers"@
        &&& r.headers.entries@.len() == 0
        &&& has_query(r, seq![("category"@, self.category@), ("symbol"@, request.symbol@)])
        &&& r.payload is None
    }

    pub fn create_get_top_of_book_http_request(&self, request: &GetTopOfBookRequest) -> (r: HttpRequest)
        ensures
            self.top_of_book_http_request(*request, r),
    {
        let mut pairs: Vec<(String, String)> = Vec::new();
        assert(pair_views(pairs@) =~= Seq::empty());
        push_pair(&mut pairs, "category", self.category.as_str());
        push_pair(&mut pairs, "symbol", request.symbol.as_str());
        assert(pair_views(pairs@) =~= seq![("category"@, self.category@), ("symbol"@, request.symbol@)]);
        query_request(self.rest_api_base_url.as_str(), HttpMethod::Get, "/v5/market/tickers", pairs)
    }

    /// The signed request: the unsigned one with the key, the time, the receive window,
    /// the broker id, and the hex HMAC-SHA256 of what Bybit signs.
    pub open spec fn signed_http_request(&self, o: HttpRequest, n: HttpRequest, timestamp: Seq<char>) -> bool {
        let c = self.credential->0;
        &&& n.base_url == o.base_url
        &&& n.method == o.method
        &&& n.path == o.path
        &&& n.query_string == o.query_string
        &&& n.payload == o.payload
        &&& n.headers.spec_get("x-bapi-api-key"@) == Some(c.api_key@)
        &&& n.headers.spec_get("x-bapi-timestamp"@) == Some(timestamp)
        &&& n.headers.spec_get("x-bapi-recv-window"@) == Some(int_text(self.api_receive_window_milliseconds as int))
        &&& n.headers.spec_get("x-referer"@) == Some(self.api_broker_id@)
        &&& n.headers.spec_get("x-bapi-sign"@) == Some(hex_text(hmac_sha256_crate_tag(
            encode_utf8(c.api_secret@),
            encode_utf8(bybit_prehash(timestamp, c.api_key@, self.api_receive_window_milliseconds, o)),
        )))
        &&& forall|k: Seq<char>| k != "x-bapi-api-key"@ && k != "x-bapi-timestamp"@ && k != "x-bapi-recv-window"@ && k != "x-referer"@ && k != "x-bapi-sign"@ ==> n.headers.spec_get(k) == o.headers.spec_get(k)
    }

    /// Signs the request at the given time (milliseconds, as text): the key, the time, the
    /// receive window, the broker id, and the hex HMAC-SHA256 of what Bybit signs.
    pub fn sign_http_request_with(&self, http_request: &mut HttpRequest, timestamp: &str)
        requires
            self.credential is Some,
            header_value_ok(self.credential->0.api_key@),
            header_value_ok(self.api_broker_id@),
            header_value_ok(timestamp@),
        ensures
            self.signed_http_request(*old(http_request), *final(http_request), timestamp@),
    {
        let c = self.credential.as_ref().unwrap();
        let window = i64_to_string(self.api_receive_window_milliseconds);
        let mut prehash = string_from(timestamp);
        push_str(&mut prehash, c.api_key.as_str());
        push_str(&mut prehash, window.as_str());
        if http_request.method == HttpMethod::Post {
            let p = http_request.payload_or_empty();
            push_str(&mut prehash, p.as_str());
        } else if http_request.method == HttpMethod::Get {
            let q = http_request.query_or_empty();
            push_str(&mut prehash, q.as_str());
        }
        let ghost o = *old(http_request);
        assert(prehash@ =~= bybit_prehash(timestamp@, c.api_key@, self.api_receive_window_milliseconds, o));
        let tag = hmac_sha256_single(c.api_secret.as_str().as_bytes(), prehash.as_str().as_bytes());
        let signature = hex_encode(tag.as_slice());
        proof {
            reveal_strlit("x-bapi-api-key");
            reveal_strlit("x-bapi-timestamp");
            reveal_strlit("x-bapi-recv-window");
            reveal_strlit("x-referer");
            reveal_strlit("x-bapi-sign");
            assert("x-bapi-api-key"@.len() == 14);
            assert("x-bapi-timestamp"@.len() == 16);
            assert("x-bapi-recv-window"@.len() == 18);
            assert("x-referer"@.len() == 9);
            assert("x-bapi-sign"@.len() == 11);
        }
        http_request.headers.insert(string_from("x-bapi-api-key"), c.api_key.clone());
        http_request.headers.insert(string_from("x-bapi-timestamp"), string_from(timestamp));
        http_request.headers.insert(string_from("x-bapi-recv-window"), window);
        http_request.headers.insert(string_from("x-referer"), self.api_broker_id.clone());
        http_request.headers.insert(string_from("x-bapi-sign"), signature);
    }

    /// Signs the request at the given time; false, with the request unchanged, where a
    /// header value would not be valid.
    pub fn sign_http_request(&self, http_request: &mut HttpRequest, now: Timestamp) -> (signed: bool)
        requires
            self.credential is Some,
            timestamp_valid(now),
        ensures
            signed == (header_value_ok(self.credential->0.api_key@) && header_value_ok(self.api_broker_id@)),
            !signed ==> *final(http_request) == *old(http_request),
            signed ==> self.signed_http_request(*old(http_request), *final(http_request), int_text(millis_of(now))),
    {
        let c = self.credential.as_ref().unwrap();
        let timestamp = i64_to_string(timestamp_millis(now));
        if !is_header_value(c.api_key.as_str()) || !is_header_value(self.api_broker_id.as_str()) {
            return false;
        }
        proof {
            let t = timestamp@;
            assert forall|i: int| 0 <= i < t.len() implies (t[i] == '\t' || (' ' <= #[trigger] t[i] && t[i] != '\x7f')) by {
                crate::text::lemma_int_text_chars(millis_of(now), i);
            }
        }
        self.sign_http_request_with(http_request, timestamp.as_str());
        true
    }

    /// A JSON order posted to /v5/order/create.
    pub open spec fn place_order_http_request(&self, request: PlaceOrderRequest, r: HttpRequest) -> bool {
        &&& r.base_url@ == self.rest_api_base_url@
        &&& r.method == HttpMethod::Post
        &&& r.path@ == "/v5/order/create"@
        &&& r.headers.entries@.len() == 0
        &&& r.query_string is None
        &&& has_json_body(r, bybit_place_order_members(self.category@, request))
    }

    pub fn create_place_order_http_request(&self, request: &PlaceOrderRequest) -> (r: HttpRequest)
        requires
            request.side != OrderSide::Unknown,
            request.order_type != OrderType::Unknown,
        ensures
            self.place_order_http_request(*request, r),
    {
        let mut pairs: Vec<(String, String)> = Vec::new();
        assert(pair_views(pairs@) =~= Seq::empty());
        push_pair(&mut pairs, "category", self.category.as_str());
        if request.client_order_id.as_str().unicode_len() != 0 {
            push_pair(&mut pairs, "orderLinkId", request.client_order_id.as_str());
        }
        push_pair(&mut pairs, "orderType", self.convert_order_type_to_string(request.order_type));
        if request.order_type == OrderType::Limit {
            push_pair(&mut pairs, "price", request.price.as_str());
        }
        push_pair(&mut pairs, "qty", request.quantity.as_str());
        push_pair(&mut pairs, "side", self.convert_order_side_to_string(request.side));
        push_pair(&mut pairs, "symbol", request.symbol.as_str());
        assert(pair_views(pairs@) =~= bybit_place_order_members(self.category@, *request));
        json_request(self.rest_api_base_url.as_str(), HttpMethod::Post, "/v5/order/create", &pairs)
    }

    /// A JSON cancellation posted to /v5/order/cancel.
    pub open spec fn cancel_order_http_request(&self, request: CancelOrderRequest, r: HttpRequest) -> bool {
        &&& r.base_url@ == self.rest_api_base_url@
        &&& r.method == HttpMethod::Post
        &&& r.path@ == "/v5/order/cancel"@
        &&& r.headers.entries@.len() == 0
        &&& r.query_string is None
        &&& has_json_body(r, bybit_cancel_order_members(self.category@, request))
    }

    pub fn create_cancel_order_http_request(&self, request: &CancelOrderRequest) -> (r: HttpRequest)
        ensures
            self.cancel_order_http_request(*request, r),
    {
        let mut pairs: Vec<(String, String)> = Vec::new();
        assert(pair_views(pairs@) =~= Seq::empty());
        push_pair(&mut pairs, "category", self.category.as_str());
        if request.order_id.as_str().unicode_len() != 0 {
            push_pair(&mut pairs, "orderId", request.order_id.as_str());
        } else if request.client_order_id.as_str().unicode_len() != 0 {
            push_pair(&mut pairs, "orderLinkId", request.client_order_id.as_str());
        }
        push_pair(&mut pairs, "symbol", request.symbol.as_str());
        assert(pair_views(pairs@) =~= bybit_cancel_order_members(self.category@, *request));
        json_request(self.rest_api_base_url.as_str(), HttpMethod::Post, "/v5/order/cancel", &pairs)
    }

    /// A GET of the open orders.
    pub open spec fn open_order_http_request(&self, request: GetOpenOrderRequest, r: HttpRequest) -> bool {
        &&& r.base_url@ == self.rest_api_base_url@
        &&& r.method == HttpMethod::Get
        &&& r.path@ == "/v5/order/realtime"@
        &&& r.headers.entries@.len() == 0
        &&& has_query(r, bybit_open_order_pairs(self.category@, request))
        &&& r.payload is None
    }

    pub fn create_get_open_order_http_request(&self, request: &GetOpenOrderRequest) -> (r: HttpRequest)
        ensures
            self.open_order_http_request(*request, r),
    {
        let mut pairs: Vec<(String, String)> = Vec::new();
        assert(pair_views(pairs@) =~= Seq::empty());
        push_pair(&mut pairs, "category", self.category.as_str());
        if request.symbol.as_str().unicode_len() != 0 {
            push_pair(&mut pairs, "symbol", request.symbol.as_str());
        }
        if request.limit > 0 {
            let limit = u64_to_string(request.limit as u64);
            push_pair(&mut pairs, "limit", limit.as_str());
        }
        if request.next_page_cursor.as_str().unicode_len() != 0 {
            push_pair(&mut pairs, "cursor", request.next_page_cursor.as_str());
        }
        assert(pair_views(pairs@) =~= bybit_open_order_pairs(self.category@, *request));
        query_request(self.rest_api_base_url.as_str(), HttpMethod::Get, "/v5/order/realtime", pairs)
    }

    /// A GET of the positions.
    pub open spec fn position_http_request(&self, request: GetPositionRequest, r: HttpRequest) -> bool {
        &&& r.base_url@ == self.rest_api_base_url@
        &&& r.method == HttpMethod::Get
        &&& r.path@ == "/v5/position/list"@
        &&& r.headers.entries@.len() == 0
        &&& has_query(r, bybit_position_pairs(self.category@, request))
        &&& r.payload is None
    }

    pub fn create_get_position_http_request(&self, request: &GetPositionRequest) -> (r: HttpRequest)
        ensures
            self.position_http_request(*request, r),
    {
        let mut pairs: Vec<(String, String)> = Vec::new();
        assert(pair_views(pairs@) =~= Seq::empty());
        push_pair(&mut pairs, "category", self.category.as_str());
        if request.symbol.as_str().unicode_len() != 0 {
            push_pair(&mut pairs, "symbol", request.symbol.as_str());
        }
        if request.settle_asset.as_str().unicode_len() != 0 {
            push_pair(&mut pairs, "settleCoin", request.settle_asset.as_str());
        }
        if request.limit > 0 {
            let limit = u64_to_string(request.limit as u64);
            push_pair(&mut pairs, "limit", limit.as_str());
        }
        if request.next_page_cursor.as_str().unicode_len() != 0 {
            push_pair(&mut pairs, "cursor", request.next_page_cursor.as_str());
        }
        assert(pair_views(pairs@) =~= bybit_position_pairs(self.category@, *request));
        query_request(self.rest_api_base_url.as_str(), HttpMethod::Get, "/v5/position/list", pairs)
    }

    /// A GET of the wallet balance.
    pub open spec fn balance_http_request(&self, request: GetBalanceRequest, r: HttpRequest) -> bool {
        &&& r.base_url@ == self.rest_api_base_url@
        &&& r.method == HttpMethod::Get
        &&& r.path@ == "/v5/account/wallet-balance"@
        &&& r.headers.entries@.len() == 0
        &&& has_query(r, if request.asset@.len() != 0 {
                seq![("accountType"@, "UNIFIED"@), ("coin"@, request.asset@)]
            } else {
                seq![("accountType"@, "UNIFIED"@)]
            })
        &&& r.payload is None
    }

    pub fn create_get_balance_http_request(&self, request: &GetBalanceRequest) -> (r: HttpRequest)
        ensures
            self.balance_http_request(*request, r),
    {
        let mut pairs: Vec<(String, String)> = Vec::new();
        assert(pair_views(pairs@) =~= Seq::empty());
        push_pair(&mut pairs, "accountType", "UNIFIED");
        if request.asset.as_str().unicode_len() != 0 {
            push_pair(&mut pairs, "coin", request.asset.as_str());
        }
        assert(pair_views(pairs@) =~= if request.asset@.len() != 0 {
            seq![("accountType"@, "UNIFIED"@), ("coin"@, request.asset@)]
        } else {
            seq![("accountType"@, "UNIFIED"@)]
        });
        query_request(self.rest_api_base_url.as_str(), HttpMethod::Get, "/v5/account/wallet-balance", pairs)
    }

    /// The request that the builder of the request's kind makes, before any signature.
    pub open spec fn http_request_for(&self, request: Request, r: HttpRequest) -> bool {
        match request {
            Request::GetInstrumentInfo(q) => self.instrument_info_http_request(q, r),
            Request::GetTopOfBook(q) => self.top_of_book_http_request(q, r),
            Request::PlaceOrder(q) => self.place_order_http_request(q, r),
            Request::CancelOrder(q) => self.cancel_order_http_request(q, r),
            Request::GetOpenOrder(q) => self.open_order_http_request(q, r),
            Request::GetPosition(q) => self.position_http_request(q, r),
            Request::GetBalance(q) => self.balance_http_request(q, r),
            _ => false,
        }
    }

    /// The REST requests this client can send: orders of a known side and type, and
    /// private requests only with a credential.
    pub open spec fn rest_request_ok(&self, request: Request) -> bool {
        &&& is_rest_request(request)
        &&& is_private_request(request) ==> self.credential is Some
        &&& request matches Request::PlaceOrder(q) ==> q.side != OrderSide::Unknown && q.order_type
            != OrderType::Unknown
    }

    /// The HTTP request for a REST request at the given time: built by its kind, and
    /// signed when it is private. None where the signature could not be made.
    pub fn create_http_request(&self, request: &Request, now: Timestamp) -> (r: Option<HttpRequest>)
        requires
            self.rest_request_ok(*request),
            timestamp_valid(now),
        ensures
            !is_private_request(*request) ==> (r matches Some(h) && self.http_request_for(*request, h)),
            is_private_request(*request) ==> match r {
                Some(h) => exists|u: HttpRequest| #[trigger] self.http_request_for(*request, u)
                    && self.signed_http_request(u, h, int_text(millis_of(now))),
                None => true,
            },
            is_private_request(*request) ==> (r is Some <==> (header_value_ok(self.credential->0.api_key@) && header_value_ok(self.api_broker_id@))),
    {
        let mut http_request = match request {
            Request::GetInstrumentInfo(q) => return Some(self.create_get_instrument_info_http_request(q)),
            Request::GetTopOfBook(q) => return Some(self.create_get_top_of_book_http_request(q)),
            Request::PlaceOrder(q) => self.create_place_order_http_request(q),
            Request::CancelOrder(q) => self.create_cancel_order_http_request(q),
            Request::GetOpenOrder(q) => self.create_get_open_order_http_request(q),
            Request::GetPosition(q) => self.create_get_position_http_request(q),
            Request::GetBalance(q) => self.create_get_balance_http_request(q),
            _ => return None,
        };
        let ghost unsigned = http_request;
        assert(self.http_request_for(*request, unsigned));
        if self.sign_http_request(&mut http_request, now) {
            Some(http_request)
        } else {
            None
        }
    }

    /// A 2xx status, a JSON body, and 0 as its "retCode".
    pub open spec fn http_response_success(resp: HttpResponse) -> bool {
        status_is_success(resp.status) && match resp.json_payload {
            Some(j) => match spec_get(j, "retCode"@) {
                Some(c) => spec_as_i64(c) == Some(0i64),
                None => false,
            },
            None => false,
        }
    }

    /// What the converter of a request's kind reads from a successful response's body.
    pub open spec fn rest_response_ok(&self, request: Request, j: JsonValue) -> bool {
        match request {
            Request::GetInstrumentInfo(_) => bybit_instruments_ok(j, self.instrument_type),
            Request::GetTopOfBook(_) => bybit_tickers_ok(j),
            Request::PlaceOrder(_) => has_str(result_of(j), "orderId"@),
            Request::GetOpenOrder(_) => has_str(result_of(j), "nextPageCursor"@) && forall|i: int|
                0 <= i < result_items(j).len() ==> bybit_order_ok(#[trigger] result_items(j)[i]),
            Request::GetPosition(_) => has_str(result_of(j), "nextPageCursor"@) && forall|i: int|
                0 <= i < result_items(j).len() ==> bybit_position_ok(#[trigger] result_items(j)[i]),
            Request::GetBalance(_) => bybit_balances_ok(j),
            _ => true,
        }
    }

    /// What the converter of the request's kind makes of a successful response.
    pub open spec fn rest_response(&self, request: Request, resp: HttpResponse, r: Response) -> bool {
        match request {
            Request::GetInstrumentInfo(_) => self.instrument_info_response(resp, r),
            Request::GetTopOfBook(_) => self.top_of_book_response(resp, r),
            Request::PlaceOrder(_) => self.place_order_response(resp, r),
            Request::CancelOrder(_) => r is CancelOrder,
            Request::GetOpenOrder(_) => self.open_order_response(resp, r),
            Request::GetPosition(_) => self.position_response(resp, r),
            Request::GetBalance(_) => self.balance_response(resp, r),
            _ => false,
        }
    }

    /// The response to a REST request: the error response where the HTTP response is not
    /// a success, else what the converter of the request's kind makes of it. None where a
    /// successful body lacks what that converter reads.
    pub fn create_rest_response(&self, request: &Request, http_response: HttpResponse) -> (r: Option<Response>)
        requires
            is_rest_request(*request),
        ensures
            !Self::http_response_success(http_response) ==> (r matches Some(e) && self.error_response(
                http_response,
                e,
            )),
            Self::http_response_success(http_response) ==> (r is None <==> !self.rest_response_ok(
                *request,
                http_response.json_payload->0,
            )),
            Self::http_response_success(http_response) ==> (r matches Some(p) ==> answers(*request, p)
                && self.rest_response(*request, http_response, p)),
    {
        if !self.is_http_response_success(&http_response) {
            return Some(self.create_http_error_response(http_response));
        }
        let ok = match &http_response.json_payload {
            Some(j) => match request {
                Request::GetInstrumentInfo(_) => instruments_ok(j, self.instrument_type),
                Request::GetTopOfBook(_) => tickers_ok(j),
                Request::PlaceOrder(_) => result_has_str(j, "orderId"),
                Request::GetOpenOrder(_) => list_ok(j, true),
                Request::GetPosition(_) => list_ok(j, false),
                Request::GetBalance(_) => balances_ok(j),
                _ => true,
            },
            None => false,
        };
        if !ok {
            return None;
        }
        let r = match request {
            Request::GetInstrumentInfo(_) => self.create_get_instrument_info_rest_response(http_response),
            Request::GetTopOfBook(_) => self.create_get_top_of_book_rest_response(http_response),
            Request::PlaceOrder(_) => self.create_place_order_rest_response(http_response),
            Request::CancelOrder(_) => self.create_cancel_order_rest_response(http_response),
            Request::GetOpenOrder(_) => self.create_get_open_order_rest_response(http_response),
            Request::GetPosition(_) => self.create_get_position_rest_response(http_response),
            Request::GetBalance(_) => self.create_get_balance_rest_response(http_response),
            _ => self.create_http_error_response(http_response),
        };
        Some(r)
    }

    /// A 2xx status, a JSON body, and 0 as its "retCode".
    pub fn is_http_response_success(&self, http_response: &HttpResponse) -> (r: bool)
        ensures
            r == (status_is_success(http_response.status) && match http_response.json_payload {
                Some(j) => match spec_get(j, "retCode"@) {
                    Some(c) => spec_as_i64(c) == Some(0i64),
                    None => false,
                },
                None => false,
            }),
    {
        if !http_response.is_status_success() {
            return false;
        }
        match &http_response.json_payload {
            Some(j) => match j.get("retCode") {
                Some(c) => match c.as_i64() {
                    Some(n) => n == 0,
                    None => false,
                },
                None => false,
            },
            None => false,
        }
    }

    fn convert_json_value_to_instrument_info(&self, v: &JsonValue) -> (r: InstrumentInfo)
        requires
            self.instrument_type == BybitInstrumentType::Spot ==> bybit_spot_instrument_ok(*v),
            self.instrument_type != BybitInstrumentType::Spot ==> bybit_futures_instrument_ok(*v),
        ensures
            bybit_instrument_matches(r, *v, self.instrument_type),
    {
        if self.instrument_type == BybitInstrumentType::Spot {
            InstrumentInfo {
                exchange_instrument_type: ExchangeInstrumentType::Bybit(self.instrument_type),
                symbol: v.required_str("symbol"),
                base_asset: v.required_str("baseCoin"),
                quote_asset: v.required_str("quoteCoin"),
                order_price_increment: required_nested_str(v, "priceFilter", "tickSize"),
                order_quantity_increment: required_nested_str(v, "lotSizeFilter", "basePrecision"),
                order_quantity_min: required_nested_str(v, "lotSizeFilter", "minOrderQty"),
                order_quantity_max: required_nested_str(v, "lotSizeFilter", "maxOrderQty"),
                order_quote_quantity_min: required_nested_str(v, "lotSizeFilter", "minOrderAmt"),
                order_quote_quantity_max: required_nested_str(v, "lotSizeFilter", "maxOrderAmt"),
                settle_asset: String::new(),
                underlying_symbol: String::new(),
                contract_size: String::new(),
                expiry_timestamp: Timestamp::epoch(),
            }
        } else {
            let delivery = v.required_str("deliveryTime");
            let millis: i64 = match parse_i64(delivery.as_str()) {
                Some(n) => n,
                None => 0,
            };
            InstrumentInfo {
                exchange_instrument_type: ExchangeInstrumentType::Bybit(self.instrument_type),
                symbol: v.required_str("symbol"),
                base_asset: v.required_str("baseCoin"),
                quote_asset: v.required_str("quoteCoin"),
                order_price_increment: required_nested_str(v, "priceFilter", "tickSize"),
                order_quantity_increment: required_nested_str(v, "lotSizeFilter", "qtyStep"),
                order_quantity_min: required_nested_str(v, "lotSizeFilter", "minOrderQty"),
                order_quantity_max: required_nested_str(v, "lotSizeFilter", "maxOrderQty"),
                order_quote_quantity_min: required_nested_str(v, "lotSizeFilter", "minNotionalValue"),
                order_quote_quantity_max: String::new(),
                settle_asset: v.required_str("settleCoin"),
                underlying_symbol: String::new(),
                contract_size: String::new(),
                expiry_timestamp: timestamp_from_millis_or_epoch(millis),
            }
        }
    }

    /// An instrument per item of result.list; for futures the next page is result.nextPageCursor.
    pub open spec fn instrument_info_response(&self, resp: HttpResponse, r: Response) -> bool {
        &&& r matches Response::GetInstrumentInfo(g) && g.data@.len() == result_items(resp.json_payload->0).len()
                && (forall|i: int| 0 <= i < g.data@.len() ==> bybit_instrument_matches(
                #[trigger] g.data@[i],
                result_items(resp.json_payload->0)[i],
                self.instrument_type,
            )) && g.next_page_cursor@ == if result_list(resp.json_payload->0) is Some
                && self.instrument_type != BybitInstrumentType::Spot {
                field_str(result_of(resp.json_payload->0), "nextPageCursor"@)
            } else {
                Seq::empty()
            }
    }

    /// One instrument per item of `result.list`; for futures the next page is
    /// `result.nextPageCursor`.
    pub fn create_get_instrument_info_rest_response(&self, http_response: HttpResponse) -> (r: Response)
        requires
            http_response.json_payload matches Some(j) && bybit_instruments_ok(j, self.instrument_type),
        ensures
            self.instrument_info_response(http_response, r),
    {
        let json = http_response.json_payload.unwrap();
        let mut data: Vec<InstrumentInfo> = Vec::new();
        let items = match result_list_exec(&json) {
            Some(items) => items,
            None => return Response::GetInstrumentInfo(GetInstrumentInfoResponse { data, next_page_cursor: String::new() }),
        };
        proof {
            assert(bybit_instruments_ok(json, self.instrument_type));
            assert(result_list(json) == Some(items@));
            let l = result_list(json)->0;
            if self.instrument_type != BybitInstrumentType::Spot {
                assert(forall|k: int| 0 <= k < l.len() ==> bybit_futures_instrument_ok(#[trigger] l[k]));
            } else {
                assert(forall|k: int| 0 <= k < l.len() ==> bybit_spot_instrument_ok(#[trigger] l[k]));
            }
        }
        let mut i: usize = 0;
        while i < items.len()
            invariant
                result_items(json) == items@,
                self.instrument_type == BybitInstrumentType::Spot ==> forall|k: int| 0 <= k < items@.len() ==> bybit_spot_instrument_ok(#[trigger] items@[k]),
                self.instrument_type != BybitInstrumentType::Spot ==> forall|k: int| 0 <= k < items@.len() ==> bybit_futures_instrument_ok(#[trigger] items@[k]),
                i <= items@.len(),
                data@.len() == i,
                forall|k: int| 0 <= k < i ==> bybit_instrument_matches(#[trigger] data@[k], items@[k], self.instrument_type),
            decreases items.len() - i,
        {
            let info = self.convert_json_value_to_instrument_info(&items[i]);
            data.push(info);
            i = i + 1;
        }
        let next_page_cursor = if self.instrument_type == BybitInstrumentType::Spot {
            String::new()
        } else {
            required_result_str(&json, "nextPageCursor")
        };
        Response::GetInstrumentInfo(GetInstrumentInfoResponse { data, next_page_cursor })
    }

    /// A ticker per item of result.list, at the response's time.
    pub open spec fn top_of_book_response(&self, resp: HttpResponse, r: Response) -> bool {
        &&& r matches Response::GetTopOfBook(g) && g.data@.len() == result_items(resp.json_payload->0).len()
                && forall|i: int| 0 <= i < g.data@.len() ==> bybit_ticker_matches(
                #[trigger] g.data@[i],
                result_items(resp.json_payload->0)[i],
                spec_as_i64(spec_at(resp.json_payload->0, "time"@))->0 as int,
                self.instrument_type,
            )
    }

    /// One ticker per item of `result.list`, all at the response's "time".
    pub fn create_get_top_of_book_rest_response(&self, http_response: HttpResponse) -> (r: Response)
        requires
            http_response.json_payload matches Some(j) && bybit_tickers_ok(j),
        ensures
            self.top_of_book_response(http_response, r),
    {
        let json = http_response.json_payload.unwrap();
        let millis: i64 = match json.at("time") {
            Some(t) => match t.as_i64() {
                Some(n) => n,
                None => 0,
            },
            None => 0,
        };
        let timestamp = timestamp_from_millis_or_epoch(millis);
        let mut data: Vec<TopOfBook> = Vec::new();
        match result_list_exec(&json) {
            Some(items) => {
                let mut i: usize = 0;
                while i < items.len()
                    invariant
                        result_items(json) == items@,
                        forall|k: int| 0 <= k < items@.len() ==> bybit_ticker_ok(#[trigger] items@[k]),
                        from_millis_or_epoch(timestamp, millis as int),
                        i <= items@.len(),
                        data@.len() == i,
                        forall|k: int| 0 <= k < i ==> bybit_ticker_matches(#[trigger] data@[k], items@[k], millis as int, self.instrument_type),
                    decreases items.len() - i,
                {
                    let v = &items[i];
                    assert(bybit_ticker_ok(items@[i as int]));
                    let t = TopOfBook {
                        exchange_instrument_type: ExchangeInstrumentType::Bybit(self.instrument_type),
                        symbol: v.required_str("symbol"),
                        timestamp,
                        bid_price: v.required_str("bid1Price"),
                        bid_size: v.required_str("bid1Size"),
                        ask_price: v.required_str("ask1Price"),
                        ask_size: v.required_str("ask1Size"),
                    };
                    data.push(t);
                    i = i + 1;
                }
            },
            None => {},
        }
        Response::GetTopOfBook(GetTopOfBookResponse { data })
    }

    /// The id at result.orderId.
    pub open spec fn place_order_response(&self, resp: HttpResponse, r: Response) -> bool {
        &&& r matches Response::PlaceOrder(p) && p.order_id@ == field_str(result_of(resp.json_payload->0), "orderId"@)
    }

    /// The placed order's id: `result.orderId`.
    pub fn create_place_order_rest_response(&self, http_response: HttpResponse) -> (r: Response)
        requires
            http_response.json_payload matches Some(j) && has_str(result_of(j), "orderId"@),
        ensures
            self.place_order_response(http_response, r),
    {
        let json = http_response.json_payload.unwrap();
        let order_id = required_result_str(&json, "orderId");
        Response::PlaceOrder(PlaceOrderResponse { order_id })
    }

    pub fn create_cancel_order_rest_response(&self, _http_response: HttpResponse) -> (r: Response)
        ensures
            r is CancelOrder,
    {
        Response::CancelOrder(CancelOrderResponse {})
    }

    /// An order per item of result.list; the next page is result.nextPageCursor.
    pub open spec fn open_order_response(&self, resp: HttpResponse, r: Response) -> bool {
        &&& r matches Response::GetOpenOrder(g) && g.data@.len() == result_items(resp.json_payload->0).len()
                && (forall|i: int| 0 <= i < g.data@.len() ==> bybit_order_matches(
                #[trigger] g.data@[i],
                result_items(resp.json_payload->0)[i],
                self.instrument_type,
            )) && g.next_page_cursor@ == field_str(result_of(resp.json_payload->0), "nextPageCursor"@)
    }

    /// One order per item of `result.list`; the next page is `result.nextPageCursor`.
    pub fn create_get_open_order_rest_response(&self, http_response: HttpResponse) -> (r: Response)
        requires
            http_response.json_payload matches Some(j) && has_str(result_of(j), "nextPageCursor"@) && forall|i: int|
                0 <= i < result_items(j).len() ==> bybit_order_ok(#[trigger] result_items(j)[i]),
        ensures
            self.open_order_response(http_response, r),
    {
        let json = http_response.json_payload.unwrap();
        let next_page_cursor = required_result_str(&json, "nextPageCursor");
        let mut data: Vec<Order> = Vec::new();
        match result_list_exec(&json) {
            Some(items) => {
                let mut i: usize = 0;
                while i < items.len()
                    invariant
                        result_items(json) == items@,
                        forall|k: int| 0 <= k < items@.len() ==> bybit_order_ok(#[trigger] items@[k]),
                        i <= items@.len(),
                        data@.len() == i,
                        forall|k: int| 0 <= k < i ==> bybit_order_matches(#[trigger] data@[k], items@[k], self.instrument_type),
                    decreases items.len() - i,
                {
                    let o = self.convert_json_value_to_order(&items[i]);
                    data.push(o);
                    i = i + 1;
                }
            },
            None => {},
        }
        Response::GetOpenOrder(GetOpenOrderResponse { data, next_page_cursor })
    }

    /// A position per item of result.list; the next page is result.nextPageCursor.
    pub open spec fn position_response(&self, resp: HttpResponse, r: Response) -> bool {
        &&& r matches Response::GetPosition(g) && g.data@.len() == result_items(resp.json_payload->0).len()
                && (forall|i: int| 0 <= i < g.data@.len() ==> bybit_position_matches(
                #[trigger] g.data@[i],
                result_items(resp.json_payload->0)[i],
                self.instrument_type,
            )) && g.next_page_cursor@ == field_str(result_of(resp.json_payload->0), "nextPageCursor"@)
    }

    /// One position per item of `result.list`; the next page is `result.nextPageCursor`.
    pub fn create_get_position_rest_response(&self, http_response: HttpResponse) -> (r: Response)
        requires
            http_response.json_payload matches Some(j) && has_str(result_of(j), "nextPageCursor"@) && forall|i: int|
                0 <= i < result_items(j).len() ==> bybit_position_ok(#[trigger] result_items(j)[i]),
        ensures
            self.position_response(http_response, r),
    {
        let json = http_response.json_payload.unwrap();
        let next_page_cursor = required_result_str(&json, "nextPageCursor");
        let mut data: Vec<Position> = Vec::new();
        match result_list_exec(&json) {
            Some(items) => {
                let mut i: usize = 0;
                while i < items.len()
                    invariant
                        result_items(json) == items@,
                        forall|k: int| 0 <= k < items@.len() ==> bybit_position_ok(#[trigger] items@[k]),
                        i <= items@.len(),
                        data@.len() == i,
                        forall|k: int| 0 <= k < i ==> bybit_position_matches(#[trigger] data@[k], items@[k], self.instrument_type),
                    decreases items.len() - i,
                {
                    let p = self.convert_json_value_to_position(&items[i]);
                    data.push(p);
                    i = i + 1;
                }
            },
            None => {},
        }
        Response::GetPosition(GetPositionResponse { data, next_page_cursor })
    }

    /// A balance per coin of the first account of result.list.
    pub open spec fn balance_response(&self, resp: HttpResponse, r: Response) -> bool {
        &&& r matches Response::GetBalance(g) && g.data@.len() == bybit_coin_items(resp.json_payload->0).len()
                && forall|i: int| 0 <= i < g.data@.len() ==> bybit_balance_matches(
                #[trigger] g.data@[i],
                bybit_coin_items(resp.json_payload->0)[i],
            )
    }

    /// One balance per coin of the first account in `result.list`.
    pub fn create_get_balance_rest_response(&self, http_response: HttpResponse) -> (r: Response)
        requires
            http_response.json_payload matches Some(j) && bybit_balances_ok(j),
        ensures
            self.balance_response(http_response, r),
    {
        let json = http_response.json_payload.unwrap();
        let accounts = result_list_exec(&json).unwrap();
        let coins = accounts[0].at("coin").unwrap().as_array().unwrap();
        assert forall|k: int| 0 <= k < coins@.len() implies bybit_balance_ok(#[trigger] coins@[k]) by {
            assert(bybit_coin_items(json)[k] == coins@[k]);
        }
        let mut data: Vec<Balance> = Vec::new();
        let mut i: usize = 0;
        while i < coins.len()
            invariant
                bybit_coin_items(json) == coins@,
                forall|k: int| 0 <= k < coins@.len() ==> bybit_balance_ok(#[trigger] coins@[k]),
                i <= coins@.len(),
                data@.len() == i,
                forall|k: int| 0 <= k < i ==> bybit_balance_matches(#[trigger] data@[k], coins@[k]),
            decreases coins.len() - i,
        {
            let b = self.convert_json_value_to_balance(&coins[i]);
            data.push(b);
            i = i + 1;
        }
        Response::GetBalance(GetBalanceResponse { data })
    }

    /// The response itself, with Bybit's retCode and retMsg where it has a JSON body.
    pub open spec fn error_response(&self, resp: HttpResponse, r: Response) -> bool {
        &&& r matches Response::HttpErrorResponse(e) && e.http_request == resp.http_request && e.status == resp.status
                && e.body == resp.body && e.json_payload == resp.json_payload
                && match resp.json_payload {
                Some(j) => opt_view(e.error_code) == (match spec_get(j, "retCode"@) {
                    Some(c) => match spec_as_i64(c) {
                        Some(n) => Some(int_text(n as int)),
                        None => None,
                    },
                    None => None,
                }) && opt_view(e.error_message) == (match spec_get(j, "retMsg"@) {
                    Some(m) => spec_as_str(m),
                    None => None,
                }),
                None => e.error_code == resp.error_code && e.error_message
                    == resp.error_message,
            }
    }

    /// The response with Bybit's "retCode" (an integer, written out) and "retMsg" where it
    /// has a JSON body.
    pub fn create_http_error_response(&self, http_response: HttpResponse) -> (r: Response)
        ensures
            self.error_response(http_response, r),
    {
        let mut response = http_response;
        match &response.json_payload {
            Some(j) => {
                let code = match j.get("retCode") {
                    Some(c) => match c.as_i64() {
                        Some(n) => Some(i64_to_string(n)),
                        None => None,
                    },
                    None => None,
                };
                let message = match j.get("retMsg") {
                    Some(m) => match m.as_str() {
                        Some(s) => Some(string_from(s)),
                        None => None,
                    },
                    None => None,
                };
                response.error_code = code;
                response.error_message = message;
            },
            None => {},
        }
        Response::HttpErrorResponse(response)
    }
}

} // verus!
