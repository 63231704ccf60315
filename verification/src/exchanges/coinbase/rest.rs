//! Coinbase Exchange's REST API: the requests, their signature, and the responses.

use vstd::prelude::*;
use vstd::utf8::encode_utf8;
use crate::exchange_client::common::{
    CancelOrderRequest, CancelOrderResponse, GetBalanceRequest, GetBalanceResponse, GetInstrumentInfoRequest,
    GetInstrumentInfoResponse, GetOpenOrderRequest, GetOpenOrderResponse, GetPositionRequest, GetPositionResponse,
    GetTopOfBookRequest, GetTopOfBookResponse, PlaceOrderRequest, PlaceOrderResponse, Response,
};
use crate::exchange_client::common::{answers, is_private_request, is_rest_request, Request};
use crate::exchanges::coinbase::common::{
    coinbase_balance_matches, coinbase_order_matches, coinbase_order_type_text, coinbase_secret_key,
    coinbase_side_text, CoinbaseClient,
};
use crate::json::{array_at, field_str, spec_as_array, spec_as_str, spec_at, spec_get, str_or, JsonValue};
use crate::networking::http::{
    has_json_body, has_query, header_value_ok, is_header_value, json_request, method_text, opt_view, payload_or_empty,
    push_pair, query_request, status_is_success, HttpMethod, HttpRequest, HttpResponse,
};
use crate::signing::{base64_decode, base64_encode, base64_standard, hmac_sha256_crate_tag, hmac_sha256_single, pair_views};
use crate::text::{
    i64_to_string, int_text, nat_digits, push_str, string_from, trim_end_matches, trim_end_matches_text,
    trim_start_matches, trim_start_matches_text, u64_to_string,
};
use crate::time::{parse_rfc3339, rfc3339_instant, timestamp_valid, utc_now};
use crate::types::{
    Balance, ExchangeInstrumentType, InstrumentInfo, Order, OrderSide, OrderType, Timestamp, TopOfBook,
};

verus! {

/// The path and query that Coinbase signs.
pub open spec fn coinbase_request_path(r: HttpRequest) -> Seq<char> {
    match r.query_string {
        Some(q) => r.path@ + "?"@ + q@,
        None => r.path@,
    }
}

/// The body that Coinbase signs: that of a POST or a DELETE.
pub open spec fn coinbase_signed_body(r: HttpRequest) -> Seq<char> {
    if r.method == HttpMethod::Post || r.method == HttpMethod::Delete {
        payload_or_empty(r)
    } else {
        Seq::empty()
    }
}

/// The text Coinbase signs: time, method, path with query, body.
pub open spec fn coinbase_prehash(timestamp: Seq<char>, r: HttpRequest) -> Seq<char> {
    timestamp + method_text(r.method) + coinbase_request_path(r) + coinbase_signed_body(r)
}

pub open spec fn coinbase_place_order_members(req: PlaceOrderRequest) -> Seq<(Seq<char>, Seq<char>)> {
    let a = if req.client_order_id@.len() != 0 { seq![("client_oid"@, req.client_order_id@)] } else { Seq::empty() };
    let b = if req.order_type == OrderType::Limit { a.push(("price"@, req.price@)) } else { a };
    b.push(("product_id"@, req.symbol@)).push(("side"@, coinbase_side_text(req.side))).push(("size"@, req.quantity@)).push(
        ("type"@, coinbase_order_type_text(req.order_type)),
    )
}

pub open spec fn coinbase_open_order_pairs(req: GetOpenOrderRequest) -> Seq<(Seq<char>, Seq<char>)> {
    let a = if req.symbol@.len() != 0 { seq![("product_id"@, req.symbol@)] } else { Seq::empty() };
    let b = if req.limit > 0 { a.push(("limit"@, nat_digits(req.limit as nat))) } else { a };
    if req.next_page_cursor@.len() != 0 { b.push(("after"@, req.next_page_cursor@)) } else { b }
}

/// The path of a cancellation: the order id, or "client:" and the client order id.
pub open spec fn coinbase_cancel_path(req: CancelOrderRequest) -> Seq<char> {
    "/orders/"@ + if req.order_id@.len() != 0 { req.order_id@ } else { "client:"@ + req.client_order_id@ }
}

/// The items of the array that the response's document is, or none.
pub open spec fn array_items(j: JsonValue) -> Seq<JsonValue> {
    match spec_as_array(j) {
        Some(items) => items,
        None => Seq::empty(),
    }
}

pub open spec fn coinbase_instrument_matches(info: InstrumentInfo, v: JsonValue) -> bool {
    &&& info.exchange_instrument_type == ExchangeInstrumentType::Coinbase
    &&& info.symbol@ == field_str(v, "id"@)
    &&& info.base_asset@ == field_str(v, "base_currency"@)
    &&& info.quote_asset@ == field_str(v, "quote_currency"@)
    &&& info.order_price_increment@ == field_str(v, "quote_increment"@)
    &&& info.order_quantity_increment@ == field_str(v, "base_increment"@)
    &&& info.order_quote_quantity_min@ == field_str(v, "min_market_funds"@)
    &&& info.order_quantity_min@.len() == 0
    &&& info.order_quantity_max@.len() == 0
    &&& info.order_quote_quantity_max@.len() == 0
    &&& info.settle_asset@.len() == 0
    &&& info.underlying_symbol@.len() == 0
    &&& info.contract_size@.len() == 0
    &&& info.expiry_timestamp.is_epoch()
}

/// `value[n]`: the n-th item of an array, or null.
pub open spec fn index_at(v: JsonValue, n: int) -> JsonValue {
    match array_at(v, n) {
        Some(x) => x,
        None => JsonValue::Null,
    }
}

/// `value[n].as_str().unwrap_or("")`.
pub open spec fn index_str(v: JsonValue, n: int) -> Seq<char> {
    str_or(index_at(v, n), Seq::empty())
}

/// A time given as RFC 3339 text under "time" is that time; otherwise it is the time of
/// the call, of which nothing is stated.
pub open spec fn rfc3339_time_matches(t: Timestamp, j: JsonValue) -> bool {
    match spec_as_str(spec_at(j, "time"@)) {
        Some(s) => match rfc3339_instant(s) {
            Some(instant) => t.seconds == instant.0 && t.nanoseconds == instant.1,
            None => true,
        },
        None => true,
    }
}

/// The symbol in a book path: "/products/<symbol>/book".
pub open spec fn book_path_symbol(path: Seq<char>) -> Seq<char> {
    trim_end_matches(trim_start_matches(path, "/products/"@), "/book"@)
}

pub open spec fn coinbase_book_matches(b: TopOfBook, j: JsonValue, path: Seq<char>) -> bool {
    let bid = index_at(spec_at(j, "bids"@), 0);
    let ask = index_at(spec_at(j, "asks"@), 0);
    &&& b.exchange_instrument_type == ExchangeInstrumentType::Coinbase
    &&& b.symbol@ == book_path_symbol(path)
    &&& rfc3339_time_matches(b.timestamp, j)
    &&& b.bid_price@ == index_str(bid, 0)
    &&& b.bid_size@ == index_str(bid, 1)
    &&& b.ask_price@ == index_str(ask, 0)
    &&& b.ask_size@ == index_str(ask, 1)
}

fn index_at_exec(v: &JsonValue, n: usize) -> (r: Option<&JsonValue>)
    ensures
        match r {
            Some(x) => index_at(*v, n as int) == *x,
            None => index_at(*v, n as int) == JsonValue::Null,
        },
{
    v.at_index(n)
}

fn index_str_exec(v: Option<&JsonValue>, n: usize) -> (r: String)
    ensures
        r@ == index_str(match v { Some(x) => *x, None => JsonValue::Null }, n as int),
{
    match v {
        Some(x) => match x.at_index(n) {
            Some(y) => match y.as_str() {
                Some(s) => string_from(s),
                None => String::new(),
            },
            None => String::new(),
        },
        None => String::new(),
    }
}

/// The time under "time" where it is RFC 3339 text, else the current time.
fn time_or_now(j: &JsonValue) -> (r: Timestamp)
    ensures
        rfc3339_time_matches(r, *j),
        timestamp_valid(r),
{
    match j.at("time") {
        Some(t) => match t.as_str() {
            Some(s) => match parse_rfc3339(s) {
                Some(ts) => ts,
                None => utc_now(),
            },
            None => utc_now(),
        },
        None => utc_now(),
    }
}

impl CoinbaseClient {
    pub fn create_get_instrument_info_http_request(&self, _request: &GetInstrumentInfoRequest) -> (r: HttpRequest)
        ensures
            r.is_plain(self.rest_api_base_url@, HttpMethod::Get, "/products"@),
    {
        HttpRequest::new(self.rest_api_base_url.as_str(), HttpMethod::Get, "/products", None, None)
    }

    pub fn create_get_top_of_book_http_request(&self, request: &GetTopOfBookRequest) -> (r: HttpRequest)
        ensures
            r.is_plain(self.rest_api_base_url@, HttpMethod::Get, "/products/"@ + request.symbol@ + "/book"@),
    {
        let mut path = string_from("/products/");
        push_str(&mut path, request.symbol.as_str());
        push_str(&mut path, "/book");
        HttpRequest::new(self.rest_api_base_url.as_str(), HttpMethod::Get, path.as_str(), None, None)
    }

    /// The signed request: the unsigned one with the access key, time and passphrase, and
    /// the Base64 HMAC-SHA256, keyed by the decoded secret, of what Coinbase signs.
    pub open spec fn signed_http_request(&self, o: HttpRequest, n: HttpRequest, timestamp: Seq<char>) -> bool {
        let c = self.credential->0;
        &&& n.base_url == o.base_url
        &&& n.method == o.method
        &&& n.path == o.path
        &&& n.query_string == o.query_string
        &&& n.payload == o.payload
        &&& n.headers.spec_get("cb-access-key"@) == Some(c.api_key@)
        &&& n.headers.spec_get("cb-access-timestamp"@) == Some(timestamp)
        &&& n.headers.spec_get("cb-access-sign"@) == Some(base64_standard(hmac_sha256_crate_tag(
            coinbase_secret_key(c)->0,
            encode_utf8(coinbase_prehash(timestamp, o)),
        )))
        &&& n.headers.spec_get("cb-access-passphrase"@) == Some(c.api_passphrase@)
        &&& forall|k: Seq<char>| k != "cb-access-key"@ && k != "cb-access-timestamp"@ && k != "cb-access-sign"@ && k != "cb-access-passphrase"@ ==> n.headers.spec_get(k) == o.headers.spec_get(k)
    }

    /// Signs the request at the given time (whole seconds, as text) with the secret read as
    /// base64; false, with the request unchanged, where the secret is not base64.
    pub fn sign_http_request_with(&self, http_request: &mut HttpRequest, timestamp: &str) -> (signed: bool)
        requires
            self.credential is Some,
            header_value_ok(self.credential->0.api_key@),
            header_value_ok(self.credential->0.api_passphrase@),
            header_value_ok(timestamp@),
        ensures
            signed == coinbase_secret_key(self.credential->0) is Some,
            !signed ==> *final(http_request) == *old(http_request),
            signed ==> self.signed_http_request(*old(http_request), *final(http_request), timestamp@),
    {
        let c = self.credential.as_ref().unwrap();
        let key = match base64_decode(c.api_secret.as_str().as_bytes()) {
            Some(k) => k,
            None => return false,
        };
        let mut prehash = string_from(timestamp);
        push_str(&mut prehash, http_request.method.as_str());
        push_str(&mut prehash, http_request.path.as_str());
        match &http_request.query_string {
            Some(q) => {
                push_str(&mut prehash, "?");
                push_str(&mut prehash, q.as_str());
            },
            None => {},
        }
        if http_request.method == HttpMethod::Post || http_request.method == HttpMethod::Delete {
            let p = http_request.payload_or_empty();
            push_str(&mut prehash, p.as_str());
        }
        let ghost o = *old(http_request);
        assert(prehash@ =~= coinbase_prehash(timestamp@, o));
        let tag = hmac_sha256_single(key.as_slice(), prehash.as_str().as_bytes());
        let signature = base64_encode(tag.as_slice());
        let ghost sg = signature@;
        proof {
            reveal_strlit("cb-access-key");
            reveal_strlit("cb-access-timestamp");
            reveal_strlit("cb-access-sign");
            reveal_strlit("cb-access-passphrase");
            assert("cb-access-key"@.len() == 13);
            assert("cb-access-timestamp"@.len() == 19);
            assert("cb-access-sign"@.len() == 14);
            assert("cb-access-passphrase"@.len() == 20);
        }
        http_request.headers.insert(string_from("cb-access-key"), c.api_key.clone());
        http_request.headers.insert(string_from("cb-access-timestamp"), string_from(timestamp));
        http_request.headers.insert(string_from("cb-access-sign"), signature);
        http_request.headers.insert(string_from("cb-access-passphrase"), c.api_passphrase.clone());
        assert(http_request.headers.spec_get("cb-access-sign"@) == Some(sg));
        true
    }

    /// Signs the request at the given time; false, with the request unchanged, where the
    /// key or passphrase cannot be a header value or the secret is not base64.
    pub fn sign_http_request(&self, http_request: &mut HttpRequest, now: Timestamp) -> (signed: bool)
        requires
            self.credential is Some,
            timestamp_valid(now),
        ensures
            signed == (header_value_ok(self.credential->0.api_key@) && header_value_ok(
                self.credential->0.api_passphrase@,
            ) && coinbase_secret_key(self.credential->0) is Some),
            !signed ==> *final(http_request) == *old(http_request),
            signed ==> self.signed_http_request(*old(http_request), *final(http_request), int_text(now.seconds as int)),
    {
        let c = self.credential.as_ref().unwrap();
        if !is_header_value(c.api_key.as_str()) || !is_header_value(c.api_passphrase.as_str()) {
            return false;
        }
        let timestamp = i64_to_string(now.seconds);
        proof {
            let t = timestamp@;
            assert forall|i: int| 0 <= i < t.len() implies (t[i] == '\t' || (' ' <= #[trigger] t[i] && t[i] != '\x7f')) by {
                crate::text::lemma_int_text_chars(now.seconds as int, i);
            }
        }
        self.sign_http_request_with(http_request, timestamp.as_str())
    }

    /// A JSON order posted to /orders.
    pub open spec fn place_order_http_request(&self, request: PlaceOrderRequest, r: HttpRequest) -> bool {
        &&& r.base_url@ == self.rest_api_base_url@
        &&& r.method == HttpMethod::Post
        &&& r.path@ == "/orders"@
        &&& r.headers.entries@.len() == 0
        &&& r.query_string is None
        &&& has_json_body(r, coinbase_place_order_members(request))
    }

    pub fn create_place_order_http_request(&self, request: &PlaceOrderRequest) -> (r: HttpRequest)
        requires
            request.side != OrderSide::Unknown,
            request.order_type != OrderType::Unknown,
        ensures
            self.place_order_http_request(*request, r),
    {
        let mut pairs: Vec<(String, String)> = Vec::new();
        assert(pair_views(pairs@) =~= Seq::empty());
        if request.client_order_id.as_str().unicode_len() != 0 {
            push_pair(&mut pairs, "client_oid", request.client_order_id.as_str());
        }
        if request.order_type == OrderType::Limit {
            push_pair(&mut pairs, "price", request.price.as_str());
        }
        push_pair(&mut pairs, "product_id", request.symbol.as_str());
        push_pair(&mut pairs, "side", self.convert_order_side_to_string(request.side));
        push_pair(&mut pairs, "size", request.quantity.as_str());
        push_pair(&mut pairs, "type", self.convert_order_type_to_string(request.order_type));
        assert(pair_views(pairs@) =~= coinbase_place_order_members(*request));
        json_request(self.rest_api_base_url.as_str(), HttpMethod::Post, "/orders", &pairs)
    }

    /// A DELETE of the order, by id or by client id.
    pub open spec fn cancel_order_http_request(&self, request: CancelOrderRequest, r: HttpRequest) -> bool {
        &&& r.is_plain(self.rest_api_base_url@, HttpMethod::Delete, coinbase_cancel_path(request))
    }

    pub fn create_cancel_order_http_request(&self, request: &CancelOrderRequest) -> (r: HttpRequest)
        ensures
            self.cancel_order_http_request(*request, r),
    {
        let mut path = string_from("/orders/");
        if request.order_id.as_str().unicode_len() != 0 {
            push_str(&mut path, request.order_id.as_str());
        } else {
            push_str(&mut path, "client:");
            push_str(&mut path, request.client_order_id.as_str());
        }
        assert(path@ =~= coinbase_cancel_path(*request));
        HttpRequest::new(self.rest_api_base_url.as_str(), HttpMethod::Delete, path.as_str(), None, None)
    }

    /// A GET of the open orders.
    pub open spec fn open_order_http_request(&self, request: GetOpenOrderRequest, r: HttpRequest) -> bool {
        &&& r.base_url@ == self.rest_api_base_url@
        &&& r.method == HttpMethod::Get
        &&& r.path@ == "/orders"@
        &&& r.headers.entries@.len() == 0
        &&& has_query(r, coinbase_open_order_pairs(request))
        &&& r.payload is None
    }

    pub fn create_get_open_order_http_request(&self, request: &GetOpenOrderRequest) -> (r: HttpRequest)
        ensures
            self.open_order_http_request(*request, r),
    {
        let mut pairs: Vec<(String, String)> = Vec::new();
        assert(pair_views(pairs@) =~= Seq::empty());
        if request.symbol.as_str().unicode_len() != 0 {
            push_pair(&mut pairs, "product_id", request.symbol.as_str());
        }
        if request.limit > 0 {
            let limit = u64_to_string(request.limit as u64);
            push_pair(&mut pairs, "limit", limit.as_str());
        }
        if request.next_page_cursor.as_str().unicode_len() != 0 {
            push_pair(&mut pairs, "after", request.next_page_cursor.as_str());
        }
        assert(pair_views(pairs@) =~= coinbase_open_order_pairs(*request));
        query_request(self.rest_api_base_url.as_str(), HttpMethod::Get, "/orders", pairs)
    }

    pub fn create_get_position_http_request(&self, _request: &GetPositionRequest) -> (r: HttpRequest)
        ensures
            r.is_plain(self.rest_api_base_url@, HttpMethod::Get, "/accounts"@),
    {
        HttpRequest::new(self.rest_api_base_url.as_str(), HttpMethod::Get, "/accounts", None, None)
    }

    pub fn create_get_balance_http_request(&self, _request: &GetBalanceRequest) -> (r: HttpRequest)
        ensures
            r.is_plain(self.rest_api_base_url@, HttpMethod::Get, "/accounts"@),
    {
        HttpRequest::new(self.rest_api_base_url.as_str(), HttpMethod::Get, "/accounts", None, None)
    }

    /// The request that the builder of the request's kind makes, before any signature.
    pub open spec fn http_request_for(&self, request: Request, r: HttpRequest) -> bool {
        let base = self.rest_api_base_url@;
        match request {
            Request::GetInstrumentInfo(_) => r.is_plain(base, HttpMethod::Get, "/products"@),
            Request::GetTopOfBook(q) => r.is_plain(base, HttpMethod::Get, "/products/"@ + q.symbol@ + "/book"@),
            Request::PlaceOrder(q) => self.place_order_http_request(q, r),
            Request::CancelOrder(q) => self.cancel_order_http_request(q, r),
            Request::GetOpenOrder(q) => self.open_order_http_request(q, r),
            Request::GetPosition(_) => r.is_plain(base, HttpMethod::Get, "/accounts"@),
            Request::GetBalance(_) => r.is_plain(base, HttpMethod::Get, "/accounts"@),
            _ => false,
        }
    }

    /// The REST requests this client can send: orders of a known side and type, and
    /// private requests only with a credential.
    pub open spec fn rest_request_ok(&self, request: Request) -> bool {
        &&& is_rest_request(request)
        &&& is_private_request(request) ==> self.credential is Some
        &&& request matches Request::PlaceOrder(q) ==> q.side != OrderSide::Unknown && q.order_type
            != OrderType::Unknown
    }

    /// The HTTP request for a REST request at the given time: built by its kind, and
    /// signed when it is private. None where the signature could not be made.
    pub fn create_http_request(&self, request: &Request, now: Timestamp) -> (r: Option<HttpRequest>)
        requires
            self.rest_request_ok(*request),
            timestamp_valid(now),
        ensures
            !is_private_request(*request) ==> (r matches Some(h) && self.http_request_for(*request, h)),
            is_private_request(*request) ==> match r {
                Some(h) => exists|u: HttpRequest| #[trigger] self.http_request_for(*request, u)
                    && self.signed_http_request(u, h, int_text(now.seconds as int)),
                None => true,
            },
            is_private_request(*request) ==> (r is Some <==> (header_value_ok(self.credential->0.api_key@) && header_value_ok(
                self.credential->0.api_passphrase@,
            ) && coinbase_secret_key(self.credential->0) is Some)),
    {
        let mut http_request = match request {
            Request::GetInstrumentInfo(q) => return Some(self.create_get_instrument_info_http_request(q)),
            Request::GetTopOfBook(q) => return Some(self.create_get_top_of_book_http_request(q)),
            Request::PlaceOrder(q) => self.create_place_order_http_request(q),
            Request::CancelOrder(q) => self.create_cancel_order_http_request(q),
            Request::GetOpenOrder(q) => self.create_get_open_order_http_request(q),
            Request::GetPosition(q) => self.create_get_position_http_request(q),
            Request::GetBalance(q) => self.create_get_balance_http_request(q),
            _ => return None,
        };
        let ghost unsigned = http_request;
        assert(self.http_request_for(*request, unsigned));
        if self.sign_http_request(&mut http_request, now) {
            Some(http_request)
        } else {
            None
        }
    }

    /// What the converter of the request's kind makes of a successful response.
    pub open spec fn rest_response(&self, request: Request, resp: HttpResponse, r: Response) -> bool {
        match request {
            Request::GetInstrumentInfo(_) => self.instrument_info_response(resp, r),
            Request::GetTopOfBook(_) => self.top_of_book_response(resp, r),
            Request::PlaceOrder(_) => self.place_order_response(resp, r),
            Request::CancelOrder(_) => r is CancelOrder,
            Request::GetOpenOrder(_) => self.open_order_response(resp, r),
            Request::GetPosition(_) => r matches Response::GetPosition(g) && g.data@.len() == 0
                && g.next_page_cursor@.len() == 0,
            Request::GetBalance(_) => self.balance_response(resp, r),
            _ => false,
        }
    }

    /// The converters that read the body, which a successful response must then have.
    pub open spec fn reads_body(request: Request) -> bool {
        !(request is CancelOrder || request is GetPosition)
    }

    /// The response to a REST request: the error response where the status is not a
    /// success, else what the converter of the request's kind makes of it. None where a
    /// successful response that the converter reads has no JSON body.
    pub fn create_rest_response(&self, request: &Request, http_response: HttpResponse) -> (r: Option<Response>)
        requires
            is_rest_request(*request),
        ensures
            !status_is_success(http_response.status) ==> (r matches Some(e) && self.error_response(
                http_response,
                e,
            )),
            status_is_success(http_response.status) ==> (r is None <==> (Self::reads_body(*request)
                && http_response.json_payload is None)),
            status_is_success(http_response.status) ==> (r matches Some(p) ==> answers(*request, p)
                && self.rest_response(*request, http_response, p)),
    {
        if !self.is_http_response_success(&http_response) {
            return Some(self.create_http_error_response(http_response));
        }
        let r = match request {
            Request::CancelOrder(_) => self.create_cancel_order_rest_response(http_response),
            Request::GetPosition(_) => self.create_get_position_rest_response(http_response),
            _ => {
                if http_response.json_payload.is_none() {
                    return None;
                }
                match request {
                    Request::GetInstrumentInfo(_) => self.create_get_instrument_info_rest_response(http_response),
                    Request::GetTopOfBook(_) => self.create_get_top_of_book_rest_response(http_response),
                    Request::PlaceOrder(_) => self.create_place_order_rest_response(http_response),
                    Request::GetOpenOrder(_) => self.create_get_open_order_rest_response(http_response),
                    Request::GetBalance(_) => self.create_get_balance_rest_response(http_response),
                    _ => self.create_http_error_response(http_response),
                }
            },
        };
        Some(r)
    }

    /// A 2xx status.
    pub fn is_http_response_success(&self, http_response: &HttpResponse) -> (r: bool)
        ensures
            r == status_is_success(http_response.status),
    {
        http_response.is_status_success()
    }

    /// An instrument per product where the body is an array, and no cursor.
    pub open spec fn instrument_info_response(&self, resp: HttpResponse, r: Response) -> bool {
        &&& r matches Response::GetInstrumentInfo(g) && g.next_page_cursor@.len() == 0
                && g.data@.len() == array_items(resp.json_payload->0).len()
                && forall|i: int| 0 <= i < g.data@.len() ==> coinbase_instrument_matches(
                #[trigger] g.data@[i],
                array_items(resp.json_payload->0)[i],
            )
    }

    /// One instrument per product where the body is an array.
    pub fn create_get_instrument_info_rest_response(&self, http_response: HttpResponse) -> (r: Response)
        requires
            http_response.json_payload is Some,
        ensures
            self.instrument_info_response(http_response, r),
    {
        let json = http_response.json_payload.unwrap();
        let mut data: Vec<InstrumentInfo> = Vec::new();
        match json.as_array() {
            Some(items) => {
                let mut i: usize = 0;
                while i < items.len()
                    invariant
                        array_items(json) == items@,
                        i <= items@.len(),
                        data@.len() == i,
                        forall|k: int| 0 <= k < i ==> coinbase_instrument_matches(#[trigger] data@[k], items@[k]),
                    decreases items.len() - i,
                {
                    let v = &items[i];
                    let info = InstrumentInfo {
                        exchange_instrument_type: ExchangeInstrumentType::Coinbase,
                        symbol: v.field_str("id"),
                        base_asset: v.field_str("base_currency"),
                        quote_asset: v.field_str("quote_currency"),
                        order_price_increment: v.field_str("quote_increment"),
                        order_quantity_increment: v.field_str("base_increment"),
                        order_quantity_min: String::new(),
                        order_quantity_max: String::new(),
                        order_quote_quantity_min: v.field_str("min_market_funds"),
                        order_quote_quantity_max: String::new(),
                        settle_asset: String::new(),
                        underlying_symbol: String::new(),
                        contract_size: String::new(),
                        expiry_timestamp: Timestamp::epoch(),
                    };
                    data.push(info);
                    i = i + 1;
                }
            },
            None => {},
        }
        Response::GetInstrumentInfo(GetInstrumentInfoResponse { data, next_page_cursor: String::new() })
    }

    /// The best bid and ask of the book, for the symbol in the request's path.
    pub open spec fn top_of_book_response(&self, resp: HttpResponse, r: Response) -> bool {
        &&& r matches Response::GetTopOfBook(g) && g.data@.len() == 1 && coinbase_book_matches(
                g.data@[0],
                resp.json_payload->0,
                resp.http_request.path@,
            )
    }

    /// The best bid and ask of the book, for the symbol in the request's path.
    pub fn create_get_top_of_book_rest_response(&self, http_response: HttpResponse) -> (r: Response)
        requires
            http_response.json_payload is Some,
        ensures
            self.top_of_book_response(http_response, r),
    {
        let trimmed = trim_start_matches_text(http_response.http_request.path.as_str(), "/products/");
        let symbol = trim_end_matches_text(trimmed.as_str(), "/book");
        let json = http_response.json_payload.unwrap();
        let timestamp = time_or_now(&json);
        let bid = match json.at("bids") {
            Some(b) => index_at_exec(b, 0),
            None => None,
        };
        let ask = match json.at("asks") {
            Some(a) => index_at_exec(a, 0),
            None => None,
        };
        let book = TopOfBook {
            exchange_instrument_type: ExchangeInstrumentType::Coinbase,
            symbol,
            timestamp,
            bid_price: index_str_exec(bid, 0),
            bid_size: index_str_exec(bid, 1),
            ask_price: index_str_exec(ask, 0),
            ask_size: index_str_exec(ask, 1),
        };
        let mut data: Vec<TopOfBook> = Vec::new();
        data.push(book);
        Response::GetTopOfBook(GetTopOfBookResponse { data })
    }

    /// The id of the placed order.
    pub open spec fn place_order_response(&self, resp: HttpResponse, r: Response) -> bool {
        &&& r matches Response::PlaceOrder(p) && p.order_id@ == field_str(resp.json_payload->0, "id"@)
    }

    /// The placed order's "id".
    pub fn create_place_order_rest_response(&self, http_response: HttpResponse) -> (r: Response)
        requires
            http_response.json_payload is Some,
        ensures
            self.place_order_response(http_response, r),
    {
        let json = http_response.json_payload.unwrap();
        Response::PlaceOrder(PlaceOrderResponse { order_id: json.field_str("id") })
    }

    pub fn create_cancel_order_rest_response(&self, _http_response: HttpResponse) -> (r: Response)
        ensures
            r is CancelOrder,
    {
        Response::CancelOrder(CancelOrderResponse {})
    }

    /// An order per item where the body is an array, and no cursor.
    pub open spec fn open_order_response(&self, resp: HttpResponse, r: Response) -> bool {
        &&& r matches Response::GetOpenOrder(g) && g.next_page_cursor@.len() == 0
                && g.data@.len() == array_items(resp.json_payload->0).len()
                && forall|i: int| 0 <= i < g.data@.len() ==> coinbase_order_matches(
                #[trigger] g.data@[i],
                array_items(resp.json_payload->0)[i],
            )
    }

    /// One order per item where the body is an array.
    pub fn create_get_open_order_rest_response(&self, http_response: HttpResponse) -> (r: Response)
        requires
            http_response.json_payload is Some,
        ensures
            self.open_order_response(http_response, r),
    {
        let json = http_response.json_payload.unwrap();
        let mut data: Vec<Order> = Vec::new();
        match json.as_array() {
            Some(items) => {
                let mut i: usize = 0;
                while i < items.len()
                    invariant
                        array_items(json) == items@,
                        i <= items@.len(),
                        data@.len() == i,
                        forall|k: int| 0 <= k < i ==> coinbase_order_matches(#[trigger] data@[k], items@[k]),
                    decreases items.len() - i,
                {
                    let o = self.convert_json_value_to_order(&items[i]);
                    data.push(o);
                    i = i + 1;
                }
            },
            None => {},
        }
        Response::GetOpenOrder(GetOpenOrderResponse { data, next_page_cursor: String::new() })
    }

    /// No positions (Coinbase Exchange has none).
    pub fn create_get_position_rest_response(&self, _http_response: HttpResponse) -> (r: Response)
        ensures
            r matches Response::GetPosition(g) && g.data@.len() == 0 && g.next_page_cursor@.len() == 0,
    {
        Response::GetPosition(GetPositionResponse { data: Vec::new(), next_page_cursor: String::new() })
    }

    /// A balance per account where the body is an array.
    pub open spec fn balance_response(&self, resp: HttpResponse, r: Response) -> bool {
        &&& r matches Response::GetBalance(g) && g.data@.len() == array_items(resp.json_payload->0).len()
                && forall|i: int| 0 <= i < g.data@.len() ==> coinbase_balance_matches(
                #[trigger] g.data@[i],
                array_items(resp.json_payload->0)[i],
            )
    }

    /// One balance per account where the body is an array.
    pub fn create_get_balance_rest_response(&self, http_response: HttpResponse) -> (r: Response)
        requires
            http_response.json_payload is Some,
        ensures
            self.balance_response(http_response, r),
    {
        let json = http_response.json_payload.unwrap();
        let mut data: Vec<Balance> = Vec::new();
        match json.as_array() {
            Some(items) => {
                let mut i: usize = 0;
                while i < items.len()
                    invariant
                        array_items(json) == items@,
                        i <= items@.len(),
                        data@.len() == i,
                        forall|k: int| 0 <= k < i ==> coinbase_balance_matches(#[trigger] data@[k], items@[k]),
                    decreases items.len() - i,
                {
                    let b = self.convert_json_value_to_balance(&items[i]);
                    data.push(b);
                    i = i + 1;
                }
            },
            None => {},
        }
        Response::GetBalance(GetBalanceResponse { data })
    }

    /// The response itself, with Coinbase's message where it has a JSON body.
    pub open spec fn error_response(&self, resp: HttpResponse, r: Response) -> bool {
        &&& r matches Response::HttpErrorResponse(e) && e.http_request == resp.http_request && e.status == resp.status
                && e.body == resp.body && e.json_payload == resp.json_payload
                && e.error_code == resp.error_code && match resp.json_payload {
                Some(j) => opt_view(e.error_message) == (match spec_get(j, "message"@) {
                    Some(m) => spec_as_str(m),
                    None => None,
                }),
                None => e.error_message == resp.error_message,
            }
    }

    /// The response with Coinbase's "message" (where a string) as the error message, where
    /// it has a JSON body.
    pub fn create_http_error_response(&self, http_response: HttpResponse) -> (r: Response)
        ensures
            self.error_response(http_response, r),
    {
        let mut response = http_response;
        match &response.json_payload {
            Some(j) => {
                let message = match j.get("message") {
                    Some(m) => match m.as_str() {
                        Some(s) => Some(string_from(s)),
                        None => None,
                    },
                    None => None,
                };
                response.error_message = message;
            },
            None => {},
        }
        Response::HttpErrorResponse(response)
    }
}

} // verus!
