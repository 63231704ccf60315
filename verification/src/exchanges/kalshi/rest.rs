//! Kalshi REST API: the requests, their RSA-PSS signature headers, and the responses.

use vstd::prelude::*;
use crate::exchange_client::common::{
    answers, is_private_request, is_rest_request, CancelOrderRequest, CancelOrderResponse, GetBalanceRequest,
    GetBalanceResponse, GetInstrumentInfoRequest, GetInstrumentInfoResponse, GetOpenOrderRequest,
    GetOpenOrderResponse, GetPositionRequest, GetPositionResponse, GetTopOfBookRequest, GetTopOfBookResponse,
    PlaceOrderRequest, PlaceOrderResponse, Request, Response,
};
use crate::exchanges::htx_spot::common::member_or;
use crate::exchanges::htx_spot::rest::{items_exec, items_of};
use crate::exchanges::kalshi::common::{
    kalshi_balance_matches, kalshi_order_matches, kalshi_position_matches, kalshi_side_text, KalshiClient,
};
use crate::json::{array_at, field_str, spec_as_str, spec_at, spec_get, JsonValue};
use crate::networking::http::{
    has_json_body, has_query, header_value_ok, is_header_value, json_request, method_text, opt_view, push_pair,
    query_request, status_is_success, HttpMethod, HttpRequest, HttpResponse,
};
use crate::signing::{base64_standard, pair_views, parse_url_path, rsa_pss_sha256_verifies, url_path};
use crate::exchanges::kalshi::common::kalshi_signed_message;
use vstd::utf8::encode_utf8;
use crate::text::{i64_to_string, int_text, nat_digits, push_str, string_from, trim_end_matches, trim_end_matches_text, u64_to_string};
use crate::time::{millis_of, parse_rfc3339, rfc3339_instant, timestamp_millis, timestamp_valid};
use crate::types::{ExchangeInstrumentType, InstrumentInfo, Order, OrderSide, OrderType, Position, Timestamp, TopOfBook};

verus! {

/// The path a signature covers: the base URL's path without trailing slashes (nothing
/// where it does not parse), then the request's path.
pub open spec fn kalshi_sign_path(base_url: Seq<char>, path: Seq<char>) -> Seq<char> {
    (match url_path(base_url) {
        Some(p) => trim_end_matches(p, "/"@),
        None => Seq::empty(),
    }) + path
}

/// The request signed at a time (milliseconds, as text): the key, the time and a Base64
/// signature as headers, nothing else changed. The signature is one that the key's
/// verifier accepts for the time, the method and the signed path.
pub open spec fn kalshi_signed(
    o: HttpRequest,
    n: HttpRequest,
    api_key: Seq<char>,
    pem: Seq<u8>,
    timestamp: Seq<char>,
) -> bool {
    &&& n.base_url == o.base_url
    &&& n.method == o.method
    &&& n.path == o.path
    &&& n.query_params == o.query_params
    &&& n.query_string == o.query_string
    &&& n.json_payload == o.json_payload
    &&& n.payload == o.payload
    &&& n.headers.spec_get("kalshi-access-key"@) == Some(api_key)
    &&& n.headers.spec_get("kalshi-access-timestamp"@) == Some(timestamp)
    &&& n.headers.spec_get("kalshi-access-signature"@) matches Some(s) && exists|sig: Seq<u8>| s == #[trigger] base64_standard(sig)
        && rsa_pss_sha256_verifies(
        pem,
        encode_utf8(kalshi_signed_message(timestamp, method_text(o.method), kalshi_sign_path(o.base_url@, o.path@))),
        sig,
    )
    &&& forall|k: Seq<char>| k != "kalshi-access-key"@ && k != "kalshi-access-timestamp"@ && k != "kalshi-access-signature"@
        ==> n.headers.spec_get(k) == o.headers.spec_get(k)
}

pub open spec fn kalshi_instrument_pairs(req: GetInstrumentInfoRequest) -> Seq<(Seq<char>, Seq<char>)> {
    let a = if req.symbol@.len() != 0 { seq![("tickers"@, req.symbol@)] } else { Seq::empty() };
    let b = if req.limit > 0 { a.push(("limit"@, nat_digits(req.limit as nat))) } else { a };
    if req.next_page_cursor@.len() != 0 { b.push(("cursor"@, req.next_page_cursor@)) } else { b }
}

pub open spec fn kalshi_open_order_pairs(req: GetOpenOrderRequest) -> Seq<(Seq<char>, Seq<char>)> {
    let a = if req.symbol@.len() != 0 { seq![("ticker"@, req.symbol@)] } else { Seq::empty() };
    let b = a.push(("status"@, "resting"@));
    let c = if req.limit > 0 { b.push(("limit"@, nat_digits(req.limit as nat))) } else { b };
    if req.next_page_cursor@.len() != 0 { c.push(("cursor"@, req.next_page_cursor@)) } else { c }
}

pub open spec fn kalshi_position_pairs(req: GetPositionRequest) -> Seq<(Seq<char>, Seq<char>)> {
    let a = if req.symbol@.len() != 0 { seq![("ticker"@, req.symbol@)] } else { Seq::empty() };
    let b = if req.limit > 0 { a.push(("limit"@, nat_digits(req.limit as nat))) } else { a };
    if req.next_page_cursor@.len() != 0 { b.push(("cursor"@, req.next_page_cursor@)) } else { b }
}

/// The members of a new order, in the order the JSON object writes them.
pub open spec fn kalshi_order_members(req: PlaceOrderRequest) -> Seq<(Seq<char>, Seq<char>)> {
    let a = if req.client_order_id@.len() != 0 { seq![("client_order_id"@, req.client_order_id@)] } else { Seq::empty() };
    a.push(("count"@, req.quantity@)).push(("price"@, req.price@)).push(("self_trade_prevention_type"@, "taker_at_cross"@)).push(
        ("side"@, kalshi_side_text(req.side)),
    ).push(("ticker"@, req.symbol@)).push(
        ("time_in_force"@, if req.order_type == OrderType::Market { "fill_or_kill"@ } else { "good_till_canceled"@ }),
    )
}

/// A GET of the path with the parameters.
pub open spec fn kalshi_query(r: HttpRequest, base_url: Seq<char>, path: Seq<char>, pairs: Seq<(Seq<char>, Seq<char>)>) -> bool {
    &&& r.base_url@ == base_url
    &&& r.method == HttpMethod::Get
    &&& r.path@ == path
    &&& r.headers.entries@.len() == 0
    &&& has_query(r, pairs)
    &&& r.payload is None
}

/// A time read from RFC 3339 text where it is non-empty text that reads, else the epoch.
pub open spec fn kalshi_time(t: Timestamp, v: JsonValue, key: Seq<char>) -> bool {
    match spec_get(v, key) {
        Some(x) => match spec_as_str(x) {
            Some(s) => if s.len() != 0 {
                match rfc3339_instant(s) {
                    Some((seconds, nanoseconds)) => t.seconds == seconds && t.nanoseconds == nanoseconds,
                    None => t.is_epoch(),
                }
            } else {
                t.is_epoch()
            },
            None => t.is_epoch(),
        },
        None => t.is_epoch(),
    }
}

/// The price step of a market: the "step" of its first price range where that is
/// non-empty text, else "0.01".
pub open spec fn kalshi_price_step(v: JsonValue) -> Seq<char> {
    match array_at(spec_at(v, "price_ranges"@), 0) {
        Some(first) => match spec_get(first, "step"@) {
            Some(s) => match spec_as_str(s) {
                Some(t) => if t.len() != 0 { t } else { "0.01"@ },
                None => "0.01"@,
            },
            None => "0.01"@,
        },
        None => "0.01"@,
    }
}

pub open spec fn kalshi_instrument_matches(info: InstrumentInfo, v: JsonValue) -> bool {
    &&& info.exchange_instrument_type == ExchangeInstrumentType::Kalshi
    &&& info.symbol@ == field_str(v, "ticker"@)
    &&& info.base_asset@.len() == 0
    &&& info.quote_asset@ == "USD"@
    &&& info.order_price_increment@ == kalshi_price_step(v)
    &&& info.order_quantity_increment@ == "1"@
    &&& info.order_quantity_min@ == "1"@
    &&& info.order_quantity_max@.len() == 0
    &&& info.order_quote_quantity_min@ == "0"@
    &&& info.order_quote_quantity_max@.len() == 0
    &&& info.settle_asset@.len() == 0
    &&& info.underlying_symbol@.len() == 0
    &&& info.contract_size@.len() == 0
    &&& kalshi_time(info.expiry_timestamp, v, "close_time"@)
}

pub open spec fn kalshi_book_matches(b: TopOfBook, v: JsonValue) -> bool {
    &&& b.exchange_instrument_type == ExchangeInstrumentType::Kalshi
    &&& b.symbol@ == field_str(v, "ticker"@)
    &&& kalshi_time(b.timestamp, v, "updated_time"@)
    &&& b.bid_price@ == field_str(v, "yes_bid_dollars"@)
    &&& b.bid_size@ == field_str(v, "yes_bid_size_fp"@)
    &&& b.ask_price@ == field_str(v, "yes_ask_dollars"@)
    &&& b.ask_size@ == field_str(v, "yes_ask_size_fp"@)
}

/// The page cursor of a body: its non-empty "cursor", else nothing.
pub open spec fn kalshi_cursor(j: JsonValue) -> Seq<char> {
    match spec_get(j, "cursor"@) {
        Some(c) => match spec_as_str(c) {
            Some(s) => s,
            None => Seq::empty(),
        },
        None => Seq::empty(),
    }
}

fn kalshi_time_exec(v: &JsonValue, key: &str) -> (t: Timestamp)
    ensures
        kalshi_time(t, *v, key@),
{
    match v.get(key) {
        Some(x) => match x.as_str() {
            Some(s) => if s.unicode_len() != 0 {
                match parse_rfc3339(s) {
                    Some(t) => t,
                    None => Timestamp::epoch(),
                }
            } else {
                Timestamp::epoch()
            },
            None => Timestamp::epoch(),
        },
        None => Timestamp::epoch(),
    }
}

fn kalshi_price_step_exec(v: &JsonValue) -> (r: String)
    ensures
        r@ == kalshi_price_step(*v),
{
    let null = JsonValue::Null;
    match member_or(v, "price_ranges", &null).at_index(0) {
        Some(first) => match first.get("step") {
            Some(s) => match s.as_str() {
                Some(t) => if t.unicode_len() != 0 { string_from(t) } else { string_from("0.01") },
                None => string_from("0.01"),
            },
            None => string_from("0.01"),
        },
        None => string_from("0.01"),
    }
}

fn kalshi_cursor_exec(j: &JsonValue) -> (r: String)
    ensures
        r@ == kalshi_cursor(*j),
{
    match j.get("cursor") {
        Some(c) => match c.as_str() {
            Some(s) => string_from(s),
            None => String::new(),
        },
        None => String::new(),
    }
}

impl KalshiClient {
    pub fn create_get_instrument_info_http_request(&self, request: &GetInstrumentInfoRequest) -> (r: HttpRequest)
        ensures
            kalshi_query(r, self.rest_api_base_url@, "/trade-api/v2/markets"@, kalshi_instrument_pairs(*request)),
    {
        let mut pairs: Vec<(String, String)> = Vec::new();
        assert(pair_views(pairs@) =~= Seq::empty());
        if request.symbol.as_str().unicode_len() != 0 {
            push_pair(&mut pairs, "tickers", request.symbol.as_str());
        }
        if request.limit > 0 {
            let limit = u64_to_string(request.limit as u64);
            push_pair(&mut pairs, "limit", limit.as_str());
        }
        if request.next_page_cursor.as_str().unicode_len() != 0 {
            push_pair(&mut pairs, "cursor", request.next_page_cursor.as_str());
        }
        assert(pair_views(pairs@) =~= kalshi_instrument_pairs(*request));
        query_request(self.rest_api_base_url.as_str(), HttpMethod::Get, "/trade-api/v2/markets", pairs)
    }

    pub fn create_get_top_of_book_http_request(&self, request: &GetTopOfBookRequest) -> (r: HttpRequest)
        ensures
            kalshi_query(
                r,
                self.rest_api_base_url@,
                "/trade-api/v2/markets"@,
                if request.symbol@.len() != 0 { seq![("tickers"@, request.symbol@)] } else { Seq::empty() },
            ),
    {
        let mut pairs: Vec<(String, String)> = Vec::new();
        assert(pair_views(pairs@) =~= Seq::empty());
        if request.symbol.as_str().unicode_len() != 0 {
            push_pair(&mut pairs, "tickers", request.symbol.as_str());
            assert(pair_views(pairs@) =~= seq![("tickers"@, request.symbol@)]);
        }
        query_request(self.rest_api_base_url.as_str(), HttpMethod::Get, "/trade-api/v2/markets", pairs)
    }

    pub fn create_place_order_http_request(&self, request: &PlaceOrderRequest) -> (r: HttpRequest)
        requires
            request.side != OrderSide::Unknown,
        ensures
            r.base_url@ == self.rest_api_base_url@,
            r.method == HttpMethod::Post,
            r.path@ == "/trade-api/v2/portfolio/events/orders"@,
            r.headers.entries@.len() == 0,
            r.query_params is None,
            r.query_string is None,
            has_json_body(r, kalshi_order_members(*request)),
    {
        let mut pairs: Vec<(String, String)> = Vec::new();
        assert(pair_views(pairs@) =~= Seq::empty());
        if request.client_order_id.as_str().unicode_len() != 0 {
            push_pair(&mut pairs, "client_order_id", request.client_order_id.as_str());
        }
        push_pair(&mut pairs, "count", request.quantity.as_str());
        push_pair(&mut pairs, "price", request.price.as_str());
        push_pair(&mut pairs, "self_trade_prevention_type", "taker_at_cross");
        push_pair(&mut pairs, "side", self.convert_order_side_to_string(request.side));
        push_pair(&mut pairs, "ticker", request.symbol.as_str());
        if request.order_type == OrderType::Market {
            push_pair(&mut pairs, "time_in_force", "fill_or_kill");
        } else {
            push_pair(&mut pairs, "time_in_force", "good_till_canceled");
        }
        assert(pair_views(pairs@) =~= kalshi_order_members(*request));
        json_request(self.rest_api_base_url.as_str(), HttpMethod::Post, "/trade-api/v2/portfolio/events/orders", &pairs)
    }

    pub fn create_cancel_order_http_request(&self, request: &CancelOrderRequest) -> (r: HttpRequest)
        ensures
            r.is_plain(self.rest_api_base_url@, HttpMethod::Delete, "/trade-api/v2/portfolio/events/orders/"@ + request.order_id@),
    {
        let mut path = string_from("/trade-api/v2/portfolio/events/orders/");
        push_str(&mut path, request.order_id.as_str());
        HttpRequest::new(self.rest_api_base_url.as_str(), HttpMethod::Delete, path.as_str(), None, None)
    }

    pub fn create_get_open_order_http_request(&self, request: &GetOpenOrderRequest) -> (r: HttpRequest)
        ensures
            kalshi_query(r, self.rest_api_base_url@, "/trade-api/v2/portfolio/orders"@, kalshi_open_order_pairs(*request)),
    {
        let mut pairs: Vec<(String, String)> = Vec::new();
        assert(pair_views(pairs@) =~= Seq::empty());
        if request.symbol.as_str().unicode_len() != 0 {
            push_pair(&mut pairs, "ticker", request.symbol.as_str());
        }
        push_pair(&mut pairs, "status", "resting");
        if request.limit > 0 {
            let limit = u64_to_string(request.limit as u64);
            push_pair(&mut pairs, "limit", limit.as_str());
        }
        if request.next_page_cursor.as_str().unicode_len() != 0 {
            push_pair(&mut pairs, "cursor", request.next_page_cursor.as_str());
        }
        assert(pair_views(pairs@) =~= kalshi_open_order_pairs(*request));
        query_request(self.rest_api_base_url.as_str(), HttpMethod::Get, "/trade-api/v2/portfolio/orders", pairs)
    }

    pub fn create_get_position_http_request(&self, request: &GetPositionRequest) -> (r: HttpRequest)
        ensures
            kalshi_query(r, self.rest_api_base_url@, "/trade-api/v2/portfolio/positions"@, kalshi_position_pairs(*request)),
    {
        let mut pairs: Vec<(String, String)> = Vec::new();
        assert(pair_views(pairs@) =~= Seq::empty());
        if request.symbol.as_str().unicode_len() != 0 {
            push_pair(&mut pairs, "ticker", request.symbol.as_str());
        }
        if request.limit > 0 {
            let limit = u64_to_string(request.limit as u64);
            push_pair(&mut pairs, "limit", limit.as_str());
        }
        if request.next_page_cursor.as_str().unicode_len() != 0 {
            push_pair(&mut pairs, "cursor", request.next_page_cursor.as_str());
        }
        assert(pair_views(pairs@) =~= kalshi_position_pairs(*request));
        query_request(self.rest_api_base_url.as_str(), HttpMethod::Get, "/trade-api/v2/portfolio/positions", pairs)
    }

    pub fn create_get_balance_http_request(&self, _request: &GetBalanceRequest) -> (r: HttpRequest)
        ensures
            r.is_plain(self.rest_api_base_url@, HttpMethod::Get, "/trade-api/v2/portfolio/balance"@),
    {
        HttpRequest::new(self.rest_api_base_url.as_str(), HttpMethod::Get, "/trade-api/v2/portfolio/balance", None, None)
    }

    /// Signs the request at the given time: the key, the time in milliseconds and the
    /// signature of the time, method and path as headers. False, with the request
    /// unchanged, where the key cannot be a header value or `openssl` cannot sign.
    pub fn sign_http_request(&self, http_request: &mut HttpRequest, now: Timestamp) -> (signed: bool)
        requires
            self.credential is Some,
            timestamp_valid(now),
        ensures
            !header_value_ok(self.credential->0.api_key@) ==> !signed,
            !signed ==> *final(http_request) == *old(http_request),
            signed ==> kalshi_signed(
                *old(http_request),
                *final(http_request),
                self.credential->0.api_key@,
                self.credential->0.private_key_pem@,
                int_text(millis_of(now)),
            ),
    {
        let c = self.credential.as_ref().unwrap();
        if !is_header_value(c.api_key.as_str()) {
            return false;
        }
        let timestamp = i64_to_string(timestamp_millis(now));
        let base_path = match parse_url_path(http_request.base_url.as_str()) {
            Some(p) => trim_end_matches_text(p.as_str(), "/"),
            None => String::new(),
        };
        let mut sign_path = base_path;
        push_str(&mut sign_path, http_request.path.as_str());
        let signature = match self.build_signature(timestamp.as_str(), http_request.method.as_str(), sign_path.as_str()) {
            Some(s) => s,
            None => return false,
        };
        http_request.headers.insert(string_from("kalshi-access-key"), c.api_key.clone());
        http_request.headers.insert(string_from("kalshi-access-timestamp"), timestamp);
        http_request.headers.insert(string_from("kalshi-access-signature"), signature);
        proof {
            reveal_strlit("kalshi-access-key");
            reveal_strlit("kalshi-access-timestamp");
            reveal_strlit("kalshi-access-signature");
            assert("kalshi-access-key"@.len() != "kalshi-access-timestamp"@.len());
            assert("kalshi-access-key"@.len() != "kalshi-access-signature"@.len());
            assert("kalshi-access-timestamp"@[14] != "kalshi-access-signature"@[14]);
        }
        true
    }

    /// The request that the builder of the request's kind makes, before any signature.
    pub open spec fn http_request_for(&self, request: Request, r: HttpRequest) -> bool {
        let base = self.rest_api_base_url@;
        match request {
            Request::GetInstrumentInfo(q) => kalshi_query(r, base, "/trade-api/v2/markets"@, kalshi_instrument_pairs(q)),
            Request::GetTopOfBook(q) => kalshi_query(
                r,
                base,
                "/trade-api/v2/markets"@,
                if q.symbol@.len() != 0 { seq![("tickers"@, q.symbol@)] } else { Seq::empty() },
            ),
            Request::PlaceOrder(q) => {
                &&& r.base_url@ == base
                &&& r.method == HttpMethod::Post
                &&& r.path@ == "/trade-api/v2/portfolio/events/orders"@
                &&& r.headers.entries@.len() == 0
                &&& r.query_params is None
                &&& r.query_string is None
                &&& has_json_body(r, kalshi_order_members(q))
            },
            Request::CancelOrder(q) => r.is_plain(base, HttpMethod::Delete, "/trade-api/v2/portfolio/events/orders/"@ + q.order_id@),
            Request::GetOpenOrder(q) => kalshi_query(r, base, "/trade-api/v2/portfolio/orders"@, kalshi_open_order_pairs(q)),
            Request::GetPosition(q) => kalshi_query(r, base, "/trade-api/v2/portfolio/positions"@, kalshi_position_pairs(q)),
            Request::GetBalance(_) => r.is_plain(base, HttpMethod::Get, "/trade-api/v2/portfolio/balance"@),
            _ => false,
        }
    }

    /// The REST requests this client can send: orders of a known side, and private
    /// requests only with a credential.
    pub open spec fn rest_request_ok(&self, request: Request) -> bool {
        &&& is_rest_request(request)
        &&& is_private_request(request) ==> self.credential is Some
        &&& request matches Request::PlaceOrder(q) ==> q.side != OrderSide::Unknown
    }

    /// The HTTP request for a REST request at the given time: built by its kind, and
    /// signed when it is private. None where it could not be signed.
    pub fn create_http_request(&self, request: &Request, now: Timestamp) -> (r: Option<HttpRequest>)
        requires
            self.rest_request_ok(*request),
            timestamp_valid(now),
        ensures
            !is_private_request(*request) ==> (r matches Some(h) && self.http_request_for(*request, h)),
            is_private_request(*request) ==> match r {
                Some(h) => exists|u: HttpRequest| #[trigger] self.http_request_for(*request, u) && kalshi_signed(
                    u,
                    h,
                    self.credential->0.api_key@,
                    self.credential->0.private_key_pem@,
                    int_text(millis_of(now)),
                ),
                None => true,
            },
    {
        let mut http_request = match request {
            Request::GetInstrumentInfo(q) => return Some(self.create_get_instrument_info_http_request(q)),
            Request::GetTopOfBook(q) => return Some(self.create_get_top_of_book_http_request(q)),
            Request::PlaceOrder(q) => self.create_place_order_http_request(q),
            Request::CancelOrder(q) => self.create_cancel_order_http_request(q),
            Request::GetOpenOrder(q) => self.create_get_open_order_http_request(q),
            Request::GetPosition(q) => self.create_get_position_http_request(q),
            Request::GetBalance(q) => self.create_get_balance_http_request(q),
            _ => return None,
        };
        let ghost unsigned = http_request;
        assert(self.http_request_for(*request, unsigned));
        if self.sign_http_request(&mut http_request, now) {
            Some(http_request)
        } else {
            None
        }
    }
}

impl KalshiClient {
    /// One instrument per market, and the page cursor, where "markets" is an array;
    /// nothing otherwise.
    pub open spec fn instrument_info_response(&self, resp: HttpResponse, r: Response) -> bool {
        let j = resp.json_payload->0;
        let items = items_of(spec_at(j, "markets"@));
        r matches Response::GetInstrumentInfo(g) && g.data@.len() == items.len() && g.next_page_cursor@ == (if crate::json::spec_as_array(
            spec_at(j, "markets"@),
        ) is Some {
            kalshi_cursor(j)
        } else {
            Seq::empty()
        }) && forall|i: int| 0 <= i < items.len() ==> kalshi_instrument_matches(#[trigger] g.data@[i], items[i])
    }

    pub fn create_get_instrument_info_rest_response(&self, http_response: HttpResponse) -> (r: Response)
        requires
            http_response.json_payload is Some,
        ensures
            self.instrument_info_response(http_response, r),
    {
        let json = http_response.json_payload.unwrap();
        let null = JsonValue::Null;
        let markets = member_or(&json, "markets", &null);
        if markets.as_array().is_none() {
            return Response::GetInstrumentInfo(GetInstrumentInfoResponse { data: Vec::new(), next_page_cursor: String::new() });
        }
        let empty: Vec<JsonValue> = Vec::new();
        let items = items_exec(markets, &empty);
        let mut data: Vec<InstrumentInfo> = Vec::new();
        let mut i: usize = 0;
        while i < items.len()
            invariant
                items@ == items_of(spec_at(json, "markets"@)),
                i <= items@.len(),
                data@.len() == i,
                forall|k: int| 0 <= k < i ==> kalshi_instrument_matches(#[trigger] data@[k], items@[k]),
            decreases items.len() - i,
        {
            let v = &items[i];
            data.push(InstrumentInfo {
                exchange_instrument_type: ExchangeInstrumentType::Kalshi,
                symbol: v.field_str("ticker"),
                base_asset: String::new(),
                quote_asset: string_from("USD"),
                order_price_increment: kalshi_price_step_exec(v),
                order_quantity_increment: string_from("1"),
                order_quantity_min: string_from("1"),
                order_quantity_max: String::new(),
                order_quote_quantity_min: string_from("0"),
                order_quote_quantity_max: String::new(),
                settle_asset: String::new(),
                underlying_symbol: String::new(),
                contract_size: String::new(),
                expiry_timestamp: kalshi_time_exec(v, "close_time"),
            });
            i = i + 1;
        }
        Response::GetInstrumentInfo(GetInstrumentInfoResponse { data, next_page_cursor: kalshi_cursor_exec(&json) })
    }

    /// One book per market of "markets".
    pub open spec fn top_of_book_response(&self, resp: HttpResponse, r: Response) -> bool {
        let items = items_of(spec_at(resp.json_payload->0, "markets"@));
        r matches Response::GetTopOfBook(g) && g.data@.len() == items.len() && forall|i: int|
            0 <= i < items.len() ==> kalshi_book_matches(#[trigger] g.data@[i], items[i])
    }

    pub fn create_get_top_of_book_rest_response(&self, http_response: HttpResponse) -> (r: Response)
        requires
            http_response.json_payload is Some,
        ensures
            self.top_of_book_response(http_response, r),
    {
        let json = http_response.json_payload.unwrap();
        let null = JsonValue::Null;
        let empty: Vec<JsonValue> = Vec::new();
        let items = items_exec(member_or(&json, "markets", &null), &empty);
        let mut data: Vec<TopOfBook> = Vec::new();
        let mut i: usize = 0;
        while i < items.len()
            invariant
                items@ == items_of(spec_at(json, "markets"@)),
                i <= items@.len(),
                data@.len() == i,
                forall|k: int| 0 <= k < i ==> kalshi_book_matches(#[trigger] data@[k], items@[k]),
            decreases items.len() - i,
        {
            let v = &items[i];
            data.push(TopOfBook {
                exchange_instrument_type: ExchangeInstrumentType::Kalshi,
                symbol: v.field_str("ticker"),
                timestamp: kalshi_time_exec(v, "updated_time"),
                bid_price: v.field_str("yes_bid_dollars"),
                bid_size: v.field_str("yes_bid_size_fp"),
                ask_price: v.field_str("yes_ask_dollars"),
                ask_size: v.field_str("yes_ask_size_fp"),
            });
            i = i + 1;
        }
        Response::GetTopOfBook(GetTopOfBookResponse { data })
    }

    pub fn create_place_order_rest_response(&self, http_response: HttpResponse) -> (r: Response)
        requires
            http_response.json_payload is Some,
        ensures
            r matches Response::PlaceOrder(p) && p.order_id@ == field_str(http_response.json_payload->0, "order_id"@),
    {
        let json = http_response.json_payload.unwrap();
        Response::PlaceOrder(PlaceOrderResponse { order_id: json.field_str("order_id") })
    }

    pub fn create_cancel_order_rest_response(&self, _http_response: HttpResponse) -> (r: Response)
        ensures
            r is CancelOrder,
    {
        Response::CancelOrder(CancelOrderResponse {})
    }

    /// The orders of "orders", and the page cursor.
    pub open spec fn open_order_response(&self, resp: HttpResponse, r: Response) -> bool {
        let j = resp.json_payload->0;
        let items = items_of(spec_at(j, "orders"@));
        r matches Response::GetOpenOrder(g) && g.next_page_cursor@ == kalshi_cursor(j) && g.data@.len() == items.len()
            && forall|i: int| 0 <= i < items.len() ==> kalshi_order_matches(#[trigger] g.data@[i], items[i])
    }

    pub fn create_get_open_order_rest_response(&self, http_response: HttpResponse) -> (r: Response)
        requires
            http_response.json_payload is Some,
        ensures
            self.open_order_response(http_response, r),
    {
        let json = http_response.json_payload.unwrap();
        let null = JsonValue::Null;
        let empty: Vec<JsonValue> = Vec::new();
        let items = items_exec(member_or(&json, "orders", &null), &empty);
        let mut data: Vec<Order> = Vec::new();
        let mut i: usize = 0;
        while i < items.len()
            invariant
                items@ == items_of(spec_at(json, "orders"@)),
                i <= items@.len(),
                data@.len() == i,
                forall|k: int| 0 <= k < i ==> kalshi_order_matches(#[trigger] data@[k], items@[k]),
            decreases items.len() - i,
        {
            data.push(self.convert_json_value_to_order(&items[i]));
            i = i + 1;
        }
        Response::GetOpenOrder(GetOpenOrderResponse { data, next_page_cursor: kalshi_cursor_exec(&json) })
    }

    /// The positions of "market_positions", and the page cursor.
    pub open spec fn position_response(&self, resp: HttpResponse, r: Response) -> bool {
        let j = resp.json_payload->0;
        let items = items_of(spec_at(j, "market_positions"@));
        r matches Response::GetPosition(g) && g.next_page_cursor@ == kalshi_cursor(j) && g.data@.len() == items.len()
            && forall|i: int| 0 <= i < items.len() ==> kalshi_position_matches(#[trigger] g.data@[i], items[i])
    }

    pub fn create_get_position_rest_response(&self, http_response: HttpResponse) -> (r: Response)
        requires
            http_response.json_payload is Some,
        ensures
            self.position_response(http_response, r),
    {
        let json = http_response.json_payload.unwrap();
        let null = JsonValue::Null;
        let empty: Vec<JsonValue> = Vec::new();
        let items = items_exec(member_or(&json, "market_positions", &null), &empty);
        let mut data: Vec<Position> = Vec::new();
        let mut i: usize = 0;
        while i < items.len()
            invariant
                items@ == items_of(spec_at(json, "market_positions"@)),
                i <= items@.len(),
                data@.len() == i,
                forall|k: int| 0 <= k < i ==> kalshi_position_matches(#[trigger] data@[k], items@[k]),
            decreases items.len() - i,
        {
            data.push(self.convert_json_value_to_position(&items[i]));
            i = i + 1;
        }
        Response::GetPosition(GetPositionResponse { data, next_page_cursor: kalshi_cursor_exec(&json) })
    }

    /// The one balance, in dollars, of the body.
    pub fn create_get_balance_rest_response(&self, http_response: HttpResponse) -> (r: Response)
        requires
            http_response.json_payload is Some,
        ensures
            r matches Response::GetBalance(g) && g.data@.len() == 1 && kalshi_balance_matches(
                g.data@[0],
                http_response.json_payload->0,
            ),
    {
        let json = http_response.json_payload.unwrap();
        let mut data = Vec::new();
        data.push(self.convert_json_value_to_balance(&json));
        Response::GetBalance(GetBalanceResponse { data })
    }

    /// The response itself, with Kalshi's "code" and "message" where it has a JSON body.
    pub open spec fn error_response(&self, resp: HttpResponse, r: Response) -> bool {
        &&& r matches Response::HttpErrorResponse(e) && e.http_request == resp.http_request && e.status == resp.status
                && e.body == resp.body && e.json_payload == resp.json_payload
                && match resp.json_payload {
                Some(j) => opt_view(e.error_code) == (match spec_get(j, "code"@) {
                    Some(c) => spec_as_str(c),
                    None => None,
                }) && opt_view(e.error_message) == (match spec_get(j, "message"@) {
                    Some(m) => spec_as_str(m),
                    None => None,
                }),
                None => e.error_code == resp.error_code && e.error_message == resp.error_message,
            }
    }

    pub fn create_http_error_response(&self, http_response: HttpResponse) -> (r: Response)
        ensures
            self.error_response(http_response, r),
    {
        let mut response = http_response;
        match &response.json_payload {
            Some(j) => {
                let code = match j.get("code") {
                    Some(c) => match c.as_str() {
                        Some(s) => Some(string_from(s)),
                        None => None,
                    },
                    None => None,
                };
                let message = match j.get("message") {
                    Some(m) => match m.as_str() {
                        Some(s) => Some(string_from(s)),
                        None => None,
                    },
                    None => None,
                };
                response.error_code = code;
                response.error_message = message;
            },
            None => {},
        }
        Response::HttpErrorResponse(response)
    }

    /// What the converter of the request's kind makes of a successful response.
    pub open spec fn rest_response(&self, request: Request, resp: HttpResponse, r: Response) -> bool {
        match request {
            Request::GetInstrumentInfo(_) => self.instrument_info_response(resp, r),
            Request::GetTopOfBook(_) => self.top_of_book_response(resp, r),
            Request::PlaceOrder(_) => r matches Response::PlaceOrder(p) && p.order_id@ == field_str(
                resp.json_payload->0,
                "order_id"@,
            ),
            Request::CancelOrder(_) => r is CancelOrder,
            Request::GetOpenOrder(_) => self.open_order_response(resp, r),
            Request::GetPosition(_) => self.position_response(resp, r),
            Request::GetBalance(_) => r matches Response::GetBalance(g) && g.data@.len() == 1 && kalshi_balance_matches(
                g.data@[0],
                resp.json_payload->0,
            ),
            _ => false,
        }
    }

    /// What a successful response must hold for the converter of the request's kind: a
    /// JSON body, but for a cancellation.
    pub open spec fn rest_response_ok(request: Request, resp: HttpResponse) -> bool {
        request is CancelOrder || resp.json_payload is Some
    }

    /// The response to a REST request: the error response where the status is not a
    /// success, else what the converter of the request's kind makes of it. None where a
    /// successful response lacks a JSON body that the converter reads.
    pub fn create_rest_response(&self, request: &Request, http_response: HttpResponse) -> (r: Option<Response>)
        requires
            is_rest_request(*request),
        ensures
            !status_is_success(http_response.status) ==> (r matches Some(e) && self.error_response(http_response, e)),
            status_is_success(http_response.status) ==> (r is None <==> !Self::rest_response_ok(*request, http_response)),
            status_is_success(http_response.status) ==> (r matches Some(p) ==> answers(*request, p)
                && self.rest_response(*request, http_response, p)),
    {
        if !http_response.is_status_success() {
            return Some(self.create_http_error_response(http_response));
        }
        if let Request::CancelOrder(_) = request {
            return Some(self.create_cancel_order_rest_response(http_response));
        }
        if http_response.json_payload.is_none() {
            return None;
        }
        let r = match request {
            Request::GetInstrumentInfo(_) => self.create_get_instrument_info_rest_response(http_response),
            Request::GetTopOfBook(_) => self.create_get_top_of_book_rest_response(http_response),
            Request::PlaceOrder(_) => self.create_place_order_rest_response(http_response),
            Request::GetOpenOrder(_) => self.create_get_open_order_rest_response(http_response),
            Request::GetPosition(_) => self.create_get_position_rest_response(http_response),
            _ => self.create_get_balance_rest_response(http_response),
        };
        Some(r)
    }
}

} // verus!
