//! Bitstamp's REST API: the requests, their signature, and the responses.

use vstd::prelude::*;
use vstd::utf8::encode_utf8;
use crate::exchange_client::common::{
    CancelOrderRequest, GetBalanceRequest, GetInstrumentInfoRequest, GetOpenOrderRequest,
    GetPositionRequest, GetTopOfBookRequest, PlaceOrderRequest,
};
use crate::exchanges::bitstamp::common::BitstampClient;
use crate::networking::http::{
    push_pair, header_value_ok, method_text, payload_or_empty, query_or_empty, HttpMethod, HttpRequest,
};
use crate::signing::{
    form_text, form_urlencode, hex_encode, hex_text, hmac_sha256, hmac_sha256_tag, new_uuid_v4,
    pair_views, parse_url_host,
};
use crate::str_map::StrMap;
use crate::text::{i64_to_string, int_text, push_str, string_from};
use crate::time::{millis_of, timestamp_millis, timestamp_valid};
use crate::types::{
    Balance, Exchange, ExchangeInstrumentType, InstrumentInfo, Order, OrderSide, OrderType, Position,
    Timestamp, TopOfBook,
};
use crate::exchange_client::common::{
    answers, is_private_request, is_rest_request, Request,
};
use crate::exchange_client::common::{
    CancelOrderResponse, GetBalanceResponse, GetInstrumentInfoResponse, GetOpenOrderResponse,
    GetPositionResponse, GetTopOfBookResponse, PlaceOrderResponse, Response,
};
use crate::json::{
    field_str, spec_as_array, spec_as_str, spec_as_u64, spec_at, spec_get, str_or_u64_text, JsonValue,
};
use crate::networking::http::{status_is_success, HttpResponse};
use crate::exchanges::bitstamp::common::bitstamp_order_matches;
use crate::text::{parse_i64_spec, push_char};
use crate::time::{from_seconds_or_epoch, timestamp_from_seconds_or_epoch};

verus! {

/// "/api/v2/<name>/" where the symbol is empty, "/api/v2/<name>/<symbol>/" otherwise.
pub open spec fn symbol_path(name: Seq<char>, symbol: Seq<char>) -> Seq<char> {
    if symbol.len() == 0 {
        "/api/v2/"@ + name + "/"@
    } else {
        "/api/v2/"@ + name + "/"@ + symbol + "/"@
    }
}

fn symbol_path_exec(name: &str, symbol: &str) -> (r: String)
    ensures
        r@ == symbol_path(name@, symbol@),
{
    let mut p = string_from("/api/v2/");
    push_str(&mut p, name);
    push_str(&mut p, "/");
    if symbol.unicode_len() != 0 {
        push_str(&mut p, symbol);
        push_str(&mut p, "/");
    }
    p
}

/// The text Bitstamp signs: the X-Auth value, method, host, path, query, content
/// type, nonce, timestamp, version "v2", then the body.
pub open spec fn bitstamp_message(
    x_auth: Seq<char>,
    method: Seq<char>,
    host: Seq<char>,
    path: Seq<char>,
    query: Seq<char>,
    nonce: Seq<char>,
    timestamp: Seq<char>,
    body: Seq<char>,
) -> Seq<char> {
    let content_type = if body.len() == 0 { Seq::empty() } else { "application/x-www-form-urlencoded"@ };
    x_auth + method + host + path + query + content_type + nonce + timestamp + "v2"@ + body
}

/// The order parameters Bitstamp takes, in the order they are written.
pub open spec fn place_order_pairs(req: PlaceOrderRequest) -> Seq<(Seq<char>, Seq<char>)> {
    let a = seq![("amount"@, req.quantity@)];
    let b = if req.order_type == OrderType::Limit { a.push(("price"@, req.price@)) } else { a };
    let c = if req.client_order_id@.len() != 0 { b.push(("client_order_id"@, req.client_order_id@)) } else { b };
    if req.leverage@.len() != 0 {
        c.push(("margin_mode"@, "CROSS"@)).push(("leverage"@, req.leverage@))
    } else {
        c
    }
}

pub open spec fn side_text(side: OrderSide) -> Seq<char> {
    if side == OrderSide::Buy { "buy"@ } else { "sell"@ }
}

pub open spec fn place_order_path(req: PlaceOrderRequest) -> Seq<char> {
    if req.order_type == OrderType::Limit {
        "/api/v2/"@ + side_text(req.side) + "/"@ + req.symbol@ + "/"@
    } else {
        "/api/v2/"@ + side_text(req.side) + "/market/"@ + req.symbol@ + "/"@
    }
}

impl BitstampClient {
    /// A form-encoded order to the order's path.
    pub open spec fn place_order_http_request(&self, request: PlaceOrderRequest, r: HttpRequest) -> bool {
        &&& r.base_url@ == self.rest_api_base_url@
        &&& r.method == HttpMethod::Post
        &&& r.path@ == place_order_path(request)
        &&& r.headers.entries@.len() == 0
        &&& r.query_string is None
        &&& r.json_payload is None
        &&& r.payload matches Some(p) && p@ == form_text(place_order_pairs(request))
    }

    /// A form-encoded cancellation, by order id where one is given, by client order id otherwise.
    pub open spec fn cancel_order_http_request(&self, request: CancelOrderRequest, r: HttpRequest) -> bool {
        &&& r.base_url@ == self.rest_api_base_url@
        &&& r.method == HttpMethod::Post
        &&& r.path@ == "/api/v2/cancel_order/"@
        &&& r.headers.entries@.len() == 0
        &&& r.query_string is None
        &&& r.json_payload is None
        &&& r.payload matches Some(p) && p@ == form_text(
            if request.order_id@.len() != 0 {
                seq![("id"@, request.order_id@)]
            } else {
                seq![("client_order_id"@, request.client_order_id@)]
            },
        )
    }

    /// The signed request: the unsigned one with the X-Auth headers, its signature made
    /// with the host of the base URL, a 36-character nonce and the time in milliseconds.
    pub open spec fn signed_http_request(&self, old_req: HttpRequest, new_req: HttpRequest, now: Timestamp) -> bool {
        let c = self.credential->0;
        &&& crate::signing::url_host(self.rest_api_base_url@) is Some
        &&& new_req.base_url == old_req.base_url
        &&& new_req.method == old_req.method
        &&& new_req.path == old_req.path
        &&& new_req.query_string == old_req.query_string
        &&& new_req.payload == old_req.payload
        &&& new_req.headers.spec_get("x-auth"@) == Some("BITSTAMP "@ + c.api_key@)
        &&& new_req.headers.spec_get("x-auth-timestamp"@) == Some(int_text(millis_of(now)))
        &&& new_req.headers.spec_get("x-auth-version"@) == Some("v2"@)
        &&& new_req.headers.spec_get("x-auth-nonce"@) is Some
        &&& new_req.headers.spec_get("content-type"@) == if payload_or_empty(old_req).len() == 0 {
            None
        } else {
            Some("application/x-www-form-urlencoded"@)
        }
        &&& new_req.headers.spec_get("x-auth-signature"@) == Some(
                hex_text(hmac_sha256_tag(encode_utf8(c.api_secret@), encode_utf8(bitstamp_message(
                    "BITSTAMP "@ + c.api_key@,
                    method_text(old_req.method),
                    crate::signing::url_host(self.rest_api_base_url@)->0,
                    old_req.path@,
                    query_or_empty(old_req),
                    new_req.headers.spec_get("x-auth-nonce"@)->0,
                    int_text(millis_of(now)),
                    payload_or_empty(old_req),
                )))))
        &&& forall|k: Seq<char>| k != "x-auth"@ && k != "x-auth-signature"@ && k != "x-auth-nonce"@ && k != "x-auth-timestamp"@ && k != "x-auth-version"@ && k != "content-type"@ ==> new_req.headers.spec_get(k) == old_req.headers.spec_get(k)
    }

    /// The request that the builder of the request's kind makes, before any signature.
    pub open spec fn http_request_for(&self, request: Request, r: HttpRequest) -> bool {
        let base = self.rest_api_base_url@;
        match request {
            Request::GetInstrumentInfo(_) => r.is_plain(base, HttpMethod::Get, "/api/v2/markets/"@),
            Request::GetTopOfBook(q) => r.is_plain(base, HttpMethod::Get, symbol_path("ticker"@, q.symbol@)),
            Request::PlaceOrder(q) => self.place_order_http_request(q, r),
            Request::CancelOrder(q) => self.cancel_order_http_request(q, r),
            Request::GetOpenOrder(q) => r.is_plain(base, HttpMethod::Post, symbol_path("open_orders"@, q.symbol@)),
            Request::GetPosition(q) => r.is_plain(base, HttpMethod::Get, symbol_path("open_positions"@, q.symbol@)),
            Request::GetBalance(_) => r.is_plain(base, HttpMethod::Post, "/api/v2/account_balances/"@),
            _ => false,
        }
    }

    /// The REST requests this client can send: orders of a known side and type, and
    /// private requests only with a credential.
    pub open spec fn rest_request_ok(&self, request: Request) -> bool {
        &&& is_rest_request(request)
        &&& is_private_request(request) ==> self.credential is Some
        &&& request matches Request::PlaceOrder(q) ==> q.side != OrderSide::Unknown && q.order_type
            != OrderType::Unknown
    }

    /// The HTTP request for a REST request at the given time and with the given nonce:
    /// built by its kind, and signed when it is private. None exactly where a private
    /// request cannot be signed.
    pub fn create_http_request_with_nonce(&self, request: &Request, now: Timestamp, nonce: &str) -> (r: Option<HttpRequest>)
        requires
            self.rest_request_ok(*request),
            timestamp_valid(now),
        ensures
            !is_private_request(*request) ==> (r matches Some(h) && self.http_request_for(*request, h)),
            is_private_request(*request) ==> match r {
                Some(h) => exists|u: HttpRequest| #[trigger] self.http_request_for(*request, u)
                    && self.signed_http_request(u, h, now),
                None => true,
            },
            is_private_request(*request) ==> (r is Some <==> (self.can_sign() && header_value_ok(nonce@))),
            is_private_request(*request) ==> (r matches Some(h) ==> h.headers.spec_get("x-auth-nonce"@) == Some(nonce@)),
    {
        let mut http_request = match request {
            Request::GetInstrumentInfo(q) => return Some(self.create_get_instrument_info_http_request(q)),
            Request::GetTopOfBook(q) => return Some(self.create_get_top_of_book_http_request(q)),
            Request::PlaceOrder(q) => self.create_place_order_http_request(q),
            Request::CancelOrder(q) => self.create_cancel_order_http_request(q),
            Request::GetOpenOrder(q) => self.create_get_open_order_http_request(q),
            Request::GetPosition(q) => self.create_get_position_http_request(q),
            Request::GetBalance(q) => self.create_get_balance_http_request(q),
            _ => return None,
        };
        let ghost unsigned = http_request;
        assert(self.http_request_for(*request, unsigned));
        if self.sign_http_request_with_nonce(&mut http_request, now, nonce) {
            Some(http_request)
        } else {
            None
        }
    }

    /// The HTTP request for a REST request at the given time: built by its kind, and
    /// signed when it is private. None where the signature could not be made.
    pub fn create_http_request(&self, request: &Request, now: Timestamp) -> (r: Option<HttpRequest>)
        requires
            self.rest_request_ok(*request),
            timestamp_valid(now),
        ensures
            !is_private_request(*request) ==> (r matches Some(h) && self.http_request_for(*request, h)),
            is_private_request(*request) ==> match r {
                Some(h) => exists|u: HttpRequest| #[trigger] self.http_request_for(*request, u)
                    && self.signed_http_request(u, h, now),
                None => true,
            },
            is_private_request(*request) ==> (r is Some ==> self.can_sign()),
    {
        let mut http_request = match request {
            Request::GetInstrumentInfo(q) => return Some(self.create_get_instrument_info_http_request(q)),
            Request::GetTopOfBook(q) => return Some(self.create_get_top_of_book_http_request(q)),
            Request::PlaceOrder(q) => self.create_place_order_http_request(q),
            Request::CancelOrder(q) => self.create_cancel_order_http_request(q),
            Request::GetOpenOrder(q) => self.create_get_open_order_http_request(q),
            Request::GetPosition(q) => self.create_get_position_http_request(q),
            Request::GetBalance(q) => self.create_get_balance_http_request(q),
            _ => return None,
        };
        let ghost unsigned = http_request;
        assert(self.http_request_for(*request, unsigned));
        if self.sign_http_request(&mut http_request, now) {
            Some(http_request)
        } else {
            None
        }
    }

    /// The response to a REST request: the error response where the HTTP response is not
    /// a success, else what the converter of the request's kind makes of it.
    pub fn create_rest_response(&self, request: &Request, http_response: HttpResponse) -> (r: Response)
        requires
            is_rest_request(*request),
        ensures
            !(status_is_success(http_response.status) && http_response.json_payload is Some)
                ==> error_response(http_response, r),
            status_is_success(http_response.status) && http_response.json_payload is Some ==> answers(
                *request,
                r,
            ) && rest_response(*request, http_response, r),
    {
        if !self.is_http_response_success(&http_response) {
            return self.create_http_error_response(http_response);
        }
        match request {
            Request::GetInstrumentInfo(_) => self.create_get_instrument_info_rest_response(http_response),
            Request::GetTopOfBook(_) => self.create_get_top_of_book_rest_response(http_response),
            Request::PlaceOrder(_) => self.create_place_order_rest_response(http_response),
            Request::CancelOrder(_) => self.create_cancel_order_rest_response(http_response),
            Request::GetOpenOrder(_) => self.create_get_open_order_rest_response(http_response),
            Request::GetPosition(_) => self.create_get_position_rest_response(http_response),
            Request::GetBalance(_) => self.create_get_balance_rest_response(http_response),
            _ => self.create_http_error_response(http_response),
        }
    }
}

impl BitstampClient {
    pub fn create_get_instrument_info_http_request(&self, _request: &GetInstrumentInfoRequest) -> (r: HttpRequest)
        ensures
            r.is_plain(self.rest_api_base_url@, HttpMethod::Get, "/api/v2/markets/"@),
    {
        HttpRequest::new(self.rest_api_base_url.as_str(), HttpMethod::Get, "/api/v2/markets/", None, None)
    }

    pub fn create_get_top_of_book_http_request(&self, request: &GetTopOfBookRequest) -> (r: HttpRequest)
        ensures
            r.is_plain(self.rest_api_base_url@, HttpMethod::Get, symbol_path("ticker"@, request.symbol@)),
    {
        let path = symbol_path_exec("ticker", request.symbol.as_str());
        HttpRequest::new(self.rest_api_base_url.as_str(), HttpMethod::Get, path.as_str(), None, None)
    }

    /// Signs the request with the given host, nonce and time: the X-Auth headers, and the
    /// content type when there is a body (removed when there is none).
    pub fn sign_http_request_with(&self, http_request: &mut HttpRequest, host: &str, nonce: &str, timestamp: &str)
        requires
            self.credential is Some,
            header_value_ok("BITSTAMP "@ + self.credential->0.api_key@),
            header_value_ok(nonce@),
            header_value_ok(timestamp@),
        ensures
            ({
                let c = self.credential->0;
                let x_auth = "BITSTAMP "@ + c.api_key@;
                let old_req = *old(http_request);
                let message = bitstamp_message(
                    x_auth,
                    method_text(old_req.method),
                    host@,
                    old_req.path@,
                    query_or_empty(old_req),
                    nonce@,
                    timestamp@,
                    payload_or_empty(old_req),
                );
                let new_req = *final(http_request);
                &&& new_req.base_url == old_req.base_url
                &&& new_req.method == old_req.method
                &&& new_req.path == old_req.path
                &&& new_req.query_string == old_req.query_string
                &&& new_req.payload == old_req.payload
                &&& new_req.headers.spec_get("x-auth"@) == Some(x_auth)
                &&& new_req.headers.spec_get("x-auth-signature"@) == Some(
                    hex_text(hmac_sha256_tag(encode_utf8(c.api_secret@), encode_utf8(message))),
                )
                &&& new_req.headers.spec_get("x-auth-nonce"@) == Some(nonce@)
                &&& new_req.headers.spec_get("x-auth-timestamp"@) == Some(timestamp@)
                &&& new_req.headers.spec_get("x-auth-version"@) == Some("v2"@)
                &&& new_req.headers.spec_get("content-type"@) == if payload_or_empty(old_req).len() == 0 {
                    None
                } else {
                    Some("application/x-www-form-urlencoded"@)
                }
                &&& forall|k: Seq<char>| k != "x-auth"@ && k != "x-auth-signature"@ && k != "x-auth-nonce"@ && k
                    != "x-auth-timestamp"@ && k != "x-auth-version"@ && k != "content-type"@ ==> new_req.headers.spec_get(k)
                    == old_req.headers.spec_get(k)
            }),
    {
        let c = self.credential.as_ref().unwrap();
        let mut x_auth = string_from("BITSTAMP ");
        push_str(&mut x_auth, c.api_key.as_str());
        let query = http_request.query_or_empty();
        let body = http_request.payload_or_empty();
        let mut message = x_auth.clone();
        push_str(&mut message, http_request.method.as_str());
        push_str(&mut message, host);
        push_str(&mut message, http_request.path.as_str());
        push_str(&mut message, query.as_str());
        let has_body = body.as_str().unicode_len() != 0;
        if has_body {
            push_str(&mut message, "application/x-www-form-urlencoded");
        }
        push_str(&mut message, nonce);
        push_str(&mut message, timestamp);
        push_str(&mut message, "v2");
        push_str(&mut message, body.as_str());
        let ghost old_req = *old(http_request);
        assert(message@ =~= bitstamp_message(
            "BITSTAMP "@ + c.api_key@,
            method_text(old_req.method),
            host@,
            old_req.path@,
            query_or_empty(old_req),
            nonce@,
            timestamp@,
            payload_or_empty(old_req),
        ));
        let tag = hmac_sha256(c.api_secret.as_str().as_bytes(), message.as_str().as_bytes());
        let signature = hex_encode(tag.as_slice());
        proof {
            reveal_strlit("x-auth");
            reveal_strlit("x-auth-signature");
            reveal_strlit("x-auth-nonce");
            reveal_strlit("x-auth-timestamp");
            reveal_strlit("x-auth-version");
            reveal_strlit("content-type");
        }
        let ghost xa = x_auth@;
        assert("x-auth"@.len() == 6);
        assert("x-auth-signature"@.len() == 16);
        assert("x-auth-nonce"@.len() == 12);
        assert("x-auth-timestamp"@.len() == 16);
        assert("x-auth-version"@.len() == 14);
        assert("content-type"@.len() == 12);
        assert("x-auth-signature"@[7] != "x-auth-timestamp"@[7]);
        assert("x-auth-nonce"@[0] != "content-type"@[0]);
        let ghost sg = signature@;
        assert("x-auth"@ != "x-auth-signature"@ && "x-auth"@ != "x-auth-nonce"@ && "x-auth"@ != "x-auth-timestamp"@
            && "x-auth"@ != "x-auth-version"@ && "x-auth"@ != "content-type"@);
        assert("x-auth-signature"@ != "x-auth-nonce"@ && "x-auth-signature"@ != "x-auth-timestamp"@
            && "x-auth-signature"@ != "x-auth-version"@ && "x-auth-signature"@ != "content-type"@);
        assert("x-auth-nonce"@ != "x-auth-timestamp"@ && "x-auth-nonce"@ != "x-auth-version"@
            && "x-auth-nonce"@ != "content-type"@);
        assert("x-auth-timestamp"@ != "x-auth-version"@ && "x-auth-timestamp"@ != "content-type"@);
        assert("x-auth-version"@ != "content-type"@);
        http_request.headers.insert(string_from("x-auth"), x_auth);
        http_request.headers.insert(string_from("x-auth-signature"), signature);
        assert(http_request.headers.spec_get("x-auth"@) == Some(xa));
        http_request.headers.insert(string_from("x-auth-nonce"), string_from(nonce));
        http_request.headers.insert(string_from("x-auth-timestamp"), string_from(timestamp));
        http_request.headers.insert(string_from("x-auth-version"), string_from("v2"));
        assert(http_request.headers.spec_get("x-auth"@) == Some(xa));
        assert(http_request.headers.spec_get("x-auth-signature"@) == Some(sg));
        if has_body {
            http_request.headers.insert(
                string_from("content-type"),
                string_from("application/x-www-form-urlencoded"),
            );
        } else {
            http_request.headers.remove("content-type");
        }
    }

    /// What signing needs besides a nonce: a host in the REST base URL, and "BITSTAMP
    /// <key>" as a valid header value.
    pub open spec fn can_sign(&self) -> bool {
        &&& crate::signing::url_host(self.rest_api_base_url@) is Some
        &&& header_value_ok("BITSTAMP "@ + self.credential->0.api_key@)
    }

    /// Signs a request at the given time with the given nonce and the host of the REST
    /// base URL. Returns false, leaving the request as it was, exactly where the URL has no
    /// host or the "BITSTAMP <key>" header or the nonce would not be a valid header value.
    pub fn sign_http_request_with_nonce(&self, http_request: &mut HttpRequest, now: Timestamp, nonce: &str) -> (signed: bool)
        requires
            self.credential is Some,
            timestamp_valid(now),
        ensures
            signed <==> (self.can_sign() && header_value_ok(nonce@)),
            !signed ==> *final(http_request) == *old(http_request),
            signed ==> self.signed_http_request(*old(http_request), *final(http_request), now),
            signed ==> final(http_request).headers.spec_get("x-auth-nonce"@) == Some(nonce@),
    {
        let c = self.credential.as_ref().unwrap();
        let millis = timestamp_millis(now);
        let timestamp = i64_to_string(millis);
        proof {
            assert forall|i: int| 0 <= i < timestamp@.len() implies (timestamp@[i] == '\t' || (' ' <= #[trigger] timestamp@[i]
                && timestamp@[i] != '\x7f')) by {
                crate::text::lemma_int_text_chars(millis as int, i);
            }
        }
        let host = match parse_url_host(self.rest_api_base_url.as_str()) {
            Some(h) => h,
            None => return false,
        };
        let mut x_auth = string_from("BITSTAMP ");
        push_str(&mut x_auth, c.api_key.as_str());
        if !crate::networking::http::is_header_value(x_auth.as_str())
            || !crate::networking::http::is_header_value(nonce)
            || !crate::networking::http::is_header_value(timestamp.as_str()) {
            return false;
        }
        self.sign_http_request_with(http_request, host.as_str(), nonce, timestamp.as_str());
        true
    }

    /// Signs a request at the given time, with a fresh random nonce (a lower-cased
    /// version-4 UUID) and the host of the REST base URL. Returns false, leaving the
    /// request as it was, where the URL has no host, the "BITSTAMP <key>" header would not
    /// be a valid header value, or the system's random source fails.
    pub fn sign_http_request(&self, http_request: &mut HttpRequest, now: Timestamp) -> (signed: bool)
        requires
            self.credential is Some,
            timestamp_valid(now),
        ensures
            signed ==> self.can_sign(),
            !signed ==> *final(http_request) == *old(http_request),
            signed ==> self.signed_http_request(*old(http_request), *final(http_request), now),
            signed ==> final(http_request).headers.spec_get("x-auth-nonce"@)->0.len() == 36,
    {
        let uuid = match new_uuid_v4() {
            Some(u) => u,
            None => return false,
        };
        let nonce = crate::text::to_lowercase(uuid.as_str());
        proof {
            assert(nonce@ == crate::text::ascii_lowercase(uuid@));
            assert forall|i: int| 0 <= i < nonce@.len() implies (nonce@[i] == '\t' || (' ' <= #[trigger] nonce@[i]
                && nonce@[i] != '\x7f')) by {
                assert(nonce@[i] == (if 'A' <= uuid@[i] && uuid@[i] <= 'Z' { ((uuid@[i] as u32) + 32) as char } else { uuid@[i] }));
                assert(uuid@[i] == '-' || ('0' <= uuid@[i] && uuid@[i] <= '9') || ('a' <= uuid@[i] && uuid@[i] <= 'f'));
            }
        }
        self.sign_http_request_with_nonce(http_request, now, nonce.as_str())
    }

    /// A form-encoded order: limit orders to "/api/v2/<side>/<symbol>/", market orders
    /// to "/api/v2/<side>/market/<symbol>/".
    pub fn create_place_order_http_request(&self, request: &PlaceOrderRequest) -> (r: HttpRequest)
        requires
            request.side != OrderSide::Unknown,
            request.order_type != OrderType::Unknown,
        ensures
            self.place_order_http_request(*request, r),
    {
        let side = if request.side == OrderSide::Buy { "buy" } else { "sell" };
        let mut path = string_from("/api/v2/");
        push_str(&mut path, side);
        if request.order_type == OrderType::Limit {
            push_str(&mut path, "/");
        } else {
            push_str(&mut path, "/market/");
        }
        push_str(&mut path, request.symbol.as_str());
        push_str(&mut path, "/");
        let mut pairs: Vec<(String, String)> = Vec::new();
        assert(pair_views(pairs@) =~= Seq::empty());
        push_pair(&mut pairs, "amount", request.quantity.as_str());
        if request.order_type == OrderType::Limit {
            push_pair(&mut pairs, "price", request.price.as_str());
        }
        if request.client_order_id.as_str().unicode_len() != 0 {
            push_pair(&mut pairs, "client_order_id", request.client_order_id.as_str());
        }
        if request.leverage.as_str().unicode_len() != 0 {
            push_pair(&mut pairs, "margin_mode", "CROSS");
            push_pair(&mut pairs, "leverage", request.leverage.as_str());
        }
        assert(pair_views(pairs@) =~= place_order_pairs(*request));
        let mut http_request = HttpRequest::new(self.rest_api_base_url.as_str(), HttpMethod::Post, path.as_str(), None, None);
        http_request.payload = Some(form_urlencode(&pairs));
        http_request
    }

    /// Cancels by order id where one is given, by client order id otherwise.
    pub fn create_cancel_order_http_request(&self, request: &CancelOrderRequest) -> (r: HttpRequest)
        ensures
            self.cancel_order_http_request(*request, r),
    {
        let mut pairs: Vec<(String, String)> = Vec::new();
        assert(pair_views(pairs@) =~= Seq::empty());
        if request.order_id.as_str().unicode_len() != 0 {
            push_pair(&mut pairs, "id", request.order_id.as_str());
        } else {
            push_pair(&mut pairs, "client_order_id", request.client_order_id.as_str());
        }
        let mut http_request = HttpRequest::new(
            self.rest_api_base_url.as_str(),
            HttpMethod::Post,
            "/api/v2/cancel_order/",
            None,
            None,
        );
        http_request.payload = Some(form_urlencode(&pairs));
        http_request
    }

    pub fn create_get_open_order_http_request(&self, request: &GetOpenOrderRequest) -> (r: HttpRequest)
        ensures
            r.is_plain(self.rest_api_base_url@, HttpMethod::Post, symbol_path("open_orders"@, request.symbol@)),
    {
        let path = symbol_path_exec("open_orders", request.symbol.as_str());
        HttpRequest::new(self.rest_api_base_url.as_str(), HttpMethod::Post, path.as_str(), None, None)
    }

    pub fn create_get_position_http_request(&self, request: &GetPositionRequest) -> (r: HttpRequest)
        ensures
            r.is_plain(self.rest_api_base_url@, HttpMethod::Get, symbol_path("open_positions"@, request.symbol@)),
    {
        let path = symbol_path_exec("open_positions", request.symbol.as_str());
        HttpRequest::new(self.rest_api_base_url.as_str(), HttpMethod::Get, path.as_str(), None, None)
    }

    pub fn create_get_balance_http_request(&self, _request: &GetBalanceRequest) -> (r: HttpRequest)
        ensures
            r.is_plain(self.rest_api_base_url@, HttpMethod::Post, "/api/v2/account_balances/"@),
    {
        HttpRequest::new(
            self.rest_api_base_url.as_str(),
            HttpMethod::Post,
            "/api/v2/account_balances/",
            None,
            None,
        )
    }
}

/// The quantity increment for a number of decimals: "1", or "0.0…01" with that many decimals.
pub open spec fn u64_or_zero(v: JsonValue) -> nat {
    match spec_as_u64(v) {
        Some(n) => n as nat,
        None => 0,
    }
}

/// An instrument read from one of Bitstamp's market documents.
pub open spec fn bitstamp_instrument_matches(info: InstrumentInfo, m: JsonValue) -> bool {
    &&& info.exchange_instrument_type == ExchangeInstrumentType::Bitstamp
    &&& info.symbol@ == field_str(m, "market_symbol"@)
    &&& info.base_asset@ == field_str(m, "base_currency"@)
    &&& info.quote_asset@ == field_str(m, "counter_currency"@)
    &&& info.order_price_increment@ == field_str(m, "tick_size"@)
    &&& info.order_quantity_increment@ == crate::text::decimal_unit(u64_or_zero(spec_at(m, "base_decimals"@)))
    &&& info.order_quantity_min@ == field_str(m, "minimum_order_amount"@)
    &&& info.order_quantity_max@ == field_str(m, "maximum_order_amount"@)
    &&& info.order_quote_quantity_min@ == field_str(m, "minimum_order_value"@)
    &&& info.order_quote_quantity_max@ == field_str(m, "maximum_order_value"@)
    &&& info.settle_asset@ == field_str(m, "counter_currency"@)
    &&& info.underlying_symbol@ == field_str(m, "underlying_asset"@)
    &&& info.contract_size@ == field_str(m, "contract_size"@)
    &&& info.expiry_timestamp.is_epoch()
}

/// The time of a ticker: its "timestamp" string read as seconds, or the epoch.
pub open spec fn ticker_time_matches(t: Timestamp, v: JsonValue) -> bool {
    match spec_as_str(spec_at(v, "timestamp"@)) {
        Some(s) => match parse_i64_spec(s) {
            Some(n) => from_seconds_or_epoch(t, n as int),
            None => t.is_epoch(),
        },
        None => t.is_epoch(),
    }
}

pub open spec fn bitstamp_ticker_matches(b: TopOfBook, v: JsonValue) -> bool {
    &&& b.exchange_instrument_type == ExchangeInstrumentType::Bitstamp
    &&& b.symbol@ == crate::json::field_str_either(v, "market"@, "pair"@)
    &&& ticker_time_matches(b.timestamp, v)
    &&& b.bid_price@ == field_str(v, "bid"@)
    &&& b.bid_size@.len() == 0
    &&& b.ask_price@ == field_str(v, "ask"@)
    &&& b.ask_size@.len() == 0
}

/// The documents a ticker response holds: the items of an array, or the one document.
pub open spec fn ticker_documents(j: JsonValue) -> Seq<JsonValue> {
    match spec_as_array(j) {
        Some(items) => items,
        None => seq![j],
    }
}

/// The items of the array that the response's document is, or none.
pub open spec fn response_items(resp: HttpResponse) -> Seq<JsonValue> {
    match resp.json_payload {
        Some(j) => match spec_as_array(j) {
            Some(items) => items,
            None => Seq::empty(),
        },
        None => Seq::empty(),
    }
}

pub open spec fn bitstamp_position_matches(p: Position, v: JsonValue) -> bool {
    &&& p.exchange_instrument_type == ExchangeInstrumentType::Bitstamp
    &&& p.symbol@ == field_str(v, "market"@)
    &&& p.side == crate::exchanges::bitstamp::common::bitstamp_position_side_of(spec_at(v, "side"@))
    &&& p.entry_price@ == field_str(v, "entry_price"@)
    &&& p.quantity@ == crate::exchanges::bitstamp::common::unsigned_size(field_str(v, "size"@))
    &&& p.leverage@ == field_str(v, "leverage"@)
    &&& p.position_asset@ == field_str(v, "settlement_currency"@)
}

pub open spec fn bitstamp_balance_matches(b: Balance, v: JsonValue) -> bool {
    &&& b.exchange == Exchange::Bitstamp
    &&& b.asset@ == field_str(v, "currency"@)
    &&& b.quantity@ == field_str(v, "total"@)
}

/// An instrument per market where the body is an array of markets, and no cursor.
pub open spec fn instrument_info_response(resp: HttpResponse, r: Response) -> bool {
    r matches Response::GetInstrumentInfo(g) && g.next_page_cursor@.len() == 0
        && g.data@.len() == response_items(resp).len()
        && forall|i: int| 0 <= i < g.data@.len() ==> bitstamp_instrument_matches(
        #[trigger] g.data@[i],
        response_items(resp)[i],
    )
}

/// A ticker per document of the body.
pub open spec fn top_of_book_response(resp: HttpResponse, r: Response) -> bool {
    r matches Response::GetTopOfBook(g) && g.data@.len() == ticker_documents(resp.json_payload->0).len()
        && forall|i: int| 0 <= i < g.data@.len() ==> bitstamp_ticker_matches(
        #[trigger] g.data@[i],
        ticker_documents(resp.json_payload->0)[i],
    )
}

/// The placed order's id: its "id" string, or its number written out.
pub open spec fn place_order_response(resp: HttpResponse, r: Response) -> bool {
    r matches Response::PlaceOrder(p) && p.order_id@ == str_or_u64_text(spec_at(resp.json_payload->0, "id"@))
}

/// An open order per item where the body is an array, and no cursor.
pub open spec fn open_order_response(resp: HttpResponse, r: Response) -> bool {
    r matches Response::GetOpenOrder(g) && g.next_page_cursor@.len() == 0
        && g.data@.len() == response_items(resp).len()
        && forall|i: int| 0 <= i < g.data@.len() ==> bitstamp_order_matches(
        #[trigger] g.data@[i],
        response_items(resp)[i],
    )
}

/// A position per item where the body is an array, and no cursor.
pub open spec fn position_response(resp: HttpResponse, r: Response) -> bool {
    r matches Response::GetPosition(g) && g.next_page_cursor@.len() == 0
        && g.data@.len() == response_items(resp).len()
        && forall|i: int| 0 <= i < g.data@.len() ==> bitstamp_position_matches(
        #[trigger] g.data@[i],
        response_items(resp)[i],
    )
}

/// A balance per item where the body is an array.
pub open spec fn balance_response(resp: HttpResponse, r: Response) -> bool {
    r matches Response::GetBalance(g) && g.data@.len() == response_items(resp).len()
        && forall|i: int| 0 <= i < g.data@.len() ==> bitstamp_balance_matches(
        #[trigger] g.data@[i],
        response_items(resp)[i],
    )
}

/// The response itself, with Bitstamp's error code ("response_code", else "code") and
/// message ("response_explanation", else "reason", else "error") where it has a JSON body.
pub open spec fn error_response(resp: HttpResponse, r: Response) -> bool {
    r matches Response::HttpErrorResponse(e) && e.http_request == resp.http_request
        && e.status == resp.status && e.body == resp.body && e.json_payload == resp.json_payload
        && match resp.json_payload {
        Some(j) => crate::networking::http::opt_view(e.error_code) == first_str_member(
            j,
            "response_code"@,
            "code"@,
        ) && crate::networking::http::opt_view(e.error_message) == match first_str_member(
            j,
            "response_explanation"@,
            "reason"@,
        ) {
            Some(s) => Some(s),
            None => spec_as_str(spec_at(j, "error"@)),
        },
        None => e.error_code == resp.error_code && e.error_message == resp.error_message,
    }
}

/// What the converter of the request's kind makes of a successful response.
pub open spec fn rest_response(request: Request, resp: HttpResponse, r: Response) -> bool {
    match request {
        Request::GetInstrumentInfo(_) => instrument_info_response(resp, r),
        Request::GetTopOfBook(_) => top_of_book_response(resp, r),
        Request::PlaceOrder(_) => place_order_response(resp, r),
        Request::CancelOrder(_) => r is CancelOrder,
        Request::GetOpenOrder(_) => open_order_response(resp, r),
        Request::GetPosition(_) => position_response(resp, r),
        Request::GetBalance(_) => balance_response(resp, r),
        _ => false,
    }
}

/// The first of two string members that is a string.
pub open spec fn first_str_member(j: JsonValue, k1: Seq<char>, k2: Seq<char>) -> Option<Seq<char>> {
    match spec_as_str(spec_at(j, k1)) {
        Some(s) => Some(s),
        None => spec_as_str(spec_at(j, k2)),
    }
}

fn member_str(j: &JsonValue, key: &str) -> (r: Option<String>)
    ensures
        match r {
            Some(s) => spec_as_str(spec_at(*j, key@)) == Some(s@),
            None => spec_as_str(spec_at(*j, key@)) is None,
        },
{
    match j.at(key) {
        Some(m) => match m.as_str() {
            Some(s) => Some(string_from(s)),
            None => None,
        },
        None => None,
    }
}

impl BitstampClient {
    /// A 2xx status with a JSON body.
    pub fn is_http_response_success(&self, http_response: &HttpResponse) -> (r: bool)
        ensures
            r == (status_is_success(http_response.status) && http_response.json_payload is Some),
    {
        http_response.is_status_success() && http_response.json_payload.is_some()
    }

    fn convert_json_value_to_instrument_info(&self, m: &JsonValue) -> (r: InstrumentInfo)
        ensures
            bitstamp_instrument_matches(r, *m),
    {
        let decimals: u64 = match m.at("base_decimals") {
            Some(d) => match d.as_u64() {
                Some(n) => n,
                None => 0,
            },
            None => 0,
        };
        InstrumentInfo {
            exchange_instrument_type: ExchangeInstrumentType::Bitstamp,
            symbol: m.field_str("market_symbol"),
            base_asset: m.field_str("base_currency"),
            quote_asset: m.field_str("counter_currency"),
            order_price_increment: m.field_str("tick_size"),
            order_quantity_increment: crate::text::decimal_unit_text(decimals),
            order_quantity_min: m.field_str("minimum_order_amount"),
            order_quantity_max: m.field_str("maximum_order_amount"),
            order_quote_quantity_min: m.field_str("minimum_order_value"),
            order_quote_quantity_max: m.field_str("maximum_order_value"),
            settle_asset: m.field_str("counter_currency"),
            underlying_symbol: m.field_str("underlying_asset"),
            contract_size: m.field_str("contract_size"),
            expiry_timestamp: Timestamp::epoch(),
        }
    }

    /// One instrument per market where the body is an array of markets, none otherwise.
    pub fn create_get_instrument_info_rest_response(&self, http_response: HttpResponse) -> (r: Response)
        ensures
            instrument_info_response(http_response, r),
    {
        let mut data: Vec<InstrumentInfo> = Vec::new();
        match &http_response.json_payload {
            Some(j) => match j.as_array() {
                Some(markets) => {
                    let mut i: usize = 0;
                    while i < markets.len()
                        invariant
                            response_items(http_response) == markets@,
                            i <= markets@.len(),
                            data@.len() == i,
                            forall|k: int| 0 <= k < i ==> bitstamp_instrument_matches(#[trigger] data@[k], markets@[k]),
                        decreases markets.len() - i,
                    {
                        let info = self.convert_json_value_to_instrument_info(&markets[i]);
                        data.push(info);
                        i = i + 1;
                    }
                },
                None => {},
            },
            None => {},
        }
        Response::GetInstrumentInfo(GetInstrumentInfoResponse { data, next_page_cursor: String::new() })
    }

    fn convert_json_value_to_ticker(&self, v: &JsonValue) -> (r: TopOfBook)
        ensures
            bitstamp_ticker_matches(r, *v),
    {
        let timestamp = match member_str(v, "timestamp") {
            Some(s) => match crate::text::parse_i64(s.as_str()) {
                Some(n) => timestamp_from_seconds_or_epoch(n),
                None => Timestamp::epoch(),
            },
            None => Timestamp::epoch(),
        };
        TopOfBook {
            exchange_instrument_type: ExchangeInstrumentType::Bitstamp,
            symbol: v.field_str_either("market", "pair"),
            timestamp,
            bid_price: v.field_str("bid"),
            bid_size: String::new(),
            ask_price: v.field_str("ask"),
            ask_size: String::new(),
        }
    }

    /// One ticker per document: each item of an array, or the single document.
    pub fn create_get_top_of_book_rest_response(&self, http_response: HttpResponse) -> (r: Response)
        requires
            http_response.json_payload is Some,
        ensures
            top_of_book_response(http_response, r),
    {
        let json = http_response.json_payload.unwrap();
        let mut data: Vec<TopOfBook> = Vec::new();
        match json.as_array() {
            Some(values) => {
                let mut i: usize = 0;
                while i < values.len()
                    invariant
                        ticker_documents(json) == values@,
                        i <= values@.len(),
                        data@.len() == i,
                        forall|k: int| 0 <= k < i ==> bitstamp_ticker_matches(#[trigger] data@[k], values@[k]),
                    decreases values.len() - i,
                {
                    let t = self.convert_json_value_to_ticker(&values[i]);
                    data.push(t);
                    i = i + 1;
                }
            },
            None => {
                let t = self.convert_json_value_to_ticker(&json);
                data.push(t);
                assert(ticker_documents(json) =~= seq![json]);
            },
        }
        Response::GetTopOfBook(GetTopOfBookResponse { data })
    }

    /// The id of the placed order: its "id" string, or its number written out.
    pub fn create_place_order_rest_response(&self, http_response: HttpResponse) -> (r: Response)
        requires
            http_response.json_payload is Some,
        ensures
            place_order_response(http_response, r),
    {
        let json = http_response.json_payload.unwrap();
        let order_id = match json.at("id") {
            Some(id) => id.str_or_u64_text(),
            None => String::new(),
        };
        Response::PlaceOrder(PlaceOrderResponse { order_id })
    }

    pub fn create_cancel_order_rest_response(&self, _http_response: HttpResponse) -> (r: Response)
        ensures
            r is CancelOrder,
    {
        Response::CancelOrder(CancelOrderResponse {})
    }

    /// One open order per item where the body is an array.
    pub fn create_get_open_order_rest_response(&self, http_response: HttpResponse) -> (r: Response)
        ensures
            open_order_response(http_response, r),
    {
        let mut data: Vec<Order> = Vec::new();
        match &http_response.json_payload {
            Some(j) => match j.as_array() {
                Some(orders) => {
                    let mut i: usize = 0;
                    while i < orders.len()
                        invariant
                            response_items(http_response) == orders@,
                            i <= orders@.len(),
                            data@.len() == i,
                            forall|k: int| 0 <= k < i ==> bitstamp_order_matches(#[trigger] data@[k], orders@[k]),
                        decreases orders.len() - i,
                    {
                        let o = self.convert_json_value_to_order(&orders[i]);
                        data.push(o);
                        i = i + 1;
                    }
                },
                None => {},
            },
            None => {},
        }
        Response::GetOpenOrder(GetOpenOrderResponse { data, next_page_cursor: String::new() })
    }

    /// One position per item where the body is an array.
    pub fn create_get_position_rest_response(&self, http_response: HttpResponse) -> (r: Response)
        ensures
            position_response(http_response, r),
    {
        let mut data: Vec<Position> = Vec::new();
        match &http_response.json_payload {
            Some(j) => match j.as_array() {
                Some(items) => {
                    let mut i: usize = 0;
                    while i < items.len()
                        invariant
                            response_items(http_response) == items@,
                            i <= items@.len(),
                            data@.len() == i,
                            forall|k: int| 0 <= k < i ==> bitstamp_position_matches(#[trigger] data@[k], items@[k]),
                        decreases items.len() - i,
                    {
                        let p = self.convert_json_value_to_position(&items[i]);
                        data.push(p);
                        i = i + 1;
                    }
                },
                None => {},
            },
            None => {},
        }
        Response::GetPosition(GetPositionResponse { data, next_page_cursor: String::new() })
    }

    /// One balance per item where the body is an array: its "currency" and "total".
    pub fn create_get_balance_rest_response(&self, http_response: HttpResponse) -> (r: Response)
        ensures
            balance_response(http_response, r),
    {
        let mut data: Vec<Balance> = Vec::new();
        match &http_response.json_payload {
            Some(j) => match j.as_array() {
                Some(items) => {
                    let mut i: usize = 0;
                    while i < items.len()
                        invariant
                            response_items(http_response) == items@,
                            i <= items@.len(),
                            data@.len() == i,
                            forall|k: int| 0 <= k < i ==> bitstamp_balance_matches(#[trigger] data@[k], items@[k]),
                        decreases items.len() - i,
                    {
                        let b = Balance {
                            exchange: Exchange::Bitstamp,
                            asset: items[i].field_str("currency"),
                            quantity: items[i].field_str("total"),
                        };
                        data.push(b);
                        i = i + 1;
                    }
                },
                None => {},
            },
            None => {},
        }
        Response::GetBalance(GetBalanceResponse { data })
    }

    /// The response with Bitstamp's error code ("response_code", else "code") and
    /// message ("response_explanation", else "reason", else "error") where it has a JSON body.
    pub fn create_http_error_response(&self, http_response: HttpResponse) -> (r: Response)
        ensures
            error_response(http_response, r),
    {
        let mut response = http_response;
        match &response.json_payload {
            Some(j) => {
                let code = match member_str(j, "response_code") {
                    Some(c) => Some(c),
                    None => member_str(j, "code"),
                };
                let message = match member_str(j, "response_explanation") {
                    Some(m) => Some(m),
                    None => match member_str(j, "reason") {
                        Some(m) => Some(m),
                        None => member_str(j, "error"),
                    },
                };
                response.error_code = code;
                response.error_message = message;
            },
            None => {},
        }
        Response::HttpErrorResponse(response)
    }
}

} // verus!
