//! Gate.io spot and margin REST API: the requests, their signature, and the responses.

use vstd::prelude::*;
use vstd::utf8::encode_utf8;
use crate::exchange_client::common::{
    CancelOrderRequest, CancelOrderResponse, GetBalanceRequest, GetBalanceResponse, GetInstrumentInfoRequest,
    GetInstrumentInfoResponse, GetOpenOrderRequest, GetOpenOrderResponse, GetPositionRequest, GetPositionResponse,
    GetTopOfBookRequest, GetTopOfBookResponse, PlaceOrderRequest, PlaceOrderResponse, Response,
};
use crate::exchange_client::common::{answers, is_private_request, is_rest_request, Request};
use crate::exchanges::gateio_spot_and_margin::common::i64_member_or_zero_exec;
use crate::exchanges::gateio_perpetual_futures::rest::{array_items, gate_documents, gate_prehash};
use crate::exchanges::gateio_spot_and_margin::common::{
    gate_spot_balance_matches, gate_spot_instrument_matches, gate_spot_instrument_ok, gate_spot_order_matches,
    gate_spot_order_type_text, gate_spot_side_text, GateioSpotAndMarginClient,
};
use crate::json::{field_str, spec_as_array, spec_as_str, spec_at, spec_get, JsonValue};
use crate::networking::http::{
    has_json_body, has_query, header_value_ok, is_header_value, json_request, opt_view, push_pair, query_request,
    status_is_success, HttpMethod, HttpRequest, HttpResponse,
};
use crate::signing::{hex_encode, hex_text, hmac_sha512, hmac_sha512_tag, pair_views, parse_url_path, sha512, url_path};
use crate::text::{i64_to_string, int_text, nat_digits, parse_u64, parse_u64_spec, push_str, string_from, trim_end_matches_text, u64_to_string};
use crate::time::{timestamp_valid, utc_now};
use crate::types::{Balance, ExchangeInstrumentType, InstrumentInfo, Order, OrderSide, OrderType, Timestamp, TopOfBook};

verus! {

pub open spec fn gate_spot_place_order_members(req: PlaceOrderRequest, account: Seq<char>) -> Seq<(Seq<char>, Seq<char>)> {
    let a = seq![("account"@, account), ("amount"@, req.quantity@), ("currency_pair"@, req.symbol@)];
    let b = if req.order_type == OrderType::Limit { a.push(("price"@, req.price@)) } else { a };
    let c = b.push(("side"@, gate_spot_side_text(req.side)));
    let d = if req.client_order_id@.len() != 0 { c.push(("text"@, req.client_order_id@)) } else { c };
    d.push(("time_in_force"@, if req.order_type == OrderType::Limit { "gtc"@ } else { "ioc"@ })).push(
        ("type"@, gate_spot_order_type_text(req.order_type)),
    )
}

/// The page of a cursor: a number up to `u32::MAX`, written out again.
pub open spec fn page_of(cursor: Seq<char>) -> Option<Seq<char>> {
    match parse_u64_spec(cursor) {
        Some(n) => if n <= u32::MAX { Some(nat_digits(n as nat)) } else { None },
        None => None,
    }
}

pub open spec fn gate_spot_open_order_pairs(req: GetOpenOrderRequest) -> Seq<(Seq<char>, Seq<char>)> {
    let a = if req.limit > 0 { seq![("limit"@, nat_digits(req.limit as nat))] } else { Seq::empty() };
    if req.next_page_cursor@.len() != 0 && page_of(req.next_page_cursor@) is Some {
        a.push(("page"@, page_of(req.next_page_cursor@)->0))
    } else {
        a
    }
}

/// The orders of one item of the open-orders list.
pub open spec fn item_orders(v: JsonValue) -> Seq<JsonValue> {
    match spec_as_array(spec_at(v, "orders"@)) {
        Some(orders) => orders,
        None => Seq::empty(),
    }
}

/// The orders of all items, in order.
pub open spec fn all_orders(items: Seq<JsonValue>) -> Seq<JsonValue>
    decreases items.len(),
{
    if items.len() == 0 {
        Seq::empty()
    } else {
        all_orders(items.drop_last()) + item_orders(items.last())
    }
}

pub open spec fn gate_spot_ticker_matches(b: TopOfBook, v: JsonValue, now: Timestamp, t: crate::types::GateioSpotAndMarginInstrumentType) -> bool {
    &&& b.exchange_instrument_type == ExchangeInstrumentType::GateioSpotAndMargin(t)
    &&& b.symbol@ == field_str(v, "currency_pair"@)
    &&& b.timestamp == now
    &&& b.bid_price@ == field_str(v, "highest_bid"@)
    &&& b.bid_size@ == field_str(v, "highest_size"@)
    &&& b.ask_price@ == field_str(v, "lowest_ask"@)
    &&& b.ask_size@ == field_str(v, "lowest_size"@)
}

/// Whether every currency-pair document has precisions that are not negative.
fn instruments_ok(j: &JsonValue) -> (r: bool)
    ensures
        r == forall|i: int| 0 <= i < gate_documents(*j).len() ==> gate_spot_instrument_ok(#[trigger] gate_documents(*j)[i]),
{
    match j {
        JsonValue::Array(items) => {
            let mut i: usize = 0;
            while i < items.len()
                invariant
                    i <= items@.len(),
                    gate_documents(*j) == items@,
                    forall|k: int| 0 <= k < i ==> gate_spot_instrument_ok(#[trigger] items@[k]),
                decreases items.len() - i,
            {
                if i64_member_or_zero_exec(&items[i], "precision") < 0
                    || i64_member_or_zero_exec(&items[i], "amount_precision") < 0 {
                    assert(!gate_spot_instrument_ok(items@[i as int]));
                    return false;
                }
                i = i + 1;
            }
            true
        },
        JsonValue::Object(_) => {
            assert(gate_documents(*j) =~= seq![*j]);
            let ok = i64_member_or_zero_exec(j, "precision") >= 0 && i64_member_or_zero_exec(j, "amount_precision") >= 0;
            if !ok {
                assert(!gate_spot_instrument_ok(gate_documents(*j)[0]));
            }
            ok
        },
        _ => true,
    }
}

impl GateioSpotAndMarginClient {
    /// A GET of the currency pairs, or of the one pair.
    pub open spec fn instrument_info_http_request(&self, request: GetInstrumentInfoRequest, r: HttpRequest) -> bool {
        &&& r.is_plain(self.rest_api_base_url@, HttpMethod::Get, if request.symbol@.len() != 0 {
                "/api/v4/spot/currency_pairs/"@ + request.symbol@
            } else {
                "/api/v4/spot/currency_pairs"@
            })
    }

    /// Every currency pair, or the one named.
    pub fn create_get_instrument_info_http_request(&self, request: &GetInstrumentInfoRequest) -> (r: HttpRequest)
        ensures
            self.instrument_info_http_request(*request, r),
    {
        let path = if request.symbol.as_str().unicode_len() != 0 {
            let mut p = string_from("/api/v4/spot/currency_pairs/");
            push_str(&mut p, request.symbol.as_str());
            p
        } else {
            string_from("/api/v4/spot/currency_pairs")
        };
        assert(path@ =~= if request.symbol@.len() != 0 {
            "/api/v4/spot/currency_pairs/"@ + request.symbol@
        } else {
            "/api/v4/spot/currency_pairs"@
        });
        HttpRequest::new(self.rest_api_base_url.as_str(), HttpMethod::Get, path.as_str(), None, None)
    }

    /// A GET of the tickers.
    pub open spec fn top_of_book_http_request(&self, request: GetTopOfBookRequest, r: HttpRequest) -> bool {
        &&& r.base_url@ == self.rest_api_base_url@
        &&& r.method == HttpMethod::Get
        &&& r.path@ == "/api/v4/spot/tickers"@
        &&& r.headers.entries@.len() == 0
        &&& request.symbol@.len() != 0 ==> has_query(r, seq![("currency_pair"@, request.symbol@)])
        &&& request.symbol@.len() == 0 ==> r.query_params is None && r.query_string is None
        &&& r.payload is None
    }

    /// The tickers, of one currency pair where it is named.
    pub fn create_get_top_of_book_http_request(&self, request: &GetTopOfBookRequest) -> (r: HttpRequest)
        ensures
            self.top_of_book_http_request(*request, r),
    {
        if request.symbol.as_str().unicode_len() != 0 {
            let mut pairs: Vec<(String, String)> = Vec::new();
            assert(pair_views(pairs@) =~= Seq::empty());
            push_pair(&mut pairs, "currency_pair", request.symbol.as_str());
            assert(pair_views(pairs@) =~= seq![("currency_pair"@, request.symbol@)]);
            query_request(self.rest_api_base_url.as_str(), HttpMethod::Get, "/api/v4/spot/tickers", pairs)
        } else {
            HttpRequest::new(self.rest_api_base_url.as_str(), HttpMethod::Get, "/api/v4/spot/tickers", None, None)
        }
    }

    /// The signed request: the unsigned one with the key, the time, and the hex
    /// HMAC-SHA512 of what Gate signs (with the path of the base URL); its other headers kept.
    pub open spec fn signed_http_request(&self, o: HttpRequest, n: HttpRequest, timestamp: Seq<char>) -> bool {
        let c = self.credential->0;
        &&& url_path(self.rest_api_base_url@) is Some
        &&& n.base_url == o.base_url
        &&& n.method == o.method
        &&& n.path == o.path
        &&& n.query_string == o.query_string
        &&& n.payload == o.payload
        &&& n.headers.spec_get("key"@) == Some(c.api_key@)
        &&& n.headers.spec_get("timestamp"@) == Some(timestamp)
        &&& n.headers.spec_get("sign"@) == Some(hex_text(hmac_sha512_tag(
            encode_utf8(c.api_secret@),
            encode_utf8(gate_prehash(url_path(self.rest_api_base_url@)->0, o, timestamp)),
        )))
        &&& forall|k: Seq<char>| k != "key"@ && k != "timestamp"@ && k != "sign"@ ==> n.headers.spec_get(k) == o.headers.spec_get(k)
    }

    /// Signs the request at the given time (whole seconds, as text); false, with the
    /// request unchanged, where the base URL does not parse.
    pub fn sign_http_request_with(&self, http_request: &mut HttpRequest, timestamp: &str) -> (signed: bool)
        requires
            self.credential is Some,
            header_value_ok(self.credential->0.api_key@),
            header_value_ok(timestamp@),
        ensures
            signed == url_path(self.rest_api_base_url@) is Some,
            !signed ==> *final(http_request) == *old(http_request),
            signed ==> self.signed_http_request(*old(http_request), *final(http_request), timestamp@),
    {
        let c = self.credential.as_ref().unwrap();
        let base_path = match parse_url_path(self.rest_api_base_url.as_str()) {
            Some(p) => p,
            None => return false,
        };
        let trimmed = trim_end_matches_text(base_path.as_str(), "/");
        let body = if http_request.method == HttpMethod::Post { http_request.payload_or_empty() } else { String::new() };
        let body_hash = hex_encode(sha512(body.as_str().as_bytes()).as_slice());
        let query = http_request.query_or_empty();
        let mut prehash = string_from(http_request.method.as_str());
        push_str(&mut prehash, "\n");
        push_str(&mut prehash, trimmed.as_str());
        push_str(&mut prehash, http_request.path.as_str());
        push_str(&mut prehash, "\n");
        push_str(&mut prehash, query.as_str());
        push_str(&mut prehash, "\n");
        push_str(&mut prehash, body_hash.as_str());
        push_str(&mut prehash, "\n");
        push_str(&mut prehash, timestamp);
        let ghost o = *old(http_request);
        assert(prehash@ =~= gate_prehash(base_path@, o, timestamp@));
        let signature = hex_encode(hmac_sha512(c.api_secret.as_str().as_bytes(), prehash.as_str().as_bytes()).as_slice());
        let ghost sg = signature@;
        proof {
            reveal_strlit("key");
            reveal_strlit("timestamp");
            reveal_strlit("sign");
            assert("key"@.len() == 3);
            assert("timestamp"@.len() == 9);
            assert("sign"@.len() == 4);
        }
        http_request.headers.insert(string_from("key"), c.api_key.clone());
        http_request.headers.insert(string_from("timestamp"), string_from(timestamp));
        http_request.headers.insert(string_from("sign"), signature);
        assert(http_request.headers.spec_get("sign"@) == Some(sg));
        true
    }

    /// Signs the request at the given time; false, with the request unchanged, where the
    /// key cannot be a header value or the base URL does not parse.
    pub fn sign_http_request(&self, http_request: &mut HttpRequest, now: Timestamp) -> (signed: bool)
        requires
            self.credential is Some,
            timestamp_valid(now),
        ensures
            signed == (header_value_ok(self.credential->0.api_key@) && url_path(self.rest_api_base_url@) is Some),
            !signed ==> *final(http_request) == *old(http_request),
            signed ==> self.signed_http_request(*old(http_request), *final(http_request), int_text(now.seconds as int)),
    {
        let c = self.credential.as_ref().unwrap();
        if !is_header_value(c.api_key.as_str()) {
            return false;
        }
        let timestamp = i64_to_string(now.seconds);
        proof {
            let t = timestamp@;
            assert forall|i: int| 0 <= i < t.len() implies (t[i] == '\t' || (' ' <= #[trigger] t[i] && t[i] != '\x7f')) by {
                crate::text::lemma_int_text_chars(now.seconds as int, i);
            }
        }
        self.sign_http_request_with(http_request, timestamp.as_str())
    }

    /// A JSON order in the client's account, with the channel id as a header.
    pub open spec fn place_order_http_request(&self, request: PlaceOrderRequest, r: HttpRequest) -> bool {
        &&& r.base_url@ == self.rest_api_base_url@
        &&& r.method == HttpMethod::Post
        &&& r.path@ == "/api/v4/spot/orders"@
        &&& r.headers.spec_get("x-gate-channel-id"@) == Some(self.api_channel_id@)
        &&& forall|k: Seq<char>| k != "x-gate-channel-id"@ ==> r.headers.spec_get(k) is None
        &&& r.query_string is None
        &&& has_json_body(r, gate_spot_place_order_members(request, self.account@))
    }

    /// An order in the client's account, with the channel id as a header.
    pub fn create_place_order_http_request(&self, request: &PlaceOrderRequest) -> (r: HttpRequest)
        requires
            request.side != OrderSide::Unknown,
            request.order_type != OrderType::Unknown,
            header_value_ok(self.api_channel_id@),
        ensures
            self.place_order_http_request(*request, r),
    {
        let mut pairs: Vec<(String, String)> = Vec::new();
        assert(pair_views(pairs@) =~= Seq::empty());
        push_pair(&mut pairs, "account", self.account.as_str());
        push_pair(&mut pairs, "amount", request.quantity.as_str());
        push_pair(&mut pairs, "currency_pair", request.symbol.as_str());
        if request.order_type == OrderType::Limit {
            push_pair(&mut pairs, "price", request.price.as_str());
        }
        push_pair(&mut pairs, "side", self.convert_order_side_to_string(request.side));
        if request.client_order_id.as_str().unicode_len() != 0 {
            push_pair(&mut pairs, "text", request.client_order_id.as_str());
        }
        let tif = if request.order_type == OrderType::Limit { "gtc" } else { "ioc" };
        push_pair(&mut pairs, "time_in_force", tif);
        push_pair(&mut pairs, "type", self.convert_order_type_to_string(request.order_type));
        assert(pair_views(pairs@) =~= gate_spot_place_order_members(*request, self.account@));
        let mut r = json_request(self.rest_api_base_url.as_str(), HttpMethod::Post, "/api/v4/spot/orders", &pairs);
        r.headers.insert(string_from("x-gate-channel-id"), self.api_channel_id.clone());
        r
    }

    /// A DELETE of the order.
    pub open spec fn cancel_order_http_request(&self, request: CancelOrderRequest, r: HttpRequest) -> bool {
        &&& r.base_url@ == self.rest_api_base_url@
        &&& r.method == HttpMethod::Delete
        &&& r.path@ == "/api/v4/spot/orders/"@ + if request.order_id@.len() != 0 {
                request.order_id@
            } else {
                request.client_order_id@
            }
        &&& r.headers.entries@.len() == 0
        &&& has_query(r, seq![("currency_pair"@, request.symbol@)])
        &&& r.payload is None
    }

    /// Cancels by order id, else by client order id, in the currency pair.
    pub fn create_cancel_order_http_request(&self, request: &CancelOrderRequest) -> (r: HttpRequest)
        ensures
            self.cancel_order_http_request(*request, r),
    {
        let mut path = string_from("/api/v4/spot/orders/");
        if request.order_id.as_str().unicode_len() != 0 {
            push_str(&mut path, request.order_id.as_str());
        } else {
            push_str(&mut path, request.client_order_id.as_str());
        }
        let mut pairs: Vec<(String, String)> = Vec::new();
        assert(pair_views(pairs@) =~= Seq::empty());
        push_pair(&mut pairs, "currency_pair", request.symbol.as_str());
        assert(pair_views(pairs@) =~= seq![("currency_pair"@, request.symbol@)]);
        query_request(self.rest_api_base_url.as_str(), HttpMethod::Delete, path.as_str(), pairs)
    }

    /// A GET of the open orders.
    pub open spec fn open_order_http_request(&self, request: GetOpenOrderRequest, r: HttpRequest) -> bool {
        &&& r.base_url@ == self.rest_api_base_url@
        &&& r.method == HttpMethod::Get
        &&& r.path@ == "/api/v4/spot/open_orders"@
        &&& r.headers.entries@.len() == 0
        &&& gate_spot_open_order_pairs(request).len() != 0 ==> has_query(r, gate_spot_open_order_pairs(request))
        &&& gate_spot_open_order_pairs(request).len() == 0 ==> r.query_params is None && r.query_string is None
        &&& r.payload is None
    }

    /// The open orders: the limit where there is one, and the page that the cursor reads as.
    pub fn create_get_open_order_http_request(&self, request: &GetOpenOrderRequest) -> (r: HttpRequest)
        ensures
            self.open_order_http_request(*request, r),
    {
        let mut pairs: Vec<(String, String)> = Vec::new();
        assert(pair_views(pairs@) =~= Seq::empty());
        if request.limit > 0 {
            let limit = u64_to_string(request.limit as u64);
            push_pair(&mut pairs, "limit", limit.as_str());
        }
        if request.next_page_cursor.as_str().unicode_len() != 0 {
            match parse_u64(request.next_page_cursor.as_str()) {
                Some(n) => if n <= 0xffff_ffffu64 {
                    let page = u64_to_string(n);
                    push_pair(&mut pairs, "page", page.as_str());
                },
                None => {},
            }
        }
        assert(pair_views(pairs@) =~= gate_spot_open_order_pairs(*request));
        if pairs.len() == 0 {
            HttpRequest::new(self.rest_api_base_url.as_str(), HttpMethod::Get, "/api/v4/spot/open_orders", None, None)
        } else {
            query_request(self.rest_api_base_url.as_str(), HttpMethod::Get, "/api/v4/spot/open_orders", pairs)
        }
    }

    pub fn create_get_position_http_request(&self, _request: &GetPositionRequest) -> (r: HttpRequest)
        ensures
            r.is_plain(self.rest_api_base_url@, HttpMethod::Get, "/api/v4/spot/accounts"@),
    {
        HttpRequest::new(self.rest_api_base_url.as_str(), HttpMethod::Get, "/api/v4/spot/accounts", None, None)
    }

    /// A GET of the spot accounts.
    pub open spec fn balance_http_request(&self, request: GetBalanceRequest, r: HttpRequest) -> bool {
        &&& r.base_url@ == self.rest_api_base_url@
        &&& r.method == HttpMethod::Get
        &&& r.path@ == "/api/v4/spot/accounts"@
        &&& r.headers.entries@.len() == 0
        &&& request.asset@.len() != 0 ==> has_query(r, seq![("currency"@, request.asset@)])
        &&& request.asset@.len() == 0 ==> r.query_params is None && r.query_string is None
        &&& r.payload is None
    }

    /// The spot accounts, of one currency where it is named.
    pub fn create_get_balance_http_request(&self, request: &GetBalanceRequest) -> (r: HttpRequest)
        ensures
            self.balance_http_request(*request, r),
    {
        if request.asset.as_str().unicode_len() != 0 {
            let mut pairs: Vec<(String, String)> = Vec::new();
            assert(pair_views(pairs@) =~= Seq::empty());
            push_pair(&mut pairs, "currency", request.asset.as_str());
            assert(pair_views(pairs@) =~= seq![("currency"@, request.asset@)]);
            query_request(self.rest_api_base_url.as_str(), HttpMethod::Get, "/api/v4/spot/accounts", pairs)
        } else {
            HttpRequest::new(self.rest_api_base_url.as_str(), HttpMethod::Get, "/api/v4/spot/accounts", None, None)
        }
    }

    /// The request that the builder of the request's kind makes, before any signature.
    pub open spec fn http_request_for(&self, request: Request, r: HttpRequest) -> bool {
        match request {
            Request::GetInstrumentInfo(q) => self.instrument_info_http_request(q, r),
            Request::GetTopOfBook(q) => self.top_of_book_http_request(q, r),
            Request::PlaceOrder(q) => self.place_order_http_request(q, r),
            Request::CancelOrder(q) => self.cancel_order_http_request(q, r),
            Request::GetOpenOrder(q) => self.open_order_http_request(q, r),
            Request::GetPosition(_) => r.is_plain(self.rest_api_base_url@, HttpMethod::Get, "/api/v4/spot/accounts"@),
            Request::GetBalance(q) => self.balance_http_request(q, r),
            _ => false,
        }
    }

    /// The REST requests this client can send: orders of a known side and type with a
    /// channel id that can be a header, and private requests only with a credential.
    pub open spec fn rest_request_ok(&self, request: Request) -> bool {
        &&& is_rest_request(request)
        &&& is_private_request(request) ==> self.credential is Some
        &&& request matches Request::PlaceOrder(q) ==> q.side != OrderSide::Unknown && q.order_type
            != OrderType::Unknown && header_value_ok(self.api_channel_id@)
    }

    /// The HTTP request for a REST request at the given time: built by its kind, and
    /// signed when it is private. None where the signature could not be made.
    pub fn create_http_request(&self, request: &Request, now: Timestamp) -> (r: Option<HttpRequest>)
        requires
            self.rest_request_ok(*request),
            timestamp_valid(now),
        ensures
            !is_private_request(*request) ==> (r matches Some(h) && self.http_request_for(*request, h)),
            is_private_request(*request) ==> match r {
                Some(h) => exists|u: HttpRequest| #[trigger] self.http_request_for(*request, u)
                    && self.signed_http_request(u, h, int_text(now.seconds as int)),
                None => true,
            },
            is_private_request(*request) ==> (r is Some <==> (header_value_ok(self.credential->0.api_key@) && url_path(self.rest_api_base_url@) is Some)),
    {
        let mut http_request = match request {
            Request::GetInstrumentInfo(q) => return Some(self.create_get_instrument_info_http_request(q)),
            Request::GetTopOfBook(q) => return Some(self.create_get_top_of_book_http_request(q)),
            Request::PlaceOrder(q) => self.create_place_order_http_request(q),
            Request::CancelOrder(q) => self.create_cancel_order_http_request(q),
            Request::GetOpenOrder(q) => self.create_get_open_order_http_request(q),
            Request::GetPosition(q) => self.create_get_position_http_request(q),
            Request::GetBalance(q) => self.create_get_balance_http_request(q),
            _ => return None,
        };
        let ghost unsigned = http_request;
        assert(self.http_request_for(*request, unsigned));
        if self.sign_http_request(&mut http_request, now) {
            Some(http_request)
        } else {
            None
        }
    }

    /// What the converter of the request's kind makes of a successful response.
    pub open spec fn rest_response(&self, request: Request, resp: HttpResponse, r: Response) -> bool {
        match request {
            Request::GetInstrumentInfo(_) => self.instrument_info_response(resp, r),
            Request::GetTopOfBook(_) => self.top_of_book_response(resp, r),
            Request::PlaceOrder(_) => self.place_order_response(resp, r),
            Request::CancelOrder(_) => r is CancelOrder,
            Request::GetOpenOrder(_) => self.open_order_response(resp, r),
            Request::GetPosition(_) => r matches Response::GetPosition(g) && g.data@.len() == 0
                && g.next_page_cursor@.len() == 0,
            Request::GetBalance(_) => self.balance_response(resp, r),
            _ => false,
        }
    }

    /// What a successful response must hold for the converter of the request's kind: a
    /// JSON body (but for a cancellation or positions), whose pairs' precisions are not negative.
    pub open spec fn rest_response_ok(request: Request, resp: HttpResponse) -> bool {
        match request {
            Request::CancelOrder(_) => true,
            Request::GetPosition(_) => true,
            Request::GetInstrumentInfo(_) => resp.json_payload matches Some(j) && forall|i: int|
                0 <= i < gate_documents(j).len() ==> gate_spot_instrument_ok(#[trigger] gate_documents(j)[i]),
            _ => resp.json_payload is Some,
        }
    }

    /// The response to a REST request: the error response where the status is not a
    /// success, else what the converter of the request's kind makes of it. None where a
    /// successful response lacks what that converter reads.
    pub fn create_rest_response(&self, request: &Request, http_response: HttpResponse) -> (r: Option<Response>)
        requires
            is_rest_request(*request),
        ensures
            !status_is_success(http_response.status) ==> (r matches Some(e) && self.error_response(
                http_response,
                e,
            )),
            status_is_success(http_response.status) ==> (r is None <==> !Self::rest_response_ok(
                *request,
                http_response,
            )),
            status_is_success(http_response.status) ==> (r matches Some(p) ==> answers(*request, p)
                && self.rest_response(*request, http_response, p)),
    {
        if !self.is_http_response_success(&http_response) {
            return Some(self.create_http_error_response(http_response));
        }
        match request {
            Request::CancelOrder(_) => return Some(self.create_cancel_order_rest_response(http_response)),
            Request::GetPosition(_) => return Some(self.create_get_position_rest_response(http_response)),
            _ => {},
        }
        let ok = match &http_response.json_payload {
            Some(j) => match request {
                Request::GetInstrumentInfo(_) => instruments_ok(j),
                _ => true,
            },
            None => false,
        };
        if !ok {
            return None;
        }
        let r = match request {
            Request::GetInstrumentInfo(_) => self.create_get_instrument_info_rest_response(http_response),
            Request::GetTopOfBook(_) => self.create_get_top_of_book_rest_response(http_response),
            Request::PlaceOrder(_) => self.create_place_order_rest_response(http_response),
            Request::GetOpenOrder(_) => self.create_get_open_order_rest_response(http_response),
            Request::GetBalance(_) => self.create_get_balance_rest_response(http_response),
            _ => self.create_http_error_response(http_response),
        };
        Some(r)
    }

    /// A 2xx status.
    pub fn is_http_response_success(&self, http_response: &HttpResponse) -> (r: bool)
        ensures
            r == status_is_success(http_response.status),
    {
        http_response.is_status_success()
    }

    /// An instrument per currency-pair document, and no cursor.
    pub open spec fn instrument_info_response(&self, resp: HttpResponse, r: Response) -> bool {
        &&& r matches Response::GetInstrumentInfo(g) && g.next_page_cursor@.len() == 0
                && g.data@.len() == gate_documents(resp.json_payload->0).len()
                && forall|i: int| 0 <= i < g.data@.len() ==> gate_spot_instrument_matches(
                #[trigger] g.data@[i],
                gate_documents(resp.json_payload->0)[i],
                self.instrument_type,
            )
    }

    /// One instrument per currency-pair document (an array of them, or one object).
    pub fn create_get_instrument_info_rest_response(&self, http_response: HttpResponse) -> (r: Response)
        requires
            http_response.json_payload matches Some(j) && forall|i: int| 0 <= i < gate_documents(j).len()
                ==> gate_spot_instrument_ok(#[trigger] gate_documents(j)[i]),
        ensures
            self.instrument_info_response(http_response, r),
    {
        let json = http_response.json_payload.unwrap();
        let mut data: Vec<InstrumentInfo> = Vec::new();
        match &json {
            JsonValue::Array(items) => {
                let mut i: usize = 0;
                while i < items.len()
                    invariant
                        gate_documents(json) == items@,
                        forall|k: int| 0 <= k < items@.len() ==> gate_spot_instrument_ok(#[trigger] items@[k]),
                        i <= items@.len(),
                        data@.len() == i,
                        forall|k: int| 0 <= k < i ==> gate_spot_instrument_matches(#[trigger] data@[k], items@[k], self.instrument_type),
                    decreases items.len() - i,
                {
                    let info = self.convert_json_value_to_instrument_info(&items[i]);
                    data.push(info);
                    i = i + 1;
                }
            },
            JsonValue::Object(_) => {
                assert(gate_documents(json)[0] == json);
                let info = self.convert_json_value_to_instrument_info(&json);
                data.push(info);
            },
            _ => {},
        }
        Response::GetInstrumentInfo(GetInstrumentInfoResponse { data, next_page_cursor: String::new() })
    }

    /// A ticker per item where the body is an array, all at one time.
    pub open spec fn top_of_book_response(&self, resp: HttpResponse, r: Response) -> bool {
        &&& r matches Response::GetTopOfBook(g) && g.data@.len() == array_items(resp.json_payload->0).len()
                && forall|i: int| 0 <= i < g.data@.len() ==> gate_spot_ticker_matches(
                #[trigger] g.data@[i],
                array_items(resp.json_payload->0)[i],
                g.data@[0].timestamp,
                self.instrument_type,
            )
    }

    /// One ticker per item where the body is an array, all at one time: that of the call.
    pub fn create_get_top_of_book_rest_response(&self, http_response: HttpResponse) -> (r: Response)
        requires
            http_response.json_payload is Some,
        ensures
            self.top_of_book_response(http_response, r),
    {
        let json = http_response.json_payload.unwrap();
        let now = utc_now();
        let mut data: Vec<TopOfBook> = Vec::new();
        match json.as_array() {
            Some(items) => {
                let mut i: usize = 0;
                while i < items.len()
                    invariant
                        array_items(json) == items@,
                        i <= items@.len(),
                        data@.len() == i,
                        forall|k: int| 0 <= k < i ==> gate_spot_ticker_matches(#[trigger] data@[k], items@[k], now, self.instrument_type),
                    decreases items.len() - i,
                {
                    let v = &items[i];
                    let t = TopOfBook {
                        exchange_instrument_type: ExchangeInstrumentType::GateioSpotAndMargin(self.instrument_type),
                        symbol: v.field_str("currency_pair"),
                        timestamp: now,
                        bid_price: v.field_str("highest_bid"),
                        bid_size: v.field_str("highest_size"),
                        ask_price: v.field_str("lowest_ask"),
                        ask_size: v.field_str("lowest_size"),
                    };
                    data.push(t);
                    i = i + 1;
                }
            },
            None => {},
        }
        Response::GetTopOfBook(GetTopOfBookResponse { data })
    }

    /// The id of the placed order.
    pub open spec fn place_order_response(&self, resp: HttpResponse, r: Response) -> bool {
        &&& r matches Response::PlaceOrder(p) && p.order_id@ == field_str(resp.json_payload->0, "id"@)
    }

    /// The placed order's "id".
    pub fn create_place_order_rest_response(&self, http_response: HttpResponse) -> (r: Response)
        requires
            http_response.json_payload is Some,
        ensures
            self.place_order_response(http_response, r),
    {
        let json = http_response.json_payload.unwrap();
        Response::PlaceOrder(PlaceOrderResponse { order_id: json.field_str("id") })
    }

    pub fn create_cancel_order_rest_response(&self, _http_response: HttpResponse) -> (r: Response)
        ensures
            r is CancelOrder,
    {
        Response::CancelOrder(CancelOrderResponse {})
    }

    /// The orders of every pair of the body, and no cursor.
    pub open spec fn open_order_response(&self, resp: HttpResponse, r: Response) -> bool {
        &&& r matches Response::GetOpenOrder(g) && g.next_page_cursor@.len() == 0
                && g.data@.len() == all_orders(array_items(resp.json_payload->0)).len()
                && forall|i: int| 0 <= i < g.data@.len() ==> gate_spot_order_matches(
                #[trigger] g.data@[i],
                all_orders(array_items(resp.json_payload->0))[i],
                self.instrument_type,
            )
    }

    /// The orders of every currency pair of the list, in order.
    pub fn create_get_open_order_rest_response(&self, http_response: HttpResponse) -> (r: Response)
        requires
            http_response.json_payload is Some,
        ensures
            self.open_order_response(http_response, r),
    {
        let json = http_response.json_payload.unwrap();
        let mut data: Vec<Order> = Vec::new();
        match json.as_array() {
            Some(items) => {
                let mut i: usize = 0;
                assert(items@.subrange(0, 0) =~= Seq::<JsonValue>::empty());
                while i < items.len()
                    invariant
                        array_items(json) == items@,
                        i <= items@.len(),
                        data@.len() == all_orders(items@.subrange(0, i as int)).len(),
                        forall|k: int| 0 <= k < data@.len() ==> gate_spot_order_matches(
                            #[trigger] data@[k],
                            all_orders(items@.subrange(0, i as int))[k],
                            self.instrument_type,
                        ),
                    decreases items.len() - i,
                {
                    let ghost before = all_orders(items@.subrange(0, i as int));
                    assert(items@.subrange(0, i + 1).drop_last() =~= items@.subrange(0, i as int));
                    let ghost orders_here = item_orders(items@[i as int]);
                    let ghost start = data@.len();
                    match items[i].at("orders") {
                        Some(o) => match o.as_array() {
                            Some(orders) => {
                                let mut k: usize = 0;
                                while k < orders.len()
                                    invariant
                                        orders_here == orders@,
                                        k <= orders@.len(),
                                        start == before.len(),
                                        data@.len() == start + k,
                                        forall|m: int| 0 <= m < start ==> gate_spot_order_matches(
                                            #[trigger] data@[m],
                                            before[m],
                                            self.instrument_type,
                                        ),
                                        forall|m: int| start <= m < start + k ==> gate_spot_order_matches(
                                            #[trigger] data@[m],
                                            orders@[m - start],
                                            self.instrument_type,
                                        ),
                                    decreases orders.len() - k,
                                {
                                    let order = self.convert_json_value_to_order(&orders[k]);
                                    data.push(order);
                                    k = k + 1;
                                }
                            },
                            None => {},
                        },
                        None => {},
                    }
                    proof {
                        let after = all_orders(items@.subrange(0, i + 1));
                        assert(after =~= before + orders_here);
                        assert forall|m: int| 0 <= m < data@.len() implies gate_spot_order_matches(
                            #[trigger] data@[m],
                            after[m],
                            self.instrument_type,
                        ) by {
                            if m < start {
                                assert(after[m] == before[m]);
                            } else {
                                assert(after[m] == orders_here[m - start]);
                            }
                        }
                    }
                    i = i + 1;
                }
                assert(items@.subrange(0, items@.len() as int) =~= items@);
            },
            None => {},
        }
        Response::GetOpenOrder(GetOpenOrderResponse { data, next_page_cursor: String::new() })
    }

    /// No positions.
    pub fn create_get_position_rest_response(&self, _http_response: HttpResponse) -> (r: Response)
        ensures
            r matches Response::GetPosition(g) && g.data@.len() == 0 && g.next_page_cursor@.len() == 0,
    {
        Response::GetPosition(GetPositionResponse { data: Vec::new(), next_page_cursor: String::new() })
    }

    /// A balance per account where the body is an array.
    pub open spec fn balance_response(&self, resp: HttpResponse, r: Response) -> bool {
        &&& r matches Response::GetBalance(g) && g.data@.len() == array_items(resp.json_payload->0).len()
                && forall|i: int| 0 <= i < g.data@.len() ==> gate_spot_balance_matches(
                #[trigger] g.data@[i],
                array_items(resp.json_payload->0)[i],
            )
    }

    /// One balance per account where the body is an array.
    pub fn create_get_balance_rest_response(&self, http_response: HttpResponse) -> (r: Response)
        requires
            http_response.json_payload is Some,
        ensures
            self.balance_response(http_response, r),
    {
        let json = http_response.json_payload.unwrap();
        let mut data: Vec<Balance> = Vec::new();
        match json.as_array() {
            Some(items) => {
                let mut i: usize = 0;
                while i < items.len()
                    invariant
                        array_items(json) == items@,
                        i <= items@.len(),
                        data@.len() == i,
                        forall|k: int| 0 <= k < i ==> gate_spot_balance_matches(#[trigger] data@[k], items@[k]),
                    decreases items.len() - i,
                {
                    let b = self.convert_json_value_to_balance(&items[i]);
                    data.push(b);
                    i = i + 1;
                }
            },
            None => {},
        }
        Response::GetBalance(GetBalanceResponse { data })
    }

    /// The response itself, with Gate's label and message where it has a JSON body.
    pub open spec fn error_response(&self, resp: HttpResponse, r: Response) -> bool {
        &&& r matches Response::HttpErrorResponse(e) && e.http_request == resp.http_request && e.status == resp.status
                && e.body == resp.body && e.json_payload == resp.json_payload
                && match resp.json_payload {
                Some(j) => opt_view(e.error_code) == (match spec_get(j, "label"@) {
                    Some(c) => spec_as_str(c),
                    None => None,
                }) && opt_view(e.error_message) == (match spec_get(j, "message"@) {
                    Some(m) => spec_as_str(m),
                    None => None,
                }),
                None => e.error_code == resp.error_code && e.error_message
                    == resp.error_message,
            }
    }

    /// The response with Gate.io's "label" and "message" (where strings) where it has a JSON body.
    pub fn create_http_error_response(&self, http_response: HttpResponse) -> (r: Response)
        ensures
            self.error_response(http_response, r),
    {
        let mut response = http_response;
        match &response.json_payload {
            Some(j) => {
                let code = match j.get("label") {
                    Some(c) => match c.as_str() {
                        Some(s) => Some(string_from(s)),
                        None => None,
                    },
                    None => None,
                };
                let message = match j.get("message") {
                    Some(m) => match m.as_str() {
                        Some(s) => Some(string_from(s)),
                        None => None,
                    },
                    None => None,
                };
                response.error_code = code;
                response.error_message = message;
            },
            None => {},
        }
        Response::HttpErrorResponse(response)
    }
}

} // verus!
