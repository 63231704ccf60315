//! Gate.io perpetual futures REST API: the requests, their signature, and the responses.

use vstd::prelude::*;
use vstd::utf8::encode_utf8;
use crate::exchange_client::common::{
    CancelOrderRequest, CancelOrderResponse, GetBalanceRequest, GetBalanceResponse, GetInstrumentInfoRequest,
    GetInstrumentInfoResponse, GetOpenOrderRequest, GetOpenOrderResponse, GetPositionRequest, GetPositionResponse,
    GetTopOfBookRequest, GetTopOfBookResponse, PlaceOrderRequest, PlaceOrderResponse, Response,
};
use crate::exchange_client::common::{answers, is_private_request, is_rest_request, Request};
use crate::exchanges::gateio_perpetual_futures::common::i64_or_zero_exec;
use crate::exchanges::gateio_perpetual_futures::common::{
    gate_balance_matches, gate_instrument_matches, gate_order_matches, gate_order_ok, gate_position_matches,
    gate_signed_size, gate_tif_text, number_or_str_text, GateioPerpetualFuturesClient,
};
use crate::json::{
    field_str, json_int, json_text, members_text, push_member, quoted, spec_as_array, spec_as_str, spec_get,
    JsonValue,
};
use crate::networking::http::{
    has_query, header_value_ok, is_header_value, opt_view, payload_or_empty, push_pair, query_or_empty,
    query_request, status_is_success, HttpMethod, HttpRequest, HttpResponse, method_text,
};
use crate::signing::{hex_encode, hex_text, hmac_sha512, hmac_sha512_tag, pair_views, parse_url_path, sha512, sha512_digest, url_path};
use crate::text::{i64_to_string, int_text, nat_digits, push_str, string_from, trim_end_matches, trim_end_matches_text, u64_to_string};
use crate::time::{timestamp_valid, utc_now};
use crate::types::{Balance, ExchangeInstrumentType, InstrumentInfo, Order, OrderSide, OrderType, Position, Timestamp, TopOfBook};

verus! {

/// `/api/v4/futures/<settle>` followed by the rest of a path.
pub open spec fn futures_path(settle: Seq<char>, rest: Seq<char>) -> Seq<char> {
    "/api/v4/futures/"@ + settle + rest
}

/// The path Gate.io signs: the base URL's path without trailing slashes, then the request's.
pub open spec fn gate_sign_path(base_path: Seq<char>, r: HttpRequest) -> Seq<char> {
    trim_end_matches(base_path, "/"@) + r.path@
}

/// The body Gate.io signs: that of a POST.
pub open spec fn gate_signed_body(r: HttpRequest) -> Seq<char> {
    if r.method == HttpMethod::Post { payload_or_empty(r) } else { Seq::empty() }
}

/// The text Gate.io signs: method, path, query, hex SHA-512 of the body, and time, a line each.
pub open spec fn gate_prehash(base_path: Seq<char>, r: HttpRequest, timestamp: Seq<char>) -> Seq<char> {
    method_text(r.method) + "\n"@ + gate_sign_path(base_path, r) + "\n"@ + query_or_empty(r) + "\n"@ + hex_text(
        sha512_digest(encode_utf8(gate_signed_body(r))),
    ) + "\n"@ + timestamp
}

/// One member of an object: its key and its value's JSON text.
pub open spec fn member(key: Seq<char>, value_text: Seq<char>) -> Seq<char> {
    quoted(key) + seq![':'] + value_text
}

/// The body of an order: contract, price ("0" for a market order), signed size, the
/// client order id as "text" where there is one, and the time in force.
pub open spec fn gate_place_order_text(req: PlaceOrderRequest, size: int) -> Seq<char> {
    let head = member("contract"@, quoted(req.symbol@)) + seq![','] + member(
        "price"@,
        quoted(if req.order_type == OrderType::Limit { req.price@ } else { "0"@ }),
    ) + seq![','] + member("size"@, int_text(size));
    let with_text = if req.client_order_id@.len() != 0 {
        head + seq![','] + member("text"@, quoted(req.client_order_id@))
    } else {
        head
    };
    seq!['{'] + with_text + seq![','] + member("tif"@, quoted(gate_tif_text(req.order_type))) + seq!['}']
}

pub open spec fn gate_open_order_pairs(req: GetOpenOrderRequest) -> Seq<(Seq<char>, Seq<char>)> {
    let a = seq![("status"@, "open"@)];
    let b = if req.symbol@.len() != 0 { a.push(("contract"@, req.symbol@)) } else { a };
    let c = if req.limit > 0 { b.push(("limit"@, nat_digits(req.limit as nat))) } else { b };
    if req.next_page_cursor@.len() != 0 { c.push(("last_id"@, req.next_page_cursor@)) } else { c }
}

/// The documents of a response: the items of an array, the one object, or none.
pub open spec fn gate_documents(j: JsonValue) -> Seq<JsonValue> {
    match j {
        JsonValue::Array(items) => items@,
        JsonValue::Object(e) => seq![j],
        _ => Seq::empty(),
    }
}

pub open spec fn array_items(j: JsonValue) -> Seq<JsonValue> {
    match spec_as_array(j) {
        Some(items) => items,
        None => Seq::empty(),
    }
}

/// The entries of the "balances" object, where there is one.
pub open spec fn balance_entries(j: JsonValue) -> Seq<(String, JsonValue)> {
    match spec_get(j, "balances"@) {
        Some(JsonValue::Object(entries)) => entries@,
        _ => Seq::empty(),
    }
}

pub open spec fn gate_ticker_matches(b: TopOfBook, v: JsonValue, now: Timestamp) -> bool {
    &&& b.exchange_instrument_type == ExchangeInstrumentType::GateioPerpetualFutures
    &&& b.symbol@ == field_str(v, "contract"@)
    &&& b.timestamp == now
    &&& b.bid_price@ == field_str(v, "highest_bid"@)
    &&& b.bid_size@ == field_str(v, "highest_size"@)
    &&& b.ask_price@ == field_str(v, "lowest_ask"@)
    &&& b.ask_size@ == field_str(v, "lowest_size"@)
}

/// Whether every order of an array body has sizes that can be negated.
fn orders_ok(j: &JsonValue) -> (r: bool)
    ensures
        r == forall|i: int| 0 <= i < array_items(*j).len() ==> gate_order_ok(#[trigger] array_items(*j)[i]),
{
    match j.as_array() {
        Some(items) => {
            let mut i: usize = 0;
            while i < items.len()
                invariant
                    i <= items@.len(),
                    array_items(*j) == items@,
                    forall|k: int| 0 <= k < i ==> gate_order_ok(#[trigger] items@[k]),
                decreases items.len() - i,
            {
                if i64_or_zero_exec(&items[i], "size") == i64::MIN || i64_or_zero_exec(&items[i], "left") == i64::MIN {
                    assert(!gate_order_ok(items@[i as int]));
                    return false;
                }
                i = i + 1;
            }
            true
        },
        None => true,
    }
}

impl GateioPerpetualFuturesClient {
    /// A GET of the contracts of the settle currency, or of the one contract.
    pub open spec fn instrument_info_http_request(&self, request: GetInstrumentInfoRequest, r: HttpRequest) -> bool {
        &&& r.is_plain(self.rest_api_base_url@, HttpMethod::Get, futures_path(self.settle@, if request.symbol@.len() != 0 {
                "/contracts/"@ + request.symbol@
            } else {
                "/contracts"@
            }))
    }

    /// Every contract of the settle currency, or the one named.
    pub fn create_get_instrument_info_http_request(&self, request: &GetInstrumentInfoRequest) -> (r: HttpRequest)
        ensures
            self.instrument_info_http_request(*request, r),
    {
        let mut path = string_from("/api/v4/futures/");
        push_str(&mut path, self.settle.as_str());
        if request.symbol.as_str().unicode_len() != 0 {
            push_str(&mut path, "/contracts/");
            push_str(&mut path, request.symbol.as_str());
        } else {
            push_str(&mut path, "/contracts");
        }
        assert(path@ =~= futures_path(self.settle@, if request.symbol@.len() != 0 {
            "/contracts/"@ + request.symbol@
        } else {
            "/contracts"@
        }));
        HttpRequest::new(self.rest_api_base_url.as_str(), HttpMethod::Get, path.as_str(), None, None)
    }

    /// A GET of the tickers of the settle currency.
    pub open spec fn top_of_book_http_request(&self, request: GetTopOfBookRequest, r: HttpRequest) -> bool {
        &&& r.base_url@ == self.rest_api_base_url@
        &&& r.method == HttpMethod::Get
        &&& r.path@ == futures_path(self.settle@, "/tickers"@)
        &&& r.headers.entries@.len() == 0
        &&& request.symbol@.len() != 0 ==> has_query(r, seq![("contract"@, request.symbol@)])
        &&& request.symbol@.len() == 0 ==> r.query_params is None && r.query_string is None
        &&& r.payload is None
    }

    /// The tickers of the settle currency, of one contract where it is named.
    pub fn create_get_top_of_book_http_request(&self, request: &GetTopOfBookRequest) -> (r: HttpRequest)
        ensures
            self.top_of_book_http_request(*request, r),
    {
        let mut path = string_from("/api/v4/futures/");
        push_str(&mut path, self.settle.as_str());
        push_str(&mut path, "/tickers");
        if request.symbol.as_str().unicode_len() != 0 {
            let mut pairs: Vec<(String, String)> = Vec::new();
            assert(pair_views(pairs@) =~= Seq::empty());
            push_pair(&mut pairs, "contract", request.symbol.as_str());
            assert(pair_views(pairs@) =~= seq![("contract"@, request.symbol@)]);
            query_request(self.rest_api_base_url.as_str(), HttpMethod::Get, path.as_str(), pairs)
        } else {
            HttpRequest::new(self.rest_api_base_url.as_str(), HttpMethod::Get, path.as_str(), None, None)
        }
    }

    /// The signed request: the unsigned one with the key, the time, the channel id, and
    /// the hex HMAC-SHA512 of what Gate signs (with the path of the base URL).
    pub open spec fn signed_http_request(&self, o: HttpRequest, n: HttpRequest, timestamp: Seq<char>) -> bool {
        let c = self.credential->0;
        &&& url_path(self.rest_api_base_url@) is Some
        &&& n.base_url == o.base_url
        &&& n.method == o.method
        &&& n.path == o.path
        &&& n.query_string == o.query_string
        &&& n.payload == o.payload
        &&& n.headers.spec_get("key"@) == Some(c.api_key@)
        &&& n.headers.spec_get("timestamp"@) == Some(timestamp)
        &&& n.headers.spec_get("sign"@) == Some(hex_text(hmac_sha512_tag(
            encode_utf8(c.api_secret@),
            encode_utf8(gate_prehash(url_path(self.rest_api_base_url@)->0, o, timestamp)),
        )))
        &&& n.headers.spec_get("x-gate-channel-id"@) == Some(self.api_channel_id@)
        &&& forall|k: Seq<char>| k != "key"@ && k != "timestamp"@ && k != "sign"@ && k != "x-gate-channel-id"@ ==> n.headers.spec_get(k) == o.headers.spec_get(k)
    }

    /// Signs the request at the given time (whole seconds, as text); false, with the
    /// request unchanged, where the base URL does not parse.
    pub fn sign_http_request_with(&self, http_request: &mut HttpRequest, timestamp: &str) -> (signed: bool)
        requires
            self.credential is Some,
            header_value_ok(self.credential->0.api_key@),
            header_value_ok(self.api_channel_id@),
            header_value_ok(timestamp@),
        ensures
            signed == url_path(self.rest_api_base_url@) is Some,
            !signed ==> *final(http_request) == *old(http_request),
            signed ==> self.signed_http_request(*old(http_request), *final(http_request), timestamp@),
    {
        let c = self.credential.as_ref().unwrap();
        let base_path = match parse_url_path(self.rest_api_base_url.as_str()) {
            Some(p) => p,
            None => return false,
        };
        let trimmed = trim_end_matches_text(base_path.as_str(), "/");
        let body = if http_request.method == HttpMethod::Post { http_request.payload_or_empty() } else { String::new() };
        let body_hash = hex_encode(sha512(body.as_str().as_bytes()).as_slice());
        let query = http_request.query_or_empty();
        let mut prehash = string_from(http_request.method.as_str());
        push_str(&mut prehash, "\n");
        push_str(&mut prehash, trimmed.as_str());
        push_str(&mut prehash, http_request.path.as_str());
        push_str(&mut prehash, "\n");
        push_str(&mut prehash, query.as_str());
        push_str(&mut prehash, "\n");
        push_str(&mut prehash, body_hash.as_str());
        push_str(&mut prehash, "\n");
        push_str(&mut prehash, timestamp);
        let ghost o = *old(http_request);
        assert(prehash@ =~= gate_prehash(base_path@, o, timestamp@));
        let signature = hex_encode(hmac_sha512(c.api_secret.as_str().as_bytes(), prehash.as_str().as_bytes()).as_slice());
        let ghost sg = signature@;
        proof {
            reveal_strlit("key");
            reveal_strlit("timestamp");
            reveal_strlit("sign");
            reveal_strlit("x-gate-channel-id");
            assert("key"@.len() == 3);
            assert("timestamp"@.len() == 9);
            assert("sign"@.len() == 4);
            assert("x-gate-channel-id"@.len() == 17);
        }
        http_request.headers.insert(string_from("key"), c.api_key.clone());
        http_request.headers.insert(string_from("timestamp"), string_from(timestamp));
        http_request.headers.insert(string_from("sign"), signature);
        http_request.headers.insert(string_from("x-gate-channel-id"), self.api_channel_id.clone());
        assert(http_request.headers.spec_get("sign"@) == Some(sg));
        true
    }

    /// Signs the request at the given time; false, with the request unchanged, where the
    /// key or channel id cannot be a header value or the base URL does not parse.
    pub fn sign_http_request(&self, http_request: &mut HttpRequest, now: Timestamp) -> (signed: bool)
        requires
            self.credential is Some,
            timestamp_valid(now),
        ensures
            signed == (header_value_ok(self.credential->0.api_key@) && header_value_ok(self.api_channel_id@)
                && url_path(self.rest_api_base_url@) is Some),
            !signed ==> *final(http_request) == *old(http_request),
            signed ==> self.signed_http_request(*old(http_request), *final(http_request), int_text(now.seconds as int)),
    {
        let c = self.credential.as_ref().unwrap();
        if !is_header_value(c.api_key.as_str()) || !is_header_value(self.api_channel_id.as_str()) {
            return false;
        }
        let timestamp = i64_to_string(now.seconds);
        proof {
            let t = timestamp@;
            assert forall|i: int| 0 <= i < t.len() implies (t[i] == '\t' || (' ' <= #[trigger] t[i] && t[i] != '\x7f')) by {
                crate::text::lemma_int_text_chars(now.seconds as int, i);
            }
        }
        self.sign_http_request_with(http_request, timestamp.as_str())
    }

    /// A JSON order of the signed number of contracts, posted to the orders path.
    pub open spec fn place_order_http_request(&self, request: PlaceOrderRequest, quantity: i64, r: HttpRequest) -> bool {
        &&& r.base_url@ == self.rest_api_base_url@
        &&& r.method == HttpMethod::Post
        &&& r.path@ == futures_path(self.settle@, "/orders"@)
        &&& r.headers.entries@.len() == 0
        &&& r.query_string is None
        &&& r.json_payload is Some
        &&& r.payload matches Some(p) && p@ == gate_place_order_text(request, gate_signed_size(request.side, quantity))
    }

    /// An order of `quantity` contracts: the request's quantity read as a number and cut to
    /// a whole number of contracts, which the caller does (it is floating-point arithmetic).
    #[verifier::rlimit(40)]
    pub fn create_place_order_http_request(&self, request: &PlaceOrderRequest, quantity: i64) -> (r: HttpRequest)
        requires
            request.side != OrderSide::Unknown,
            request.order_type != OrderType::Unknown,
            quantity != i64::MIN,
        ensures
            self.place_order_http_request(*request, quantity, r),
    {
        let size = self.convert_order_side_to_signed_size(request.side, quantity);
        let tif = self.convert_order_type_to_tif_string(request.order_type);
        let mut entries: Vec<(String, JsonValue)> = Vec::new();
        push_member(&mut entries, "contract", JsonValue::Str(request.symbol.clone()));
        let ghost t1 = members_text(entries@);
        assert(t1 == member("contract"@, quoted(request.symbol@)));
        let price = if request.order_type == OrderType::Limit { request.price.clone() } else { string_from("0") };
        let ghost price_view = price@;
        push_member(&mut entries, "price", JsonValue::Str(price));
        let ghost t2 = members_text(entries@);
        assert(t2 == t1 + seq![','] + member("price"@, quoted(price_view)));
        let size_value = json_int(size);
        push_member(&mut entries, "size", size_value);
        let ghost t3 = members_text(entries@);
        assert(t3 == t2 + seq![','] + member("size"@, int_text(size as int)));
        if request.client_order_id.as_str().unicode_len() != 0 {
            push_member(&mut entries, "text", JsonValue::Str(request.client_order_id.clone()));
            assert(members_text(entries@) == t3 + seq![','] + member("text"@, quoted(request.client_order_id@)));
        }
        let ghost t4 = members_text(entries@);
        push_member(&mut entries, "tif", JsonValue::Str(string_from(tif)));
        assert(members_text(entries@) == t4 + seq![','] + member("tif"@, quoted(tif@)));
        proof {
            let expected = gate_place_order_text(*request, gate_signed_size(request.side, quantity));
            assert(seq!['{'] + members_text(entries@) + seq!['}'] =~= expected);
        }
        let mut path = string_from("/api/v4/futures/");
        push_str(&mut path, self.settle.as_str());
        push_str(&mut path, "/orders");
        HttpRequest::new(self.rest_api_base_url.as_str(), HttpMethod::Post, path.as_str(), None, Some(JsonValue::Object(entries)))
    }

    /// A DELETE of the order.
    pub open spec fn cancel_order_http_request(&self, request: CancelOrderRequest, r: HttpRequest) -> bool {
        &&& r.is_plain(self.rest_api_base_url@, HttpMethod::Delete, futures_path(self.settle@, "/orders/"@ + if request.order_id@.len() != 0 {
                request.order_id@
            } else {
                request.client_order_id@
            }))
    }

    /// Cancels by order id, else by client order id.
    pub fn create_cancel_order_http_request(&self, request: &CancelOrderRequest) -> (r: HttpRequest)
        ensures
            self.cancel_order_http_request(*request, r),
    {
        let mut path = string_from("/api/v4/futures/");
        push_str(&mut path, self.settle.as_str());
        push_str(&mut path, "/orders/");
        if request.order_id.as_str().unicode_len() != 0 {
            push_str(&mut path, request.order_id.as_str());
        } else {
            push_str(&mut path, request.client_order_id.as_str());
        }
        assert(path@ =~= futures_path(self.settle@, "/orders/"@ + if request.order_id@.len() != 0 {
            request.order_id@
        } else {
            request.client_order_id@
        }));
        HttpRequest::new(self.rest_api_base_url.as_str(), HttpMethod::Delete, path.as_str(), None, None)
    }

    /// A GET of the open orders.
    pub open spec fn open_order_http_request(&self, request: GetOpenOrderRequest, r: HttpRequest) -> bool {
        &&& r.base_url@ == self.rest_api_base_url@
        &&& r.method == HttpMethod::Get
        &&& r.path@ == futures_path(self.settle@, "/orders"@)
        &&& r.headers.entries@.len() == 0
        &&& has_query(r, gate_open_order_pairs(request))
        &&& r.payload is None
    }

    pub fn create_get_open_order_http_request(&self, request: &GetOpenOrderRequest) -> (r: HttpRequest)
        ensures
            self.open_order_http_request(*request, r),
    {
        let mut pairs: Vec<(String, String)> = Vec::new();
        assert(pair_views(pairs@) =~= Seq::empty());
        push_pair(&mut pairs, "status", "open");
        if request.symbol.as_str().unicode_len() != 0 {
            push_pair(&mut pairs, "contract", request.symbol.as_str());
        }
        if request.limit > 0 {
            let limit = u64_to_string(request.limit as u64);
            push_pair(&mut pairs, "limit", limit.as_str());
        }
        if request.next_page_cursor.as_str().unicode_len() != 0 {
            push_pair(&mut pairs, "last_id", request.next_page_cursor.as_str());
        }
        assert(pair_views(pairs@) =~= gate_open_order_pairs(*request));
        let mut path = string_from("/api/v4/futures/");
        push_str(&mut path, self.settle.as_str());
        push_str(&mut path, "/orders");
        query_request(self.rest_api_base_url.as_str(), HttpMethod::Get, path.as_str(), pairs)
    }

    /// A GET of the positions.
    pub open spec fn position_http_request(&self, request: GetPositionRequest, r: HttpRequest) -> bool {
        &&& r.is_plain(self.rest_api_base_url@, HttpMethod::Get, futures_path(self.settle@, if request.symbol@.len() != 0 {
                "/positions/"@ + request.symbol@
            } else {
                "/positions"@
            }))
    }

    /// Every position of the settle currency, or the one of the contract named.
    pub fn create_get_position_http_request(&self, request: &GetPositionRequest) -> (r: HttpRequest)
        ensures
            self.position_http_request(*request, r),
    {
        let mut path = string_from("/api/v4/futures/");
        push_str(&mut path, self.settle.as_str());
        if request.symbol.as_str().unicode_len() != 0 {
            push_str(&mut path, "/positions/");
            push_str(&mut path, request.symbol.as_str());
        } else {
            push_str(&mut path, "/positions");
        }
        assert(path@ =~= futures_path(self.settle@, if request.symbol@.len() != 0 {
            "/positions/"@ + request.symbol@
        } else {
            "/positions"@
        }));
        HttpRequest::new(self.rest_api_base_url.as_str(), HttpMethod::Get, path.as_str(), None, None)
    }

    /// A GET of the futures account.
    pub open spec fn balance_http_request(&self, request: GetBalanceRequest, r: HttpRequest) -> bool {
        &&& r.base_url@ == self.rest_api_base_url@
        &&& r.method == HttpMethod::Get
        &&& r.path@ == "/api/v4/unified/accounts"@
        &&& r.headers.entries@.len() == 0
        &&& request.asset@.len() != 0 ==> has_query(r, seq![("currency"@, request.asset@)])
        &&& request.asset@.len() == 0 ==> r.query_params is None && r.query_string is None
        &&& r.payload is None
    }

    /// The unified account, of one currency where it is named.
    pub fn create_get_balance_http_request(&self, request: &GetBalanceRequest) -> (r: HttpRequest)
        ensures
            self.balance_http_request(*request, r),
    {
        if request.asset.as_str().unicode_len() != 0 {
            let mut pairs: Vec<(String, String)> = Vec::new();
            assert(pair_views(pairs@) =~= Seq::empty());
            push_pair(&mut pairs, "currency", request.asset.as_str());
            assert(pair_views(pairs@) =~= seq![("currency"@, request.asset@)]);
            query_request(self.rest_api_base_url.as_str(), HttpMethod::Get, "/api/v4/unified/accounts", pairs)
        } else {
            HttpRequest::new(self.rest_api_base_url.as_str(), HttpMethod::Get, "/api/v4/unified/accounts", None, None)
        }
    }

    /// The request that the builder of the request's kind makes, before any signature;
    /// an order is of `quantity` contracts.
    pub open spec fn http_request_for(&self, request: Request, quantity: i64, r: HttpRequest) -> bool {
        match request {
            Request::GetInstrumentInfo(q) => self.instrument_info_http_request(q, r),
            Request::GetTopOfBook(q) => self.top_of_book_http_request(q, r),
            Request::PlaceOrder(q) => self.place_order_http_request(q, quantity, r),
            Request::CancelOrder(q) => self.cancel_order_http_request(q, r),
            Request::GetOpenOrder(q) => self.open_order_http_request(q, r),
            Request::GetPosition(q) => self.position_http_request(q, r),
            Request::GetBalance(q) => self.balance_http_request(q, r),
            _ => false,
        }
    }

    /// The REST requests this client can send: orders of a known side and type and of a
    /// quantity that can be negated, and private requests only with a credential.
    pub open spec fn rest_request_ok(&self, request: Request, quantity: i64) -> bool {
        &&& is_rest_request(request)
        &&& is_private_request(request) ==> self.credential is Some
        &&& request matches Request::PlaceOrder(q) ==> q.side != OrderSide::Unknown && q.order_type
            != OrderType::Unknown && quantity != i64::MIN
    }

    /// The HTTP request for a REST request at the given time: built by its kind (an order
    /// of `quantity` contracts, the request's quantity as the caller read it), and signed
    /// when it is private. None where the signature could not be made.
    pub fn create_http_request(&self, request: &Request, quantity: i64, now: Timestamp) -> (r: Option<HttpRequest>)
        requires
            self.rest_request_ok(*request, quantity),
            timestamp_valid(now),
        ensures
            !is_private_request(*request) ==> (r matches Some(h) && self.http_request_for(*request, quantity, h)),
            is_private_request(*request) ==> match r {
                Some(h) => exists|u: HttpRequest| #[trigger] self.http_request_for(*request, quantity, u)
                    && self.signed_http_request(u, h, int_text(now.seconds as int)),
                None => true,
            },
            is_private_request(*request) ==> (r is Some <==> (header_value_ok(self.credential->0.api_key@) && header_value_ok(self.api_channel_id@)
                && url_path(self.rest_api_base_url@) is Some)),
    {
        let mut http_request = match request {
            Request::GetInstrumentInfo(q) => return Some(self.create_get_instrument_info_http_request(q)),
            Request::GetTopOfBook(q) => return Some(self.create_get_top_of_book_http_request(q)),
            Request::PlaceOrder(q) => self.create_place_order_http_request(q, quantity),
            Request::CancelOrder(q) => self.create_cancel_order_http_request(q),
            Request::GetOpenOrder(q) => self.create_get_open_order_http_request(q),
            Request::GetPosition(q) => self.create_get_position_http_request(q),
            Request::GetBalance(q) => self.create_get_balance_http_request(q),
            _ => return None,
        };
        let ghost unsigned = http_request;
        assert(self.http_request_for(*request, quantity, unsigned));
        if self.sign_http_request(&mut http_request, now) {
            Some(http_request)
        } else {
            None
        }
    }

    /// What the converter of the request's kind makes of a successful response.
    pub open spec fn rest_response(&self, request: Request, resp: HttpResponse, r: Response) -> bool {
        match request {
            Request::GetInstrumentInfo(_) => self.instrument_info_response(resp, r),
            Request::GetTopOfBook(_) => self.top_of_book_response(resp, r),
            Request::PlaceOrder(_) => self.place_order_response(resp, r),
            Request::CancelOrder(_) => r is CancelOrder,
            Request::GetOpenOrder(_) => self.open_order_response(resp, r),
            Request::GetPosition(_) => self.position_response(resp, r),
            Request::GetBalance(_) => self.balance_response(resp, r),
            _ => false,
        }
    }

    /// What a successful response must hold for the converter of the request's kind: a
    /// JSON body (but for a cancellation), whose orders' sizes can be negated.
    pub open spec fn rest_response_ok(request: Request, resp: HttpResponse) -> bool {
        match request {
            Request::CancelOrder(_) => true,
            Request::GetOpenOrder(_) => resp.json_payload matches Some(j) && forall|i: int|
                0 <= i < array_items(j).len() ==> gate_order_ok(#[trigger] array_items(j)[i]),
            _ => resp.json_payload is Some,
        }
    }

    /// The response to a REST request: the error response where the status is not a
    /// success, else what the converter of the request's kind makes of it. None where a
    /// successful response lacks what that converter reads.
    pub fn create_rest_response(&self, request: &Request, http_response: HttpResponse) -> (r: Option<Response>)
        requires
            is_rest_request(*request),
        ensures
            !status_is_success(http_response.status) ==> (r matches Some(e) && self.error_response(
                http_response,
                e,
            )),
            status_is_success(http_response.status) ==> (r is None <==> !Self::rest_response_ok(
                *request,
                http_response,
            )),
            status_is_success(http_response.status) ==> (r matches Some(p) ==> answers(*request, p)
                && self.rest_response(*request, http_response, p)),
    {
        if !self.is_http_response_success(&http_response) {
            return Some(self.create_http_error_response(http_response));
        }
        if let Request::CancelOrder(_) = request {
            return Some(self.create_cancel_order_rest_response(http_response));
        }
        let ok = match &http_response.json_payload {
            Some(j) => match request {
                Request::GetOpenOrder(_) => orders_ok(j),
                _ => true,
            },
            None => false,
        };
        if !ok {
            return None;
        }
        let r = match request {
            Request::GetInstrumentInfo(_) => self.create_get_instrument_info_rest_response(http_response),
            Request::GetTopOfBook(_) => self.create_get_top_of_book_rest_response(http_response),
            Request::PlaceOrder(_) => self.create_place_order_rest_response(http_response),
            Request::GetOpenOrder(_) => self.create_get_open_order_rest_response(http_response),
            Request::GetPosition(_) => self.create_get_position_rest_response(http_response),
            Request::GetBalance(_) => self.create_get_balance_rest_response(http_response),
            _ => self.create_http_error_response(http_response),
        };
        Some(r)
    }

    /// A 2xx status.
    pub fn is_http_response_success(&self, http_response: &HttpResponse) -> (r: bool)
        ensures
            r == status_is_success(http_response.status),
    {
        http_response.is_status_success()
    }

    /// An instrument per contract document, and no cursor.
    pub open spec fn instrument_info_response(&self, resp: HttpResponse, r: Response) -> bool {
        &&& r matches Response::GetInstrumentInfo(g) && g.next_page_cursor@.len() == 0
                && g.data@.len() == gate_documents(resp.json_payload->0).len()
                && forall|i: int| 0 <= i < g.data@.len() ==> gate_instrument_matches(
                #[trigger] g.data@[i],
                gate_documents(resp.json_payload->0)[i],
                self.settle@,
            )
    }

    /// One instrument per contract document (an array of them, or one object).
    pub fn create_get_instrument_info_rest_response(&self, http_response: HttpResponse) -> (r: Response)
        requires
            http_response.json_payload is Some,
        ensures
            self.instrument_info_response(http_response, r),
    {
        let json = http_response.json_payload.unwrap();
        let mut data: Vec<InstrumentInfo> = Vec::new();
        match &json {
            JsonValue::Array(items) => {
                let mut i: usize = 0;
                while i < items.len()
                    invariant
                        gate_documents(json) == items@,
                        i <= items@.len(),
                        data@.len() == i,
                        forall|k: int| 0 <= k < i ==> gate_instrument_matches(#[trigger] data@[k], items@[k], self.settle@),
                    decreases items.len() - i,
                {
                    let info = self.convert_json_value_to_instrument_info(&items[i]);
                    data.push(info);
                    i = i + 1;
                }
            },
            JsonValue::Object(_) => {
                let info = self.convert_json_value_to_instrument_info(&json);
                data.push(info);
            },
            _ => {},
        }
        Response::GetInstrumentInfo(GetInstrumentInfoResponse { data, next_page_cursor: String::new() })
    }

    /// A ticker per item where the body is an array, all at one time.
    pub open spec fn top_of_book_response(&self, resp: HttpResponse, r: Response) -> bool {
        &&& r matches Response::GetTopOfBook(g) && g.data@.len() == array_items(resp.json_payload->0).len()
                && forall|i: int| 0 <= i < g.data@.len() ==> gate_ticker_matches(
                #[trigger] g.data@[i],
                array_items(resp.json_payload->0)[i],
                g.data@[0].timestamp,
            )
    }

    /// One ticker per item where the body is an array, all at one time: that of the call.
    pub fn create_get_top_of_book_rest_response(&self, http_response: HttpResponse) -> (r: Response)
        requires
            http_response.json_payload is Some,
        ensures
            self.top_of_book_response(http_response, r),
    {
        let json = http_response.json_payload.unwrap();
        let now = utc_now();
        let mut data: Vec<TopOfBook> = Vec::new();
        match json.as_array() {
            Some(items) => {
                let mut i: usize = 0;
                while i < items.len()
                    invariant
                        array_items(json) == items@,
                        i <= items@.len(),
                        data@.len() == i,
                        forall|k: int| 0 <= k < i ==> gate_ticker_matches(#[trigger] data@[k], items@[k], now),
                    decreases items.len() - i,
                {
                    let v = &items[i];
                    let t = TopOfBook {
                        exchange_instrument_type: ExchangeInstrumentType::GateioPerpetualFutures,
                        symbol: v.field_str("contract"),
                        timestamp: now,
                        bid_price: v.field_str("highest_bid"),
                        bid_size: v.field_str("highest_size"),
                        ask_price: v.field_str("lowest_ask"),
                        ask_size: v.field_str("lowest_size"),
                    };
                    data.push(t);
                    i = i + 1;
                }
            },
            None => {},
        }
        Response::GetTopOfBook(GetTopOfBookResponse { data })
    }

    /// The id of the placed order.
    pub open spec fn place_order_response(&self, resp: HttpResponse, r: Response) -> bool {
        &&& r matches Response::PlaceOrder(p) && p.order_id@ == number_or_str_text(
                spec_get(resp.json_payload->0, "id"@),
                Seq::empty(),
            )
    }

    /// The placed order's "id": a number written out, or a string, or empty.
    pub fn create_place_order_rest_response(&self, http_response: HttpResponse) -> (r: Response)
        requires
            http_response.json_payload is Some,
        ensures
            self.place_order_response(http_response, r),
    {
        let json = http_response.json_payload.unwrap();
        Response::PlaceOrder(PlaceOrderResponse { order_id: self.extract_order_id_from_json(&json) })
    }

    pub fn create_cancel_order_rest_response(&self, _http_response: HttpResponse) -> (r: Response)
        ensures
            r is CancelOrder,
    {
        Response::CancelOrder(CancelOrderResponse {})
    }

    /// An order per item where the body is an array, and no cursor.
    pub open spec fn open_order_response(&self, resp: HttpResponse, r: Response) -> bool {
        &&& r matches Response::GetOpenOrder(g) && g.next_page_cursor@.len() == 0
                && g.data@.len() == array_items(resp.json_payload->0).len()
                && forall|i: int| 0 <= i < g.data@.len() ==> gate_order_matches(
                #[trigger] g.data@[i],
                array_items(resp.json_payload->0)[i],
            )
    }

    /// One order per item where the body is an array.
    pub fn create_get_open_order_rest_response(&self, http_response: HttpResponse) -> (r: Response)
        requires
            http_response.json_payload matches Some(j) && forall|i: int| 0 <= i < array_items(j).len() ==> gate_order_ok(
                #[trigger] array_items(j)[i],
            ),
        ensures
            self.open_order_response(http_response, r),
    {
        let json = http_response.json_payload.unwrap();
        let mut data: Vec<Order> = Vec::new();
        match json.as_array() {
            Some(items) => {
                let mut i: usize = 0;
                while i < items.len()
                    invariant
                        array_items(json) == items@,
                        forall|k: int| 0 <= k < items@.len() ==> gate_order_ok(#[trigger] items@[k]),
                        i <= items@.len(),
                        data@.len() == i,
                        forall|k: int| 0 <= k < i ==> gate_order_matches(#[trigger] data@[k], items@[k]),
                    decreases items.len() - i,
                {
                    let o = self.convert_json_value_to_order(&items[i]);
                    data.push(o);
                    i = i + 1;
                }
            },
            None => {},
        }
        Response::GetOpenOrder(GetOpenOrderResponse { data, next_page_cursor: String::new() })
    }

    /// A position per position document, and no cursor.
    pub open spec fn position_response(&self, resp: HttpResponse, r: Response) -> bool {
        &&& r matches Response::GetPosition(g) && g.next_page_cursor@.len() == 0
                && g.data@.len() == gate_documents(resp.json_payload->0).len()
                && forall|i: int| 0 <= i < g.data@.len() ==> gate_position_matches(
                #[trigger] g.data@[i],
                gate_documents(resp.json_payload->0)[i],
            )
    }

    /// One position per position document (an array of them, or one object).
    pub fn create_get_position_rest_response(&self, http_response: HttpResponse) -> (r: Response)
        requires
            http_response.json_payload is Some,
        ensures
            self.position_response(http_response, r),
    {
        let json = http_response.json_payload.unwrap();
        let mut data: Vec<Position> = Vec::new();
        match &json {
            JsonValue::Array(items) => {
                let mut i: usize = 0;
                while i < items.len()
                    invariant
                        gate_documents(json) == items@,
                        i <= items@.len(),
                        data@.len() == i,
                        forall|k: int| 0 <= k < i ==> gate_position_matches(#[trigger] data@[k], items@[k]),
                    decreases items.len() - i,
                {
                    let p = self.convert_json_value_to_position(&items[i]);
                    data.push(p);
                    i = i + 1;
                }
            },
            JsonValue::Object(_) => {
                let p = self.convert_json_value_to_position(&json);
                data.push(p);
            },
            _ => {},
        }
        Response::GetPosition(GetPositionResponse { data, next_page_cursor: String::new() })
    }

    /// A balance per member of the body's balances.
    pub open spec fn balance_response(&self, resp: HttpResponse, r: Response) -> bool {
        &&& r matches Response::GetBalance(g) && g.data@.len() == balance_entries(resp.json_payload->0).len()
                && forall|i: int| 0 <= i < g.data@.len() ==> gate_balance_matches(
                #[trigger] g.data@[i],
                balance_entries(resp.json_payload->0)[i].0@,
                balance_entries(resp.json_payload->0)[i].1,
            )
    }

    /// One balance per entry of the "balances" object: its currency and "available".
    pub fn create_get_balance_rest_response(&self, http_response: HttpResponse) -> (r: Response)
        requires
            http_response.json_payload is Some,
        ensures
            self.balance_response(http_response, r),
    {
        let json = http_response.json_payload.unwrap();
        let mut data: Vec<Balance> = Vec::new();
        match json.get("balances") {
            Some(JsonValue::Object(entries)) => {
                let mut i: usize = 0;
                while i < entries.len()
                    invariant
                        balance_entries(json) == entries@,
                        i <= entries@.len(),
                        data@.len() == i,
                        forall|k: int| 0 <= k < i ==> gate_balance_matches(#[trigger] data@[k], entries@[k].0@, entries@[k].1),
                    decreases entries.len() - i,
                {
                    let b = self.convert_balance_entry_to_balance(entries[i].0.as_str(), &entries[i].1);
                    data.push(b);
                    i = i + 1;
                }
            },
            _ => {},
        }
        Response::GetBalance(GetBalanceResponse { data })
    }

    /// The response itself, with Gate's label and message where it has a JSON body.
    pub open spec fn error_response(&self, resp: HttpResponse, r: Response) -> bool {
        &&& r matches Response::HttpErrorResponse(e) && e.http_request == resp.http_request && e.status == resp.status
                && e.body == resp.body && e.json_payload == resp.json_payload
                && match resp.json_payload {
                Some(j) => opt_view(e.error_code) == (match spec_get(j, "label"@) {
                    Some(c) => spec_as_str(c),
                    None => None,
                }) && opt_view(e.error_message) == (match spec_get(j, "message"@) {
                    Some(m) => spec_as_str(m),
                    None => None,
                }),
                None => e.error_code == resp.error_code && e.error_message
                    == resp.error_message,
            }
    }

    /// The response with Gate.io's "label" and "message" (where strings) where it has a JSON body.
    pub fn create_http_error_response(&self, http_response: HttpResponse) -> (r: Response)
        ensures
            self.error_response(http_response, r),
    {
        let mut response = http_response;
        match &response.json_payload {
            Some(j) => {
                let code = match j.get("label") {
                    Some(c) => match c.as_str() {
                        Some(s) => Some(string_from(s)),
                        None => None,
                    },
                    None => None,
                };
                let message = match j.get("message") {
                    Some(m) => match m.as_str() {
                        Some(s) => Some(string_from(s)),
                        None => None,
                    },
                    None => None,
                };
                response.error_code = code;
                response.error_message = message;
            },
            None => {},
        }
        Response::HttpErrorResponse(response)
    }
}

} // verus!
