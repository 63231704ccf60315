//! HTX spot REST API: the requests, their HMAC-SHA256 signature over the sorted,
//! percent-encoded query, and the responses.

use vstd::prelude::*;
use vstd::utf8::encode_utf8;
use crate::exchange_client::common::{
    answers, is_private_request, is_rest_request, CancelOrderRequest, CancelOrderResponse, GetAccountInfoResponse,
    GetBalanceRequest, GetBalanceResponse, GetInstrumentInfoRequest, GetInstrumentInfoResponse, GetOpenOrderRequest,
    GetOpenOrderResponse, GetPositionRequest, GetPositionResponse, GetTopOfBookRequest, GetTopOfBookResponse,
    PlaceOrderRequest, PlaceOrderResponse, Request, Response,
};
use crate::exchanges::htx_spot::common::{
    htx_balance_matches, htx_encoded, htx_instrument_matches, htx_instrument_ok, htx_order_matches,
    htx_side_type_text, member_or, HtxSpotClient,
};
use crate::json::{array_at, field_str, json_text, spec_as_array, spec_as_str, spec_at, spec_get, JsonValue};
use crate::networking::http::{
    has_json_body, has_query, json_request, method_text, opt_view, push_pair, query_request, status_is_success,
    HttpMethod, HttpRequest, HttpResponse,
};
use crate::signing::{
    base64_encode, base64_standard, hmac_sha256, hmac_sha256_tag, pair_views, parse_url_host, parse_url_path,
    url_host, url_path,
};
use crate::sorting::{sort_pairs_by_name, sorted_by_name_of};
use crate::text::{nat_digits, push_str, split_first, split_first_char, str_eq, string_from, u64_to_string};
use crate::time::{format_utc_seconds, timestamp_valid, utc_now, utc_seconds_text};
use crate::types::{
    AccountInfo, Balance, Exchange, ExchangeInstrumentType, InstrumentInfo, Order, OrderSide, OrderType, Timestamp, TopOfBook,
};

verus! {

/// The index of the first pair with the name.
pub open spec fn pair_find(p: Seq<(Seq<char>, Seq<char>)>, name: Seq<char>) -> Option<int>
    decreases p.len(),
{
    if p.len() == 0 {
        None
    } else if p[0].0 == name {
        Some(0)
    } else {
        match pair_find(p.drop_first(), name) {
            Some(i) => Some(i + 1),
            None => None,
        }
    }
}

/// The pairs with `name` set to `value`, as a map's `insert` sets it: the value replaced
/// where the name is there, else the pair added at the end.
pub open spec fn upsert(p: Seq<(Seq<char>, Seq<char>)>, name: Seq<char>, value: Seq<char>) -> Seq<(Seq<char>, Seq<char>)> {
    match pair_find(p, name) {
        Some(i) => p.update(i, (name, value)),
        None => p.push((name, value)),
    }
}

proof fn lemma_pair_find_first(p: Seq<(Seq<char>, Seq<char>)>, name: Seq<char>, i: int)
    requires
        0 <= i < p.len(),
        p[i].0 == name,
        forall|j: int| 0 <= j < i ==> p[j].0 != name,
    ensures
        pair_find(p, name) == Some(i),
    decreases i,
{
    if i > 0 {
        lemma_pair_find_first(p.drop_first(), name, i - 1);
    }
}

proof fn lemma_pair_find_none(p: Seq<(Seq<char>, Seq<char>)>, name: Seq<char>)
    requires
        forall|j: int| 0 <= j < p.len() ==> p[j].0 != name,
    ensures
        pair_find(p, name) is None,
    decreases p.len(),
{
    if p.len() > 0 {
        lemma_pair_find_none(p.drop_first(), name);
    }
}

/// Sets `name` to `value` in the pairs ([`upsert`]).
pub fn upsert_pair(pairs: &mut Vec<(String, String)>, name: &str, value: &str)
    ensures
        pair_views(final(pairs)@) == upsert(pair_views(old(pairs)@), name@, value@),
{
    let ghost before = pair_views(pairs@);
    let mut i: usize = 0;
    while i < pairs.len()
        invariant
            i <= pairs@.len(),
            before == pair_views(pairs@),
            before == pair_views(old(pairs)@),
            forall|j: int| 0 <= j < i ==> before[j].0 != name@,
        decreases pairs@.len() - i,
    {
        if str_eq(pairs[i].0.as_str(), name) {
            proof {
                lemma_pair_find_first(before, name@, i as int);
            }
            pairs.set(i, (string_from(name), string_from(value)));
            assert(pair_views(pairs@) =~= before.update(i as int, (name@, value@)));
            return;
        }
        i = i + 1;
    }
    proof {
        lemma_pair_find_none(before, name@);
    }
    pairs.push((string_from(name), string_from(value)));
    assert(pair_views(pairs@) =~= before.push((name@, value@)));
}

/// The parameters a signed request carries: its own, with the API key, the signature
/// method and version, and the time set.
pub open spec fn htx_signed_params(
    p: Seq<(Seq<char>, Seq<char>)>,
    api_key: Seq<char>,
    timestamp: Seq<char>,
) -> Seq<(Seq<char>, Seq<char>)> {
    upsert(
        upsert(upsert(upsert(p, "AccessKeyId"@, api_key), "SignatureMethod"@, "HmacSHA256"@), "SignatureVersion"@, "2"@),
        "Timestamp"@,
        timestamp,
    )
}

/// Each name and value percent-encoded from its UTF-8 bytes.
pub open spec fn htx_encoded_pairs(p: Seq<(Seq<char>, Seq<char>)>) -> Seq<(Seq<char>, Seq<char>)> {
    p.map_values(|x: (Seq<char>, Seq<char>)| (htx_encoded(encode_utf8(x.0)), htx_encoded(encode_utf8(x.1))))
}

/// `name=value` of each pair, joined by '&'.
pub open spec fn htx_joined(r: Seq<(Seq<char>, Seq<char>)>) -> Seq<char>
    decreases r.len(),
{
    if r.len() == 0 {
        Seq::empty()
    } else if r.len() == 1 {
        r[0].0 + "="@ + r[0].1
    } else {
        htx_joined(r.drop_last()) + "&"@ + r.last().0 + "="@ + r.last().1
    }
}

/// What is signed: the method, host, path and encoded query, one per line.
pub open spec fn htx_prehash(method: HttpMethod, host: Seq<char>, path: Seq<char>, query: Seq<char>) -> Seq<char> {
    method_text(method) + "\n"@ + host + "\n"@ + path + "\n"@ + query
}

/// The percent-encoded Base64 HMAC-SHA256 tag of the text under the secret.
pub open spec fn htx_signature(secret: Seq<char>, prehash: Seq<char>) -> Seq<char> {
    htx_encoded(encode_utf8(base64_standard(hmac_sha256_tag(encode_utf8(secret), encode_utf8(prehash)))))
}

/// A signed query string: the encoded parameters sorted by name and joined, then the
/// signature of the request with that query.
pub open spec fn htx_signed_query(
    params: Seq<(Seq<char>, Seq<char>)>,
    secret: Seq<char>,
    method: HttpMethod,
    host: Seq<char>,
    path: Seq<char>,
    q: Seq<char>,
) -> bool {
    exists|r: Seq<(Seq<char>, Seq<char>)>| #[trigger] sorted_by_name_of(htx_encoded_pairs(params), r) && q
        == htx_joined(r) + "&Signature="@ + htx_signature(secret, htx_prehash(method, host, path, htx_joined(r)))
}

/// The request signed: the parameters set and the signed query string, nothing else changed.
pub open spec fn htx_signed(
    o: HttpRequest,
    n: HttpRequest,
    api_key: Seq<char>,
    secret: Seq<char>,
    host: Seq<char>,
    timestamp: Seq<char>,
) -> bool {
    let params = htx_signed_params(
        match o.query_params {
            Some(p) => pair_views(p@),
            None => Seq::empty(),
        },
        api_key,
        timestamp,
    );
    &&& n.base_url == o.base_url
    &&& n.method == o.method
    &&& n.path == o.path
    &&& n.headers == o.headers
    &&& n.json_payload == o.json_payload
    &&& n.payload == o.payload
    &&& n.query_params matches Some(p) && pair_views(p@) == params
    &&& n.query_string matches Some(q) && htx_signed_query(params, secret, o.method, host, o.path@, q@)
}

/// The host that signatures name: the URL's host, or nothing where it parses without
/// one; none where it does not parse.
pub open spec fn htx_host(url: Seq<char>) -> Option<Seq<char>> {
    match url_host(url) {
        Some(h) => Some(h),
        None => if url_path(url) is Some { Some(Seq::empty()) } else { None },
    }
}

pub fn htx_host_exec(url: &str) -> (r: Option<String>)
    ensures
        match r {
            Some(h) => htx_host(url@) == Some(h@),
            None => htx_host(url@) is None,
        },
{
    match parse_url_host(url) {
        Some(h) => Some(h),
        None => match parse_url_path(url) {
            Some(_) => Some(String::new()),
            None => None,
        },
    }
}

fn encode_pairs(pairs: &Vec<(String, String)>) -> (r: Vec<(String, String)>)
    ensures
        pair_views(r@) == htx_encoded_pairs(pair_views(pairs@)),
{
    let mut r: Vec<(String, String)> = Vec::new();
    let mut i: usize = 0;
    while i < pairs.len()
        invariant
            i <= pairs@.len(),
            pair_views(r@) == htx_encoded_pairs(pair_views(pairs@)).take(i as int),
        decreases pairs@.len() - i,
    {
        let name = HtxSpotClient::percent_encode_htx(pairs[i].0.as_str());
        let value = HtxSpotClient::percent_encode_htx(pairs[i].1.as_str());
        let ghost before = r@;
        let ghost x = (name@, value@);
        r.push((name, value));
        assert(pair_views(r@) =~= pair_views(before).push(x));
        assert(x == htx_encoded_pairs(pair_views(pairs@))[i as int]);
        assert(pair_views(r@) =~= htx_encoded_pairs(pair_views(pairs@)).take(i + 1));
        i = i + 1;
    }
    assert(htx_encoded_pairs(pair_views(pairs@)).take(i as int) =~= htx_encoded_pairs(pair_views(pairs@)));
    r
}

fn join_pairs(pairs: &Vec<(String, String)>) -> (r: String)
    ensures
        r@ == htx_joined(pair_views(pairs@)),
{
    let mut s = String::new();
    let mut i: usize = 0;
    while i < pairs.len()
        invariant
            i <= pairs@.len(),
            s@ == htx_joined(pair_views(pairs@).take(i as int)),
        decreases pairs@.len() - i,
    {
        assert(pair_views(pairs@).take(i + 1).drop_last() =~= pair_views(pairs@).take(i as int));
        if i > 0 {
            push_str(&mut s, "&");
        }
        push_str(&mut s, pairs[i].0.as_str());
        push_str(&mut s, "=");
        push_str(&mut s, pairs[i].1.as_str());
        i = i + 1;
    }
    assert(pair_views(pairs@).take(i as int) =~= pair_views(pairs@));
    s
}

fn copy_pairs(pairs: &Vec<(String, String)>) -> (r: Vec<(String, String)>)
    ensures
        pair_views(r@) == pair_views(pairs@),
{
    let mut r: Vec<(String, String)> = Vec::new();
    let mut i: usize = 0;
    while i < pairs.len()
        invariant
            i <= pairs@.len(),
            pair_views(r@) == pair_views(pairs@).take(i as int),
        decreases pairs@.len() - i,
    {
        let ghost before = r@;
        let x = (string_from(pairs[i].0.as_str()), string_from(pairs[i].1.as_str()));
        let ghost xv = (x.0@, x.1@);
        r.push(x);
        assert(pair_views(r@) =~= pair_views(before).push(xv));
        assert(xv == pair_views(pairs@)[i as int]);
        assert(pair_views(r@) =~= pair_views(pairs@).take(i + 1));
        i = i + 1;
    }
    assert(pair_views(pairs@).take(i as int) =~= pair_views(pairs@));
    r
}

/// Signs the request as HTX wants: the key, method, version and time set among the
/// parameters, which are percent-encoded and sorted by name, and the signature of the
/// method, host, path and that query appended.
pub fn htx_sign(http_request: &mut HttpRequest, api_key: &str, api_secret: &str, host: &str, timestamp: &str)
    ensures
        htx_signed(*old(http_request), *final(http_request), api_key@, api_secret@, host@, timestamp@),
{
    let mut params = match &http_request.query_params {
        Some(p) => copy_pairs(p),
        None => Vec::new(),
    };
    assert(pair_views(params@) =~= match old(http_request).query_params {
        Some(p) => pair_views(p@),
        None => Seq::empty(),
    });
    upsert_pair(&mut params, "AccessKeyId", api_key);
    upsert_pair(&mut params, "SignatureMethod", "HmacSHA256");
    upsert_pair(&mut params, "SignatureVersion", "2");
    upsert_pair(&mut params, "Timestamp", timestamp);
    let encoded = encode_pairs(&params);
    let sorted = sort_pairs_by_name(encoded);
    let query = join_pairs(&sorted);
    let mut prehash = string_from(http_request.method.as_str());
    push_str(&mut prehash, "\n");
    push_str(&mut prehash, host);
    push_str(&mut prehash, "\n");
    push_str(&mut prehash, http_request.path.as_str());
    push_str(&mut prehash, "\n");
    push_str(&mut prehash, query.as_str());
    let tag = hmac_sha256(api_secret.as_bytes(), prehash.as_str().as_bytes());
    let signature = base64_encode(tag.as_slice());
    let encoded_signature = HtxSpotClient::percent_encode_htx(signature.as_str());
    let mut query_string = query;
    push_str(&mut query_string, "&Signature=");
    push_str(&mut query_string, encoded_signature.as_str());
    let ghost r = pair_views(sorted@);
    http_request.query_params = Some(params);
    http_request.query_string = Some(query_string);
    proof {
        let o = *old(http_request);
        assert(sorted_by_name_of(htx_encoded_pairs(pair_views(params@)), r));
    }
}

/// The members of a new order, in the order the JSON object writes them.
pub open spec fn htx_place_order_members(req: PlaceOrderRequest, account_id: Seq<char>) -> Seq<(Seq<char>, Seq<char>)> {
    let a = seq![("account-id"@, account_id), ("amount"@, req.quantity@)];
    let b = if req.client_order_id@.len() != 0 { a.push(("client-order-id"@, req.client_order_id@)) } else { a };
    let c = if req.order_type == OrderType::Limit { b.push(("price"@, req.price@)) } else { b };
    c.push(("symbol"@, req.symbol@)).push(("type"@, htx_side_type_text(req.side, req.order_type)))
}

/// The parameters of the open-orders request: the account, the symbol and the size, each
/// where there is one.
pub open spec fn htx_open_order_pairs(req: GetOpenOrderRequest, account_id: Seq<char>) -> Seq<(Seq<char>, Seq<char>)> {
    let a = if account_id.len() != 0 { seq![("account-id"@, account_id)] } else { Seq::empty() };
    let b = if req.symbol@.len() != 0 { a.push(("symbol"@, req.symbol@)) } else { a };
    if req.limit > 0 { b.push(("size"@, nat_digits(req.limit as nat))) } else { b }
}

impl HtxSpotClient {
    pub fn create_get_instrument_info_http_request(&self, _request: &GetInstrumentInfoRequest) -> (r: HttpRequest)
        ensures
            r.is_plain(self.rest_api_base_url@, HttpMethod::Get, "/v1/common/symbols"@),
    {
        HttpRequest::new(self.rest_api_base_url.as_str(), HttpMethod::Get, "/v1/common/symbols", None, None)
    }

    /// The merged ticker of a symbol, or every ticker where no symbol is named.
    pub open spec fn top_of_book_http_request(&self, request: GetTopOfBookRequest, r: HttpRequest) -> bool {
        if request.symbol@.len() != 0 {
            &&& r.base_url@ == self.rest_api_base_url@
            &&& r.method == HttpMethod::Get
            &&& r.path@ == "/market/detail/merged"@
            &&& r.headers.entries@.len() == 0
            &&& has_query(r, seq![("symbol"@, request.symbol@)])
            &&& r.payload is None
        } else {
            r.is_plain(self.rest_api_base_url@, HttpMethod::Get, "/market/tickers"@)
        }
    }

    pub fn create_get_top_of_book_http_request(&self, request: &GetTopOfBookRequest) -> (r: HttpRequest)
        ensures
            self.top_of_book_http_request(*request, r),
    {
        if request.symbol.as_str().unicode_len() != 0 {
            let mut pairs: Vec<(String, String)> = Vec::new();
            assert(pair_views(pairs@) =~= Seq::empty());
            push_pair(&mut pairs, "symbol", request.symbol.as_str());
            assert(pair_views(pairs@) =~= seq![("symbol"@, request.symbol@)]);
            query_request(self.rest_api_base_url.as_str(), HttpMethod::Get, "/market/detail/merged", pairs)
        } else {
            HttpRequest::new(self.rest_api_base_url.as_str(), HttpMethod::Get, "/market/tickers", None, None)
        }
    }

    /// A JSON order posted to the place path.
    pub open spec fn place_order_http_request(&self, request: PlaceOrderRequest, r: HttpRequest) -> bool {
        &&& r.base_url@ == self.rest_api_base_url@
        &&& r.method == HttpMethod::Post
        &&& r.path@ == "/v1/order/orders/place"@
        &&& r.headers.entries@.len() == 0
        &&& r.query_params is None
        &&& r.query_string is None
        &&& has_json_body(r, htx_place_order_members(request, self.account_id@))
    }

    pub fn create_place_order_http_request(&self, request: &PlaceOrderRequest) -> (r: HttpRequest)
        requires
            request.side != OrderSide::Unknown,
            request.order_type != OrderType::Unknown,
        ensures
            self.place_order_http_request(*request, r),
    {
        let mut pairs: Vec<(String, String)> = Vec::new();
        assert(pair_views(pairs@) =~= Seq::empty());
        push_pair(&mut pairs, "account-id", self.account_id.as_str());
        push_pair(&mut pairs, "amount", request.quantity.as_str());
        if request.client_order_id.as_str().unicode_len() != 0 {
            push_pair(&mut pairs, "client-order-id", request.client_order_id.as_str());
        }
        if request.order_type == OrderType::Limit {
            push_pair(&mut pairs, "price", request.price.as_str());
        }
        push_pair(&mut pairs, "symbol", request.symbol.as_str());
        push_pair(&mut pairs, "type", self.convert_order_side_and_type_to_string(request.side, request.order_type));
        assert(pair_views(pairs@) =~= htx_place_order_members(*request, self.account_id@));
        json_request(self.rest_api_base_url.as_str(), HttpMethod::Post, "/v1/order/orders/place", &pairs)
    }

    /// A cancellation by order id in the path, else by client order id in the body.
    pub open spec fn cancel_order_http_request(&self, request: CancelOrderRequest, r: HttpRequest) -> bool {
        if request.order_id@.len() != 0 {
            r.is_plain(
                self.rest_api_base_url@,
                HttpMethod::Post,
                "/v1/order/orders/"@ + request.order_id@ + "/submitcancel"@,
            )
        } else {
            &&& r.base_url@ == self.rest_api_base_url@
            &&& r.method == HttpMethod::Post
            &&& r.path@ == "/v1/order/orders/submitCancelClientOrder"@
            &&& r.headers.entries@.len() == 0
            &&& r.query_params is None
            &&& r.query_string is None
            &&& has_json_body(r, seq![("client-order-id"@, request.client_order_id@)])
        }
    }

    pub fn create_cancel_order_http_request(&self, request: &CancelOrderRequest) -> (r: HttpRequest)
        ensures
            self.cancel_order_http_request(*request, r),
    {
        if request.order_id.as_str().unicode_len() != 0 {
            let mut path = string_from("/v1/order/orders/");
            push_str(&mut path, request.order_id.as_str());
            push_str(&mut path, "/submitcancel");
            HttpRequest::new(self.rest_api_base_url.as_str(), HttpMethod::Post, path.as_str(), None, None)
        } else {
            let mut pairs: Vec<(String, String)> = Vec::new();
            assert(pair_views(pairs@) =~= Seq::empty());
            push_pair(&mut pairs, "client-order-id", request.client_order_id.as_str());
            assert(pair_views(pairs@) =~= seq![("client-order-id"@, request.client_order_id@)]);
            json_request(
                self.rest_api_base_url.as_str(),
                HttpMethod::Post,
                "/v1/order/orders/submitCancelClientOrder",
                &pairs,
            )
        }
    }

    /// A GET of the open orders, with the parameters where there are any.
    pub open spec fn open_order_http_request(&self, request: GetOpenOrderRequest, r: HttpRequest) -> bool {
        let pairs = htx_open_order_pairs(request, self.account_id@);
        &&& r.base_url@ == self.rest_api_base_url@
        &&& r.method == HttpMethod::Get
        &&& r.path@ == "/v1/order/openOrders"@
        &&& r.headers.entries@.len() == 0
        &&& pairs.len() != 0 ==> has_query(r, pairs)
        &&& pairs.len() == 0 ==> r.query_params is None && r.query_string is None
        &&& r.payload is None
    }

    pub fn create_get_open_order_http_request(&self, request: &GetOpenOrderRequest) -> (r: HttpRequest)
        ensures
            self.open_order_http_request(*request, r),
    {
        let mut pairs: Vec<(String, String)> = Vec::new();
        assert(pair_views(pairs@) =~= Seq::empty());
        if self.account_id.as_str().unicode_len() != 0 {
            push_pair(&mut pairs, "account-id", self.account_id.as_str());
        }
        if request.symbol.as_str().unicode_len() != 0 {
            push_pair(&mut pairs, "symbol", request.symbol.as_str());
        }
        if request.limit > 0 {
            let size = u64_to_string(request.limit as u64);
            push_pair(&mut pairs, "size", size.as_str());
        }
        assert(pair_views(pairs@) =~= htx_open_order_pairs(*request, self.account_id@));
        if pairs.len() == 0 {
            HttpRequest::new(self.rest_api_base_url.as_str(), HttpMethod::Get, "/v1/order/openOrders", None, None)
        } else {
            query_request(self.rest_api_base_url.as_str(), HttpMethod::Get, "/v1/order/openOrders", pairs)
        }
    }

    pub fn create_get_position_http_request(&self, _request: &GetPositionRequest) -> (r: HttpRequest)
        ensures
            r.is_plain(self.rest_api_base_url@, HttpMethod::Get, "/v1/account/accounts"@),
    {
        HttpRequest::new(self.rest_api_base_url.as_str(), HttpMethod::Get, "/v1/account/accounts", None, None)
    }

    pub fn create_get_balance_http_request(&self, _request: &GetBalanceRequest) -> (r: HttpRequest)
        ensures
            r.is_plain(
                self.rest_api_base_url@,
                HttpMethod::Get,
                "/v1/account/accounts/"@ + self.account_id@ + "/balance"@,
            ),
    {
        let mut path = string_from("/v1/account/accounts/");
        push_str(&mut path, self.account_id.as_str());
        push_str(&mut path, "/balance");
        HttpRequest::new(self.rest_api_base_url.as_str(), HttpMethod::Get, path.as_str(), None, None)
    }

    /// The accounts of the key (whose ids a client is built with).
    pub fn create_get_account_info_http_request(&self) -> (r: HttpRequest)
        ensures
            r.is_plain(self.rest_api_base_url@, HttpMethod::Get, "/v1/account/accounts"@),
    {
        HttpRequest::new(self.rest_api_base_url.as_str(), HttpMethod::Get, "/v1/account/accounts", None, None)
    }

    /// Signs the request at the given time with the client's key; false, with the request
    /// unchanged, where the base URL does not parse.
    pub fn sign_http_request(&self, http_request: &mut HttpRequest, now: Timestamp) -> (signed: bool)
        requires
            self.credential is Some,
        ensures
            signed == htx_host(self.rest_api_base_url@) is Some,
            !signed ==> *final(http_request) == *old(http_request),
            signed ==> htx_signed(
                *old(http_request),
                *final(http_request),
                self.credential->0.api_key@,
                self.credential->0.api_secret@,
                htx_host(self.rest_api_base_url@)->0,
                utc_seconds_text(now.seconds),
            ),
    {
        let c = self.credential.as_ref().unwrap();
        let host = match htx_host_exec(self.rest_api_base_url.as_str()) {
            Some(h) => h,
            None => return false,
        };
        let timestamp = format_utc_seconds(now.seconds);
        htx_sign(http_request, c.api_key.as_str(), c.api_secret.as_str(), host.as_str(), timestamp.as_str());
        true
    }

    /// The request that the builder of the request's kind makes, before any signature.
    pub open spec fn http_request_for(&self, request: Request, r: HttpRequest) -> bool {
        match request {
            Request::GetInstrumentInfo(_) => r.is_plain(self.rest_api_base_url@, HttpMethod::Get, "/v1/common/symbols"@),
            Request::GetTopOfBook(q) => self.top_of_book_http_request(q, r),
            Request::PlaceOrder(q) => self.place_order_http_request(q, r),
            Request::CancelOrder(q) => self.cancel_order_http_request(q, r),
            Request::GetOpenOrder(q) => self.open_order_http_request(q, r),
            Request::GetPosition(_) => r.is_plain(self.rest_api_base_url@, HttpMethod::Get, "/v1/account/accounts"@),
            Request::GetBalance(_) => r.is_plain(
                self.rest_api_base_url@,
                HttpMethod::Get,
                "/v1/account/accounts/"@ + self.account_id@ + "/balance"@,
            ),
            _ => false,
        }
    }

    /// The REST requests this client can send: orders of a known side and type, and
    /// private requests only with a credential.
    pub open spec fn rest_request_ok(&self, request: Request) -> bool {
        &&& is_rest_request(request)
        &&& is_private_request(request) ==> self.credential is Some
        &&& request matches Request::PlaceOrder(q) ==> q.side != OrderSide::Unknown && q.order_type
            != OrderType::Unknown
    }

    /// The HTTP request for a REST request at the given time: built by its kind, and
    /// signed when it is private. None where the base URL does not parse.
    pub fn create_http_request(&self, request: &Request, now: Timestamp) -> (r: Option<HttpRequest>)
        requires
            self.rest_request_ok(*request),
        ensures
            !is_private_request(*request) ==> (r matches Some(h) && self.http_request_for(*request, h)),
            is_private_request(*request) ==> match r {
                Some(h) => htx_host(self.rest_api_base_url@) is Some && exists|u: HttpRequest| #[trigger]
                    self.http_request_for(*request, u) && htx_signed(
                    u,
                    h,
                    self.credential->0.api_key@,
                    self.credential->0.api_secret@,
                    htx_host(self.rest_api_base_url@)->0,
                    utc_seconds_text(now.seconds),
                ),
                None => htx_host(self.rest_api_base_url@) is None,
            },
    {
        let mut http_request = match request {
            Request::GetInstrumentInfo(q) => return Some(self.create_get_instrument_info_http_request(q)),
            Request::GetTopOfBook(q) => return Some(self.create_get_top_of_book_http_request(q)),
            Request::PlaceOrder(q) => self.create_place_order_http_request(q),
            Request::CancelOrder(q) => self.create_cancel_order_http_request(q),
            Request::GetOpenOrder(q) => self.create_get_open_order_http_request(q),
            Request::GetPosition(q) => self.create_get_position_http_request(q),
            Request::GetBalance(q) => self.create_get_balance_http_request(q),
            _ => return None,
        };
        let ghost unsigned = http_request;
        assert(self.http_request_for(*request, unsigned));
        if self.sign_http_request(&mut http_request, now) {
            Some(http_request)
        } else {
            None
        }
    }
}

/// The items of an array, none of anything else.
pub open spec fn items_of(v: JsonValue) -> Seq<JsonValue> {
    match spec_as_array(v) {
        Some(items) => items,
        None => Seq::empty(),
    }
}

/// A number as a 64-bit float printed by Rust (its text where no decoder read it); the
/// empty text for anything else (`as_f64().map(|v| format!("{}", v)).unwrap_or_default()`).
pub open spec fn htx_float_text(v: JsonValue) -> Seq<char> {
    match v {
        JsonValue::Number(n) => match n.float_text {
            Some(t) => t@,
            None => n.text@,
        },
        _ => Seq::empty(),
    }
}

pub open spec fn htx_float_text_of(v: Option<JsonValue>) -> Seq<char> {
    match v {
        Some(x) => htx_float_text(x),
        None => Seq::empty(),
    }
}

/// The symbol in a channel name: its second part between dots (`split('.').nth(1)`).
pub open spec fn htx_channel_symbol(ch: Seq<char>) -> Seq<char> {
    split_first(split_first(ch, '.').1, '.').0
}

/// Whether a response succeeded: a JSON body whose "status" is "ok", else a success status.
pub open spec fn htx_is_success(resp: HttpResponse) -> bool {
    match resp.json_payload {
        Some(j) => spec_as_str(spec_at(j, "status"@)) == Some("ok"@),
        None => status_is_success(resp.status),
    }
}

/// The items of `data`, where it is an array.
pub open spec fn data_items(j: JsonValue) -> Seq<JsonValue> {
    items_of(spec_at(j, "data"@))
}

/// The items whose "type" is the kind, in order.
pub open spec fn items_of_type(items: Seq<JsonValue>, kind: Seq<char>) -> Seq<JsonValue>
    decreases items.len(),
{
    if items.len() == 0 {
        Seq::empty()
    } else {
        let rest = items_of_type(items.drop_last(), kind);
        if spec_as_str(spec_at(items.last(), "type"@)) == Some(kind) { rest.push(items.last()) } else { rest }
    }
}

pub open spec fn htx_ticker_matches(b: TopOfBook, v: JsonValue, now: Timestamp) -> bool {
    &&& b.exchange_instrument_type == ExchangeInstrumentType::HtxSpot
    &&& b.symbol@ == field_str(v, "symbol"@)
    &&& b.timestamp == now
    &&& b.bid_price@ == htx_float_text(spec_at(v, "bid"@))
    &&& b.bid_size@ == htx_float_text(spec_at(v, "bidSize"@))
    &&& b.ask_price@ == htx_float_text(spec_at(v, "ask"@))
    &&& b.ask_size@ == htx_float_text(spec_at(v, "askSize"@))
}

/// The merged ticker: the symbol from the channel, prices and sizes from the tick's
/// `[price, size]` pairs.
pub open spec fn htx_merged_matches(b: TopOfBook, j: JsonValue, now: Timestamp) -> bool {
    let tick = spec_at(j, "tick"@);
    &&& b.exchange_instrument_type == ExchangeInstrumentType::HtxSpot
    &&& b.symbol@ == htx_channel_symbol(field_str(j, "ch"@))
    &&& b.timestamp == now
    &&& b.bid_price@ == htx_float_text_of(array_at(spec_at(tick, "bid"@), 0))
    &&& b.bid_size@ == htx_float_text_of(array_at(spec_at(tick, "bid"@), 1))
    &&& b.ask_price@ == htx_float_text_of(array_at(spec_at(tick, "ask"@), 0))
    &&& b.ask_size@ == htx_float_text_of(array_at(spec_at(tick, "ask"@), 1))
}

pub open spec fn htx_account_matches(a: AccountInfo, v: JsonValue) -> bool {
    &&& a.exchange == Exchange::HtxSpot
    &&& a.id@ == json_text(spec_at(v, "id"@))
    &&& a.account_type@ == field_str(v, "type"@)
}

pub fn float_text_exec(v: &JsonValue) -> (r: String)
    ensures
        r@ == htx_float_text(*v),
{
    match v {
        JsonValue::Number(n) => match &n.float_text {
            Some(t) => t.clone(),
            None => n.text.clone(),
        },
        _ => String::new(),
    }
}

fn float_text_at(v: &JsonValue, n: usize) -> (r: String)
    ensures
        r@ == htx_float_text_of(array_at(*v, n as int)),
{
    match v.at_index(n) {
        Some(x) => float_text_exec(x),
        None => String::new(),
    }
}

fn channel_symbol(ch: &str) -> (r: String)
    ensures
        r@ == htx_channel_symbol(ch@),
{
    let (_, rest) = split_first_char(ch, '.');
    let (symbol, _) = split_first_char(rest.as_str(), '.');
    symbol
}

pub fn items_exec<'a>(v: &'a JsonValue, empty: &'a Vec<JsonValue>) -> (r: &'a Vec<JsonValue>)
    requires
        empty@.len() == 0,
    ensures
        r@ == items_of(*v),
{
    match v {
        JsonValue::Array(items) => items,
        _ => empty,
    }
}

fn is_type(v: &JsonValue, kind: &str) -> (r: bool)
    ensures
        r == (spec_as_str(spec_at(*v, "type"@)) == Some(kind@)),
{
    match v.at("type") {
        Some(t) => match t.as_str() {
            Some(s) => str_eq(s, kind),
            None => false,
        },
        None => false,
    }
}

fn instruments_ok(j: &JsonValue) -> (r: bool)
    ensures
        r == forall|i: int| 0 <= i < data_items(*j).len() ==> htx_instrument_ok(#[trigger] data_items(*j)[i]),
{
    let null = JsonValue::Null;
    let empty: Vec<JsonValue> = Vec::new();
    let items = items_exec(member_or(j, "data", &null), &empty);
    let mut i: usize = 0;
    while i < items.len()
        invariant
            items@ == data_items(*j),
            i <= items@.len(),
            forall|k: int| 0 <= k < i ==> htx_instrument_ok(#[trigger] items@[k]),
        decreases items.len() - i,
    {
        let p = crate::exchanges::gateio_spot_and_margin::common::i64_member_or_zero_exec(&items[i], "price-precision");
        let a = crate::exchanges::gateio_spot_and_margin::common::i64_member_or_zero_exec(&items[i], "amount-precision");
        if p < 0 || a < 0 {
            return false;
        }
        i = i + 1;
    }
    true
}

impl HtxSpotClient {
    pub fn is_http_response_success(&self, http_response: &HttpResponse) -> (r: bool)
        ensures
            r == htx_is_success(*http_response),
    {
        match &http_response.json_payload {
            Some(j) => match j.at("status") {
                Some(v) => match v.as_str() {
                    Some(s) => str_eq(s, "ok"),
                    None => false,
                },
                None => false,
            },
            None => http_response.is_status_success(),
        }
    }

    /// One instrument per item of `data`.
    pub open spec fn instrument_info_response(&self, resp: HttpResponse, r: Response) -> bool {
        let items = data_items(resp.json_payload->0);
        r matches Response::GetInstrumentInfo(g) && g.next_page_cursor@.len() == 0 && g.data@.len() == items.len()
            && forall|i: int| 0 <= i < items.len() ==> htx_instrument_matches(#[trigger] g.data@[i], items[i])
    }

    pub fn create_get_instrument_info_rest_response(&self, http_response: HttpResponse) -> (r: Response)
        requires
            http_response.json_payload matches Some(j) && forall|i: int| 0 <= i < data_items(j).len()
                ==> htx_instrument_ok(#[trigger] data_items(j)[i]),
        ensures
            self.instrument_info_response(http_response, r),
    {
        let json = http_response.json_payload.unwrap();
        let null = JsonValue::Null;
        let empty: Vec<JsonValue> = Vec::new();
        let items = items_exec(member_or(&json, "data", &null), &empty);
        let mut data: Vec<InstrumentInfo> = Vec::new();
        let mut i: usize = 0;
        while i < items.len()
            invariant
                items@ == data_items(json),
                forall|k: int| 0 <= k < items@.len() ==> htx_instrument_ok(#[trigger] items@[k]),
                i <= items@.len(),
                data@.len() == i,
                forall|k: int| 0 <= k < i ==> htx_instrument_matches(#[trigger] data@[k], items@[k]),
            decreases items.len() - i,
        {
            data.push(self.convert_json_value_to_instrument_info(&items[i]));
            i = i + 1;
        }
        Response::GetInstrumentInfo(GetInstrumentInfoResponse { data, next_page_cursor: String::new() })
    }

    /// Every ticker of `data` where it is an array, else the merged ticker of `tick` where
    /// it is an object, else none; all at one time, that of the call.
    pub open spec fn top_of_book_response(&self, resp: HttpResponse, r: Response) -> bool {
        let j = resp.json_payload->0;
        r matches Response::GetTopOfBook(g) && (g.data@.len() > 0 ==> timestamp_valid(g.data@[0].timestamp)) && if spec_as_array(
            spec_at(j, "data"@),
        ) is Some {
            g.data@.len() == data_items(j).len() && forall|i: int| 0 <= i < g.data@.len() ==> htx_ticker_matches(
                #[trigger] g.data@[i],
                data_items(j)[i],
                g.data@[0].timestamp,
            )
        } else if spec_at(j, "tick"@) is Object {
            g.data@.len() == 1 && htx_merged_matches(g.data@[0], j, g.data@[0].timestamp)
        } else {
            g.data@.len() == 0
        }
    }

    pub fn create_get_top_of_book_rest_response(&self, http_response: HttpResponse) -> (r: Response)
        requires
            http_response.json_payload is Some,
        ensures
            self.top_of_book_response(http_response, r),
    {
        let json = http_response.json_payload.unwrap();
        let now = utc_now();
        let null = JsonValue::Null;
        let mut data: Vec<TopOfBook> = Vec::new();
        match member_or(&json, "data", &null) {
            JsonValue::Array(items) => {
                let mut i: usize = 0;
                while i < items.len()
                    invariant
                        items@ == data_items(json),
                        null == JsonValue::Null,
                        i <= items@.len(),
                        data@.len() == i,
                        forall|k: int| 0 <= k < i ==> htx_ticker_matches(#[trigger] data@[k], items@[k], now),
                    decreases items.len() - i,
                {
                    let v = &items[i];
                    data.push(TopOfBook {
                        exchange_instrument_type: ExchangeInstrumentType::HtxSpot,
                        symbol: v.field_str("symbol"),
                        timestamp: now,
                        bid_price: float_text_exec(member_or(v, "bid", &null)),
                        bid_size: float_text_exec(member_or(v, "bidSize", &null)),
                        ask_price: float_text_exec(member_or(v, "ask", &null)),
                        ask_size: float_text_exec(member_or(v, "askSize", &null)),
                    });
                    i = i + 1;
                }
            },
            _ => {
                let tick = member_or(&json, "tick", &null);
                match tick {
                    JsonValue::Object(_) => {
                        let ch = json.field_str("ch");
                        data.push(TopOfBook {
                            exchange_instrument_type: ExchangeInstrumentType::HtxSpot,
                            symbol: channel_symbol(ch.as_str()),
                            timestamp: now,
                            bid_price: float_text_at(member_or(tick, "bid", &null), 0),
                            bid_size: float_text_at(member_or(tick, "bid", &null), 1),
                            ask_price: float_text_at(member_or(tick, "ask", &null), 0),
                            ask_size: float_text_at(member_or(tick, "ask", &null), 1),
                        });
                    },
                    _ => {},
                }
            },
        }
        Response::GetTopOfBook(GetTopOfBookResponse { data })
    }

    /// The order id, the string in `data`.
    pub fn create_place_order_rest_response(&self, http_response: HttpResponse) -> (r: Response)
        requires
            http_response.json_payload is Some,
        ensures
            r matches Response::PlaceOrder(p) && p.order_id@ == field_str(http_response.json_payload->0, "data"@),
    {
        let json = http_response.json_payload.unwrap();
        Response::PlaceOrder(PlaceOrderResponse { order_id: json.field_str("data") })
    }

    pub fn create_cancel_order_rest_response(&self, _http_response: HttpResponse) -> (r: Response)
        ensures
            r is CancelOrder,
    {
        Response::CancelOrder(CancelOrderResponse {})
    }

    /// One order per item of `data`.
    pub open spec fn open_order_response(&self, resp: HttpResponse, r: Response) -> bool {
        let items = data_items(resp.json_payload->0);
        r matches Response::GetOpenOrder(g) && g.next_page_cursor@.len() == 0 && g.data@.len() == items.len()
            && forall|i: int| 0 <= i < items.len() ==> htx_order_matches(#[trigger] g.data@[i], items[i])
    }

    pub fn create_get_open_order_rest_response(&self, http_response: HttpResponse) -> (r: Response)
        requires
            http_response.json_payload is Some,
        ensures
            self.open_order_response(http_response, r),
    {
        let json = http_response.json_payload.unwrap();
        let null = JsonValue::Null;
        let empty: Vec<JsonValue> = Vec::new();
        let items = items_exec(member_or(&json, "data", &null), &empty);
        let mut data: Vec<Order> = Vec::new();
        let mut i: usize = 0;
        while i < items.len()
            invariant
                items@ == data_items(json),
                i <= items@.len(),
                data@.len() == i,
                forall|k: int| 0 <= k < i ==> htx_order_matches(#[trigger] data@[k], items@[k]),
            decreases items.len() - i,
        {
            data.push(self.convert_json_value_to_order(&items[i]));
            i = i + 1;
        }
        Response::GetOpenOrder(GetOpenOrderResponse { data, next_page_cursor: String::new() })
    }

    /// No positions.
    pub fn create_get_position_rest_response(&self, _http_response: HttpResponse) -> (r: Response)
        ensures
            r matches Response::GetPosition(g) && g.data@.len() == 0 && g.next_page_cursor@.len() == 0,
    {
        Response::GetPosition(GetPositionResponse { data: Vec::new(), next_page_cursor: String::new() })
    }

    /// The balances of the trade accounts in `data.list`.
    pub open spec fn balance_response(&self, resp: HttpResponse, r: Response) -> bool {
        let items = items_of_type(items_of(spec_at(spec_at(resp.json_payload->0, "data"@), "list"@)), "trade"@);
        r matches Response::GetBalance(g) && g.data@.len() == items.len() && forall|i: int|
            0 <= i < items.len() ==> htx_balance_matches(#[trigger] g.data@[i], items[i])
    }

    pub fn create_get_balance_rest_response(&self, http_response: HttpResponse) -> (r: Response)
        requires
            http_response.json_payload is Some,
        ensures
            self.balance_response(http_response, r),
    {
        let json = http_response.json_payload.unwrap();
        let null = JsonValue::Null;
        let empty: Vec<JsonValue> = Vec::new();
        let items = items_exec(member_or(member_or(&json, "data", &null), "list", &null), &empty);
        let mut data: Vec<Balance> = Vec::new();
        let mut i: usize = 0;
        proof {
            reveal_strlit("trade");
            assert(items@.take(0) =~= Seq::<JsonValue>::empty());
        }
        while i < items.len()
            invariant
                items@ == items_of(spec_at(spec_at(json, "data"@), "list"@)),
                i <= items@.len(),
                data@.len() == items_of_type(items@.take(i as int), "trade"@).len(),
                forall|k: int| 0 <= k < data@.len() ==> htx_balance_matches(
                    #[trigger] data@[k],
                    items_of_type(items@.take(i as int), "trade"@)[k],
                ),
            decreases items.len() - i,
        {
            assert(items@.take(i + 1).drop_last() =~= items@.take(i as int));
            if is_type(&items[i], "trade") {
                data.push(self.convert_json_value_to_balance(&items[i]));
            }
            i = i + 1;
        }
        assert(items@.take(items@.len() as int) =~= items@);
        Response::GetBalance(GetBalanceResponse { data })
    }

    /// The spot accounts of `data`: each id as JSON text and its type.
    pub open spec fn account_info_response(&self, resp: HttpResponse, r: Response) -> bool {
        let items = items_of_type(data_items(resp.json_payload->0), "spot"@);
        r matches Response::GetAccountInfo(g) && g.data@.len() == items.len() && forall|i: int|
            0 <= i < items.len() ==> htx_account_matches(#[trigger] g.data@[i], items[i])
    }

    pub fn create_get_account_info_rest_response(&self, http_response: HttpResponse) -> (r: Response)
        requires
            http_response.json_payload is Some,
        ensures
            self.account_info_response(http_response, r),
    {
        let json = http_response.json_payload.unwrap();
        let null = JsonValue::Null;
        let empty: Vec<JsonValue> = Vec::new();
        let items = items_exec(member_or(&json, "data", &null), &empty);
        let mut data: Vec<AccountInfo> = Vec::new();
        let mut i: usize = 0;
        proof {
            reveal_strlit("spot");
            assert(items@.take(0) =~= Seq::<JsonValue>::empty());
        }
        while i < items.len()
            invariant
                items@ == data_items(json),
                null == JsonValue::Null,
                i <= items@.len(),
                data@.len() == items_of_type(items@.take(i as int), "spot"@).len(),
                forall|k: int| 0 <= k < data@.len() ==> htx_account_matches(
                    #[trigger] data@[k],
                    items_of_type(items@.take(i as int), "spot"@)[k],
                ),
            decreases items.len() - i,
        {
            assert(items@.take(i + 1).drop_last() =~= items@.take(i as int));
            if is_type(&items[i], "spot") {
                let item = &items[i];
                data.push(AccountInfo {
                    exchange: Exchange::HtxSpot,
                    id: member_or(item, "id", &null).to_text(),
                    account_type: item.field_str("type"),
                });
            }
            i = i + 1;
        }
        assert(items@.take(items@.len() as int) =~= items@);
        Response::GetAccountInfo(GetAccountInfoResponse { data })
    }

    /// The response itself, with HTX's "err-code" and "err-msg" where it has a JSON body.
    pub open spec fn error_response(&self, resp: HttpResponse, r: Response) -> bool {
        &&& r matches Response::HttpErrorResponse(e) && e.http_request == resp.http_request && e.status == resp.status
                && e.body == resp.body && e.json_payload == resp.json_payload
                && match resp.json_payload {
                Some(j) => opt_view(e.error_code) == (match spec_get(j, "err-code"@) {
                    Some(c) => spec_as_str(c),
                    None => None,
                }) && opt_view(e.error_message) == (match spec_get(j, "err-msg"@) {
                    Some(m) => spec_as_str(m),
                    None => None,
                }),
                None => e.error_code == resp.error_code && e.error_message == resp.error_message,
            }
    }

    pub fn create_http_error_response(&self, http_response: HttpResponse) -> (r: Response)
        ensures
            self.error_response(http_response, r),
    {
        let mut response = http_response;
        match &response.json_payload {
            Some(j) => {
                let code = match j.get("err-code") {
                    Some(c) => match c.as_str() {
                        Some(s) => Some(string_from(s)),
                        None => None,
                    },
                    None => None,
                };
                let message = match j.get("err-msg") {
                    Some(m) => match m.as_str() {
                        Some(s) => Some(string_from(s)),
                        None => None,
                    },
                    None => None,
                };
                response.error_code = code;
                response.error_message = message;
            },
            None => {},
        }
        Response::HttpErrorResponse(response)
    }

    /// What the converter of the request's kind makes of a successful response.
    pub open spec fn rest_response(&self, request: Request, resp: HttpResponse, r: Response) -> bool {
        match request {
            Request::GetInstrumentInfo(_) => self.instrument_info_response(resp, r),
            Request::GetTopOfBook(_) => self.top_of_book_response(resp, r),
            Request::PlaceOrder(_) => r matches Response::PlaceOrder(p) && p.order_id@ == field_str(
                resp.json_payload->0,
                "data"@,
            ),
            Request::CancelOrder(_) => r is CancelOrder,
            Request::GetOpenOrder(_) => self.open_order_response(resp, r),
            Request::GetPosition(_) => r matches Response::GetPosition(g) && g.data@.len() == 0
                && g.next_page_cursor@.len() == 0,
            Request::GetBalance(_) => self.balance_response(resp, r),
            _ => false,
        }
    }

    /// What a successful response must hold for the converter of the request's kind: a
    /// JSON body (but for a cancellation or positions), whose instruments' precisions are
    /// not negative.
    pub open spec fn rest_response_ok(request: Request, resp: HttpResponse) -> bool {
        match request {
            Request::CancelOrder(_) => true,
            Request::GetPosition(_) => true,
            Request::GetInstrumentInfo(_) => resp.json_payload matches Some(j) && forall|i: int|
                0 <= i < data_items(j).len() ==> htx_instrument_ok(#[trigger] data_items(j)[i]),
            _ => resp.json_payload is Some,
        }
    }

    /// The response to a REST request: the error response where it did not succeed, else
    /// what the converter of the request's kind makes of it. None where a successful
    /// response lacks what that converter reads.
    pub fn create_rest_response(&self, request: &Request, http_response: HttpResponse) -> (r: Option<Response>)
        requires
            is_rest_request(*request),
        ensures
            !htx_is_success(http_response) ==> (r matches Some(e) && self.error_response(http_response, e)),
            htx_is_success(http_response) ==> (r is None <==> !Self::rest_response_ok(*request, http_response)),
            htx_is_success(http_response) ==> (r matches Some(p) ==> answers(*request, p) && self.rest_response(
                *request,
                http_response,
                p,
            )),
    {
        if !self.is_http_response_success(&http_response) {
            return Some(self.create_http_error_response(http_response));
        }
        match request {
            Request::CancelOrder(_) => return Some(self.create_cancel_order_rest_response(http_response)),
            Request::GetPosition(_) => return Some(self.create_get_position_rest_response(http_response)),
            _ => {},
        }
        let ok = match &http_response.json_payload {
            Some(j) => match request {
                Request::GetInstrumentInfo(_) => instruments_ok(j),
                _ => true,
            },
            None => false,
        };
        if !ok {
            return None;
        }
        let r = match request {
            Request::GetInstrumentInfo(_) => self.create_get_instrument_info_rest_response(http_response),
            Request::GetTopOfBook(_) => self.create_get_top_of_book_rest_response(http_response),
            Request::PlaceOrder(_) => self.create_place_order_rest_response(http_response),
            Request::GetOpenOrder(_) => self.create_get_open_order_rest_response(http_response),
            _ => self.create_get_balance_rest_response(http_response),
        };
        Some(r)
    }
}

} // verus!
