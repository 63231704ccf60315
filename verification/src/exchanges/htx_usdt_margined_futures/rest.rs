//! HTX USDT-margined swaps REST API: the requests (JSON bodies, signed as on HTX spot),
//! and the responses.

use vstd::prelude::*;
use crate::exchange_client::common::{
    answers, is_private_request, is_rest_request, CancelOrderRequest, CancelOrderResponse, GetBalanceRequest,
    GetBalanceResponse, GetInstrumentInfoRequest, GetInstrumentInfoResponse, GetOpenOrderRequest,
    GetOpenOrderResponse, GetPositionRequest, GetPositionResponse, GetTopOfBookRequest, GetTopOfBookResponse,
    PlaceOrderRequest, PlaceOrderResponse, Request, Response,
};
use crate::exchanges::htx_spot::common::{htx_number_text, member_or, HtxSpotClient};
use crate::exchanges::htx_spot::rest::{htx_host, htx_host_exec, htx_sign, htx_signed, items_exec, items_of};
use crate::exchanges::htx_usdt_margined_futures::common::{
    htx_futures_balance_matches, htx_futures_instrument_matches, htx_futures_order_matches,
    htx_futures_position_matches, htx_futures_side_text, htx_futures_type_text, HtxUsdtMarginedFuturesClient,
};
use crate::json::{
    field_str, json_int, json_text, members_text, push_member, quoted, spec_as_array, spec_as_i64, spec_as_str,
    spec_at, spec_get, JsonValue,
};
use crate::networking::http::{has_query, opt_view, push_pair, query_request, status_is_success, HttpMethod, HttpRequest, HttpResponse};
use crate::signing::pair_views;
use crate::text::{i64_to_string, int_text, nat_digits, parse_i64, parse_i64_spec, str_eq, string_from};
use crate::time::{format_utc_seconds, from_millis_or_epoch, timestamp_from_millis_or_epoch, timestamp_valid, utc_now, utc_seconds_text};
use crate::types::{Balance, ExchangeInstrumentType, InstrumentInfo, Order, OrderSide, OrderType, Position, Timestamp, TopOfBook};

verus! {

/// Object members written as JSON: each name quoted, a colon and the value's text,
/// separated by commas.
pub open spec fn members_of(m: Seq<(Seq<char>, Seq<char>)>) -> Seq<char>
    decreases m.len(),
{
    if m.len() == 0 {
        Seq::empty()
    } else if m.len() == 1 {
        quoted(m[0].0) + seq![':'] + m[0].1
    } else {
        members_of(m.drop_last()) + seq![','] + quoted(m.last().0) + seq![':'] + m.last().1
    }
}

/// The JSON object of the members.
pub open spec fn object_of(m: Seq<(Seq<char>, Seq<char>)>) -> Seq<char> {
    seq!['{'] + members_of(m) + seq!['}']
}

pub(crate) fn add_member(entries: &mut Vec<(String, JsonValue)>, key: &str, value: JsonValue, Ghost(m): Ghost<Seq<(Seq<char>, Seq<char>)>>)
    requires
        members_text(old(entries)@) == members_of(m),
        old(entries)@.len() == m.len(),
    ensures
        members_text(final(entries)@) == members_of(m.push((key@, json_text(value)))),
        final(entries)@.len() == m.len() + 1,
{
    let ghost v = value;
    push_member(entries, key, value);
    assert(m.push((key@, json_text(v))).drop_last() =~= m);
}

/// The members of a new order; the volume and the price come from the caller, which
/// reads the quantity and price as floating point.
pub open spec fn htx_futures_order_members(
    req: PlaceOrderRequest,
    broker: Seq<char>,
    volume: i64,
    price: JsonValue,
) -> Seq<(Seq<char>, Seq<char>)> {
    let a = seq![("channel_code"@, quoted(broker))];
    let b = if req.client_order_id@.len() != 0 { a.push(("client_order_id"@, quoted(req.client_order_id@))) } else { a };
    let c = b.push(("contract_code"@, quoted(req.symbol@))).push(("margin_mode"@, quoted("cross"@)));
    let d = if req.order_type == OrderType::Limit { c.push(("price"@, json_text(price))) } else { c };
    d.push(("side"@, quoted(htx_futures_side_text(req.side)))).push(("type"@, quoted(htx_futures_type_text(req.order_type)))).push(
        ("volume"@, int_text(volume as int)),
    )
}

/// The client order id as the body writes it: a number where it reads as one.
pub open spec fn htx_client_id_text(id: Seq<char>) -> Seq<char> {
    match parse_i64_spec(id) {
        Some(n) => int_text(n as int),
        None => quoted(id),
    }
}

pub open spec fn htx_futures_cancel_members(req: CancelOrderRequest) -> Seq<(Seq<char>, Seq<char>)> {
    let a = if req.order_id@.len() == 0 && req.client_order_id@.len() != 0 {
        seq![("client_order_id"@, htx_client_id_text(req.client_order_id@))]
    } else {
        Seq::empty()
    };
    let b = if req.symbol@.len() != 0 { a.push(("contract_code"@, quoted(req.symbol@))) } else { a };
    if req.order_id@.len() != 0 { b.push(("order_id"@, quoted(req.order_id@))) } else { b }
}

pub open spec fn htx_futures_open_order_members(req: GetOpenOrderRequest) -> Seq<(Seq<char>, Seq<char>)> {
    let a = if req.symbol@.len() != 0 { seq![("contract_code"@, quoted(req.symbol@))] } else { Seq::empty() };
    if req.limit > 0 { a.push(("limit"@, nat_digits(req.limit as nat))) } else { a }
}

pub open spec fn htx_futures_position_members(req: GetPositionRequest) -> Seq<(Seq<char>, Seq<char>)> {
    if req.symbol@.len() != 0 { seq![("contract_code"@, quoted(req.symbol@))] } else { Seq::empty() }
}

/// A request with the members as its JSON body and no query.
pub open spec fn has_body(r: HttpRequest, base_url: Seq<char>, method: HttpMethod, path: Seq<char>, m: Seq<(Seq<char>, Seq<char>)>) -> bool {
    &&& r.base_url@ == base_url
    &&& r.method == method
    &&& r.path@ == path
    &&& r.headers.entries@.len() == 0
    &&& r.query_params is None
    &&& r.query_string is None
    &&& r.json_payload is Some
    &&& r.payload matches Some(p) && p@ == object_of(m)
}

/// A GET with the contract as its only parameter where one is named.
pub open spec fn contract_query(r: HttpRequest, base_url: Seq<char>, path: Seq<char>, symbol: Seq<char>) -> bool {
    if symbol.len() != 0 {
        &&& r.base_url@ == base_url
        &&& r.method == HttpMethod::Get
        &&& r.path@ == path
        &&& r.headers.entries@.len() == 0
        &&& has_query(r, seq![("contract_code"@, symbol)])
        &&& r.payload is None
    } else {
        r.is_plain(base_url, HttpMethod::Get, path)
    }
}

fn contract_query_request(base_url: &str, path: &str, symbol: &str) -> (r: HttpRequest)
    ensures
        contract_query(r, base_url@, path@, symbol@),
{
    if symbol.unicode_len() != 0 {
        let mut pairs: Vec<(String, String)> = Vec::new();
        assert(pair_views(pairs@) =~= Seq::empty());
        push_pair(&mut pairs, "contract_code", symbol);
        assert(pair_views(pairs@) =~= seq![("contract_code"@, symbol@)]);
        query_request(base_url, HttpMethod::Get, path, pairs)
    } else {
        HttpRequest::new(base_url, HttpMethod::Get, path, None, None)
    }
}

/// Whether a response succeeded: a JSON body whose "status" is "ok" or whose "code" is
/// 200, else a success status.
pub open spec fn htx_futures_is_success(resp: HttpResponse) -> bool {
    match resp.json_payload {
        Some(j) => spec_as_str(spec_at(j, "status"@)) == Some("ok"@) || spec_as_i64(spec_at(j, "code"@)) == Some(
            200i64,
        ),
        None => status_is_success(resp.status),
    }
}

/// A price or a size of a tick: the item of the pair where the value is a
/// `[price, size]` array, else the member of that name.
pub open spec fn tick_value(v: JsonValue, key: Seq<char>, size_key: Seq<char>, index: int) -> Seq<char> {
    match spec_as_array(spec_at(v, key)) {
        Some(items) => if 0 <= index < items.len() { htx_number_text(items[index]) } else { htx_number_text(JsonValue::Null) },
        None => if index == 0 { htx_number_text(spec_at(v, key)) } else { htx_number_text(spec_at(v, size_key)) },
    }
}

/// A tick: at its "mtime" where that is positive, else at the time of the call.
pub open spec fn htx_futures_tick_matches(b: TopOfBook, v: JsonValue, now: Timestamp) -> bool {
    let mtime = match spec_as_i64(spec_at(v, "mtime"@)) {
        Some(n) => n as int,
        None => 0,
    };
    &&& b.exchange_instrument_type == ExchangeInstrumentType::HtxUsdtMarginedFutures
    &&& b.symbol@ == field_str(v, "contract_code"@)
    &&& if mtime > 0 { from_millis_or_epoch(b.timestamp, mtime) } else { b.timestamp == now }
    &&& b.bid_price@ == tick_value(v, "bid"@, "bidSize"@, 0)
    &&& b.bid_size@ == tick_value(v, "bid"@, "bidSize"@, 1)
    &&& b.ask_price@ == tick_value(v, "ask"@, "askSize"@, 0)
    &&& b.ask_size@ == tick_value(v, "ask"@, "askSize"@, 1)
}

fn tick_value_exec(v: &JsonValue, key: &str, size_key: &str, index: usize) -> (r: String)
    requires
        index < 2,
    ensures
        r@ == tick_value(*v, key@, size_key@, index as int),
{
    let null = JsonValue::Null;
    match member_or(v, key, &null).as_array() {
        Some(items) => if index < items.len() {
            HtxSpotClient::json_number_to_string(&items[index])
        } else {
            HtxSpotClient::json_number_to_string(&null)
        },
        None => if index == 0 {
            HtxSpotClient::json_number_to_string(member_or(v, key, &null))
        } else {
            HtxSpotClient::json_number_to_string(member_or(v, size_key, &null))
        },
    }
}

impl HtxUsdtMarginedFuturesClient {
    pub fn create_get_instrument_info_http_request(&self, request: &GetInstrumentInfoRequest) -> (r: HttpRequest)
        ensures
            contract_query(r, self.rest_api_base_url@, "/linear-swap-api/v1/swap_contract_info"@, request.symbol@),
    {
        contract_query_request(self.rest_api_base_url.as_str(), "/linear-swap-api/v1/swap_contract_info", request.symbol.as_str())
    }

    pub fn create_get_top_of_book_http_request(&self, request: &GetTopOfBookRequest) -> (r: HttpRequest)
        ensures
            contract_query(r, self.rest_api_base_url@, "/linear-swap-ex/market/bbo"@, request.symbol@),
    {
        contract_query_request(self.rest_api_base_url.as_str(), "/linear-swap-ex/market/bbo", request.symbol.as_str())
    }

    /// A cross-margin order of `volume` contracts (the quantity rounded, which the caller
    /// does in floating point), at `price` (the price read as a float, as JSON) where it
    /// is a limit order.
    pub fn create_place_order_http_request(&self, request: &PlaceOrderRequest, volume: i64, price: JsonValue) -> (r: HttpRequest)
        requires
            request.side != OrderSide::Unknown,
            request.order_type != OrderType::Unknown,
        ensures
            has_body(
                r,
                self.rest_api_base_url@,
                HttpMethod::Post,
                "/v5/trade/order"@,
                htx_futures_order_members(*request, self.api_broker_id@, volume, price),
            ),
    {
        let ghost price_text = json_text(price);
        let mut entries: Vec<(String, JsonValue)> = Vec::new();
        let ghost m0: Seq<(Seq<char>, Seq<char>)> = Seq::empty();
        add_member(&mut entries, "channel_code", JsonValue::Str(string_from(self.api_broker_id.as_str())), Ghost(m0));
        let ghost m1 = m0.push(("channel_code"@, quoted(self.api_broker_id@)));
        if request.client_order_id.as_str().unicode_len() != 0 {
            add_member(&mut entries, "client_order_id", JsonValue::Str(string_from(request.client_order_id.as_str())), Ghost(m1));
        }
        let ghost m2 = if request.client_order_id@.len() != 0 {
            m1.push(("client_order_id"@, quoted(request.client_order_id@)))
        } else {
            m1
        };
        add_member(&mut entries, "contract_code", JsonValue::Str(string_from(request.symbol.as_str())), Ghost(m2));
        let ghost m3 = m2.push(("contract_code"@, quoted(request.symbol@)));
        add_member(&mut entries, "margin_mode", JsonValue::Str(string_from("cross")), Ghost(m3));
        let ghost m4 = m3.push(("margin_mode"@, quoted("cross"@)));
        if request.order_type == OrderType::Limit {
            add_member(&mut entries, "price", price, Ghost(m4));
        }
        let ghost m5 = if request.order_type == OrderType::Limit { m4.push(("price"@, price_text)) } else { m4 };
        let side = self.convert_order_side_to_string(request.side);
        add_member(&mut entries, "side", JsonValue::Str(string_from(side)), Ghost(m5));
        let ghost m6 = m5.push(("side"@, quoted(side@)));
        let order_type = self.convert_order_type_to_string(request.order_type);
        add_member(&mut entries, "type", JsonValue::Str(string_from(order_type)), Ghost(m6));
        let ghost m7 = m6.push(("type"@, quoted(order_type@)));
        add_member(&mut entries, "volume", json_int(volume), Ghost(m7));
        assert(m7.push(("volume"@, int_text(volume as int))) =~= htx_futures_order_members(
            *request,
            self.api_broker_id@,
            volume,
            price,
        ));
        HttpRequest::new(self.rest_api_base_url.as_str(), HttpMethod::Post, "/v5/trade/order", None, Some(JsonValue::Object(entries)))
    }

    /// A cancellation by order id, else by client order id, of the contract where named.
    pub fn create_cancel_order_http_request(&self, request: &CancelOrderRequest) -> (r: HttpRequest)
        ensures
            has_body(
                r,
                self.rest_api_base_url@,
                HttpMethod::Post,
                "/v5/trade/cancel_order"@,
                htx_futures_cancel_members(*request),
            ),
    {
        let mut entries: Vec<(String, JsonValue)> = Vec::new();
        let ghost m0: Seq<(Seq<char>, Seq<char>)> = Seq::empty();
        let by_client = request.order_id.as_str().unicode_len() == 0 && request.client_order_id.as_str().unicode_len() != 0;
        if by_client {
            let value = match parse_i64(request.client_order_id.as_str()) {
                Some(n) => json_int(n),
                None => JsonValue::Str(string_from(request.client_order_id.as_str())),
            };
            add_member(&mut entries, "client_order_id", value, Ghost(m0));
        }
        let ghost m1 = if by_client {
            m0.push(("client_order_id"@, htx_client_id_text(request.client_order_id@)))
        } else {
            m0
        };
        if request.symbol.as_str().unicode_len() != 0 {
            add_member(&mut entries, "contract_code", JsonValue::Str(string_from(request.symbol.as_str())), Ghost(m1));
        }
        let ghost m2 = if request.symbol@.len() != 0 { m1.push(("contract_code"@, quoted(request.symbol@))) } else { m1 };
        if request.order_id.as_str().unicode_len() != 0 {
            add_member(&mut entries, "order_id", JsonValue::Str(string_from(request.order_id.as_str())), Ghost(m2));
        }
        let ghost m3 = if request.order_id@.len() != 0 { m2.push(("order_id"@, quoted(request.order_id@))) } else { m2 };
        assert(m3 =~= htx_futures_cancel_members(*request));
        HttpRequest::new(
            self.rest_api_base_url.as_str(),
            HttpMethod::Post,
            "/v5/trade/cancel_order",
            None,
            Some(JsonValue::Object(entries)),
        )
    }

    pub fn create_get_open_order_http_request(&self, request: &GetOpenOrderRequest) -> (r: HttpRequest)
        ensures
            has_body(
                r,
                self.rest_api_base_url@,
                HttpMethod::Get,
                "/v5/trade/order/opens"@,
                htx_futures_open_order_members(*request),
            ),
    {
        let mut entries: Vec<(String, JsonValue)> = Vec::new();
        let ghost m0: Seq<(Seq<char>, Seq<char>)> = Seq::empty();
        if request.symbol.as_str().unicode_len() != 0 {
            add_member(&mut entries, "contract_code", JsonValue::Str(string_from(request.symbol.as_str())), Ghost(m0));
        }
        let ghost m1 = if request.symbol@.len() != 0 { m0.push(("contract_code"@, quoted(request.symbol@))) } else { m0 };
        if request.limit > 0 {
            add_member(&mut entries, "limit", json_int(request.limit as i64), Ghost(m1));
            assert(int_text(request.limit as i64 as int) == nat_digits(request.limit as nat));
        }
        let ghost m2 = if request.limit > 0 { m1.push(("limit"@, nat_digits(request.limit as nat))) } else { m1 };
        assert(m2 =~= htx_futures_open_order_members(*request));
        HttpRequest::new(
            self.rest_api_base_url.as_str(),
            HttpMethod::Get,
            "/v5/trade/order/opens",
            None,
            Some(JsonValue::Object(entries)),
        )
    }

    pub fn create_get_position_http_request(&self, request: &GetPositionRequest) -> (r: HttpRequest)
        ensures
            has_body(
                r,
                self.rest_api_base_url@,
                HttpMethod::Get,
                "/v5/trade/position/opens"@,
                htx_futures_position_members(*request),
            ),
    {
        let mut entries: Vec<(String, JsonValue)> = Vec::new();
        let ghost m0: Seq<(Seq<char>, Seq<char>)> = Seq::empty();
        if request.symbol.as_str().unicode_len() != 0 {
            add_member(&mut entries, "contract_code", JsonValue::Str(string_from(request.symbol.as_str())), Ghost(m0));
        }
        let ghost m1 = if request.symbol@.len() != 0 { m0.push(("contract_code"@, quoted(request.symbol@))) } else { m0 };
        assert(m1 =~= htx_futures_position_members(*request));
        HttpRequest::new(
            self.rest_api_base_url.as_str(),
            HttpMethod::Get,
            "/v5/trade/position/opens",
            None,
            Some(JsonValue::Object(entries)),
        )
    }

    pub fn create_get_balance_http_request(&self, _request: &GetBalanceRequest) -> (r: HttpRequest)
        ensures
            r.is_plain(self.rest_api_base_url@, HttpMethod::Get, "/v5/account/balance"@),
    {
        HttpRequest::new(self.rest_api_base_url.as_str(), HttpMethod::Get, "/v5/account/balance", None, None)
    }

    /// Signs the request at the given time with the client's key, as on HTX spot; false,
    /// with the request unchanged, where the base URL does not parse.
    pub fn sign_http_request(&self, http_request: &mut HttpRequest, now: Timestamp) -> (signed: bool)
        requires
            self.credential is Some,
        ensures
            signed == htx_host(self.rest_api_base_url@) is Some,
            !signed ==> *final(http_request) == *old(http_request),
            signed ==> htx_signed(
                *old(http_request),
                *final(http_request),
                self.credential->0.api_key@,
                self.credential->0.api_secret@,
                htx_host(self.rest_api_base_url@)->0,
                utc_seconds_text(now.seconds),
            ),
    {
        let c = self.credential.as_ref().unwrap();
        let host = match htx_host_exec(self.rest_api_base_url.as_str()) {
            Some(h) => h,
            None => return false,
        };
        let timestamp = format_utc_seconds(now.seconds);
        htx_sign(http_request, c.api_key.as_str(), c.api_secret.as_str(), host.as_str(), timestamp.as_str());
        true
    }

    /// The request that the builder of the request's kind makes, before any signature.
    pub open spec fn http_request_for(&self, request: Request, volume: i64, price: JsonValue, r: HttpRequest) -> bool {
        let base = self.rest_api_base_url@;
        match request {
            Request::GetInstrumentInfo(q) => contract_query(r, base, "/linear-swap-api/v1/swap_contract_info"@, q.symbol@),
            Request::GetTopOfBook(q) => contract_query(r, base, "/linear-swap-ex/market/bbo"@, q.symbol@),
            Request::PlaceOrder(q) => has_body(
                r,
                base,
                HttpMethod::Post,
                "/v5/trade/order"@,
                htx_futures_order_members(q, self.api_broker_id@, volume, price),
            ),
            Request::CancelOrder(q) => has_body(r, base, HttpMethod::Post, "/v5/trade/cancel_order"@, htx_futures_cancel_members(q)),
            Request::GetOpenOrder(q) => has_body(r, base, HttpMethod::Get, "/v5/trade/order/opens"@, htx_futures_open_order_members(q)),
            Request::GetPosition(q) => has_body(
                r,
                base,
                HttpMethod::Get,
                "/v5/trade/position/opens"@,
                htx_futures_position_members(q),
            ),
            Request::GetBalance(_) => r.is_plain(base, HttpMethod::Get, "/v5/account/balance"@),
            _ => false,
        }
    }

    /// The REST requests this client can send: orders of a known side and type, and
    /// private requests only with a credential.
    pub open spec fn rest_request_ok(&self, request: Request) -> bool {
        &&& is_rest_request(request)
        &&& is_private_request(request) ==> self.credential is Some
        &&& request matches Request::PlaceOrder(q) ==> q.side != OrderSide::Unknown && q.order_type
            != OrderType::Unknown
    }

    /// The HTTP request for a REST request at the given time: built by its kind (an order
    /// with the volume and price the caller read from it), and signed when it is private.
    /// None where the base URL does not parse.
    pub fn create_http_request(&self, request: &Request, volume: i64, price: JsonValue, now: Timestamp) -> (r: Option<HttpRequest>)
        requires
            self.rest_request_ok(*request),
        ensures
            !is_private_request(*request) ==> (r matches Some(h) && self.http_request_for(*request, volume, price, h)),
            is_private_request(*request) ==> match r {
                Some(h) => htx_host(self.rest_api_base_url@) is Some && exists|u: HttpRequest| #[trigger]
                    self.http_request_for(*request, volume, price, u) && htx_signed(
                    u,
                    h,
                    self.credential->0.api_key@,
                    self.credential->0.api_secret@,
                    htx_host(self.rest_api_base_url@)->0,
                    utc_seconds_text(now.seconds),
                ),
                None => htx_host(self.rest_api_base_url@) is None,
            },
    {
        let ghost p = price;
        let mut http_request = match request {
            Request::GetInstrumentInfo(q) => return Some(self.create_get_instrument_info_http_request(q)),
            Request::GetTopOfBook(q) => return Some(self.create_get_top_of_book_http_request(q)),
            Request::PlaceOrder(q) => self.create_place_order_http_request(q, volume, price),
            Request::CancelOrder(q) => self.create_cancel_order_http_request(q),
            Request::GetOpenOrder(q) => self.create_get_open_order_http_request(q),
            Request::GetPosition(q) => self.create_get_position_http_request(q),
            Request::GetBalance(q) => self.create_get_balance_http_request(q),
            _ => return None,
        };
        let ghost unsigned = http_request;
        assert(self.http_request_for(*request, volume, p, unsigned));
        if self.sign_http_request(&mut http_request, now) {
            Some(http_request)
        } else {
            None
        }
    }
}

/// The items of `data`, where it is an array.
pub open spec fn futures_data_items(j: JsonValue) -> Seq<JsonValue> {
    items_of(spec_at(j, "data"@))
}

fn err_code_text(v: &JsonValue) -> (r: Option<String>)
    ensures
        opt_view(r) == match spec_as_i64(*v) {
            Some(n) => Some(int_text(n as int)),
            None => spec_as_str(*v),
        },
{
    match v.as_i64() {
        Some(n) => Some(i64_to_string(n)),
        None => match v.as_str() {
            Some(s) => Some(string_from(s)),
            None => None,
        },
    }
}

impl HtxUsdtMarginedFuturesClient {
    pub fn is_http_response_success(&self, http_response: &HttpResponse) -> (r: bool)
        ensures
            r == htx_futures_is_success(*http_response),
    {
        match &http_response.json_payload {
            Some(j) => {
                let null = JsonValue::Null;
                let status_ok = match member_or(j, "status", &null).as_str() {
                    Some(s) => str_eq(s, "ok"),
                    None => false,
                };
                status_ok || member_or(j, "code", &null).as_i64() == Some(200i64)
            },
            None => http_response.is_status_success(),
        }
    }

    /// One contract per item of `data`.
    pub open spec fn instrument_info_response(&self, resp: HttpResponse, r: Response) -> bool {
        let items = futures_data_items(resp.json_payload->0);
        r matches Response::GetInstrumentInfo(g) && g.next_page_cursor@.len() == 0 && g.data@.len() == items.len()
            && forall|i: int| 0 <= i < items.len() ==> htx_futures_instrument_matches(#[trigger] g.data@[i], items[i])
    }

    pub fn create_get_instrument_info_rest_response(&self, http_response: HttpResponse) -> (r: Response)
        requires
            http_response.json_payload is Some,
        ensures
            self.instrument_info_response(http_response, r),
    {
        let json = http_response.json_payload.unwrap();
        let null = JsonValue::Null;
        let empty: Vec<JsonValue> = Vec::new();
        let items = items_exec(member_or(&json, "data", &null), &empty);
        let mut data: Vec<InstrumentInfo> = Vec::new();
        let mut i: usize = 0;
        while i < items.len()
            invariant
                items@ == futures_data_items(json),
                i <= items@.len(),
                data@.len() == i,
                forall|k: int| 0 <= k < i ==> htx_futures_instrument_matches(#[trigger] data@[k], items@[k]),
            decreases items.len() - i,
        {
            data.push(self.convert_json_value_to_instrument_info(&items[i]));
            i = i + 1;
        }
        Response::GetInstrumentInfo(GetInstrumentInfoResponse { data, next_page_cursor: String::new() })
    }

    /// One book per item of "ticks"; those without a time all at one time, that of the call.
    pub open spec fn top_of_book_response(&self, resp: HttpResponse, r: Response, now: Timestamp) -> bool {
        let items = items_of(spec_at(resp.json_payload->0, "ticks"@));
        r matches Response::GetTopOfBook(g) && g.data@.len() == items.len() && forall|i: int|
            0 <= i < items.len() ==> htx_futures_tick_matches(#[trigger] g.data@[i], items[i], now)
    }

    pub fn create_get_top_of_book_rest_response(&self, http_response: HttpResponse) -> (r: Response)
        requires
            http_response.json_payload is Some,
        ensures
            exists|now: Timestamp| timestamp_valid(now) && #[trigger] self.top_of_book_response(http_response, r, now),
    {
        let json = http_response.json_payload.unwrap();
        let now = utc_now();
        let null = JsonValue::Null;
        let empty: Vec<JsonValue> = Vec::new();
        let items = items_exec(member_or(&json, "ticks", &null), &empty);
        let mut data: Vec<TopOfBook> = Vec::new();
        let mut i: usize = 0;
        while i < items.len()
            invariant
                items@ == items_of(spec_at(json, "ticks"@)),
                null == JsonValue::Null,
                i <= items@.len(),
                data@.len() == i,
                forall|k: int| 0 <= k < i ==> htx_futures_tick_matches(#[trigger] data@[k], items@[k], now),
            decreases items.len() - i,
        {
            let v = &items[i];
            let mtime: i64 = match member_or(v, "mtime", &null).as_i64() {
                Some(n) => n,
                None => 0,
            };
            let timestamp = if mtime > 0 { timestamp_from_millis_or_epoch(mtime) } else { now };
            data.push(TopOfBook {
                exchange_instrument_type: ExchangeInstrumentType::HtxUsdtMarginedFutures,
                symbol: v.field_str("contract_code"),
                timestamp,
                bid_price: tick_value_exec(v, "bid", "bidSize", 0),
                bid_size: tick_value_exec(v, "bid", "bidSize", 1),
                ask_price: tick_value_exec(v, "ask", "askSize", 0),
                ask_size: tick_value_exec(v, "ask", "askSize", 1),
            });
            i = i + 1;
        }
        let r = Response::GetTopOfBook(GetTopOfBookResponse { data });
        assert(self.top_of_book_response(http_response, r, now));
        r
    }

    /// The order id of `data.order_id`.
    pub fn create_place_order_rest_response(&self, http_response: HttpResponse) -> (r: Response)
        requires
            http_response.json_payload matches Some(j) && spec_as_str(spec_at(spec_at(j, "data"@), "order_id"@)) is Some,
        ensures
            r matches Response::PlaceOrder(p) && p.order_id@ == field_str(
                spec_at(http_response.json_payload->0, "data"@),
                "order_id"@,
            ),
    {
        let json = http_response.json_payload.unwrap();
        let null = JsonValue::Null;
        Response::PlaceOrder(PlaceOrderResponse { order_id: member_or(&json, "data", &null).field_str("order_id") })
    }

    pub fn create_cancel_order_rest_response(&self, _http_response: HttpResponse) -> (r: Response)
        ensures
            r is CancelOrder,
    {
        Response::CancelOrder(CancelOrderResponse {})
    }

    /// One order per item of `data`.
    pub open spec fn open_order_response(&self, resp: HttpResponse, r: Response) -> bool {
        let items = futures_data_items(resp.json_payload->0);
        r matches Response::GetOpenOrder(g) && g.next_page_cursor@.len() == 0 && g.data@.len() == items.len()
            && forall|i: int| 0 <= i < items.len() ==> htx_futures_order_matches(#[trigger] g.data@[i], items[i])
    }

    pub fn create_get_open_order_rest_response(&self, http_response: HttpResponse) -> (r: Response)
        requires
            http_response.json_payload is Some,
        ensures
            self.open_order_response(http_response, r),
    {
        let json = http_response.json_payload.unwrap();
        let null = JsonValue::Null;
        let empty: Vec<JsonValue> = Vec::new();
        let items = items_exec(member_or(&json, "data", &null), &empty);
        let mut data: Vec<Order> = Vec::new();
        let mut i: usize = 0;
        while i < items.len()
            invariant
                items@ == futures_data_items(json),
                i <= items@.len(),
                data@.len() == i,
                forall|k: int| 0 <= k < i ==> htx_futures_order_matches(#[trigger] data@[k], items@[k]),
            decreases items.len() - i,
        {
            data.push(self.convert_json_value_to_order(&items[i]));
            i = i + 1;
        }
        Response::GetOpenOrder(GetOpenOrderResponse { data, next_page_cursor: String::new() })
    }

    /// One position per item of `data`.
    pub open spec fn position_response(&self, resp: HttpResponse, r: Response) -> bool {
        let items = futures_data_items(resp.json_payload->0);
        r matches Response::GetPosition(g) && g.next_page_cursor@.len() == 0 && g.data@.len() == items.len()
            && forall|i: int| 0 <= i < items.len() ==> htx_futures_position_matches(#[trigger] g.data@[i], items[i])
    }

    pub fn create_get_position_rest_response(&self, http_response: HttpResponse) -> (r: Response)
        requires
            http_response.json_payload is Some,
        ensures
            self.position_response(http_response, r),
    {
        let json = http_response.json_payload.unwrap();
        let null = JsonValue::Null;
        let empty: Vec<JsonValue> = Vec::new();
        let items = items_exec(member_or(&json, "data", &null), &empty);
        let mut data: Vec<Position> = Vec::new();
        let mut i: usize = 0;
        while i < items.len()
            invariant
                items@ == futures_data_items(json),
                i <= items@.len(),
                data@.len() == i,
                forall|k: int| 0 <= k < i ==> htx_futures_position_matches(#[trigger] data@[k], items@[k]),
            decreases items.len() - i,
        {
            data.push(self.convert_json_value_to_position(&items[i]));
            i = i + 1;
        }
        Response::GetPosition(GetPositionResponse { data, next_page_cursor: String::new() })
    }

    /// One balance per item of `data.details`.
    pub open spec fn balance_response(&self, resp: HttpResponse, r: Response) -> bool {
        let items = items_of(spec_at(spec_at(resp.json_payload->0, "data"@), "details"@));
        r matches Response::GetBalance(g) && g.data@.len() == items.len() && forall|i: int|
            0 <= i < items.len() ==> htx_futures_balance_matches(#[trigger] g.data@[i], items[i])
    }

    pub fn create_get_balance_rest_response(&self, http_response: HttpResponse) -> (r: Response)
        requires
            http_response.json_payload matches Some(j) && spec_get(j, "data"@) is Some,
        ensures
            self.balance_response(http_response, r),
    {
        let json = http_response.json_payload.unwrap();
        let null = JsonValue::Null;
        let empty: Vec<JsonValue> = Vec::new();
        let items = items_exec(member_or(member_or(&json, "data", &null), "details", &null), &empty);
        let mut data: Vec<Balance> = Vec::new();
        let mut i: usize = 0;
        while i < items.len()
            invariant
                items@ == items_of(spec_at(spec_at(json, "data"@), "details"@)),
                i <= items@.len(),
                data@.len() == i,
                forall|k: int| 0 <= k < i ==> htx_futures_balance_matches(#[trigger] data@[k], items@[k]),
            decreases items.len() - i,
        {
            data.push(self.convert_json_value_to_balance(&items[i]));
            i = i + 1;
        }
        Response::GetBalance(GetBalanceResponse { data })
    }

    /// The response itself, with HTX's "err_code" (an integer written out, or a string)
    /// and "err_msg" where it has a JSON body.
    pub open spec fn error_response(&self, resp: HttpResponse, r: Response) -> bool {
        &&& r matches Response::HttpErrorResponse(e) && e.http_request == resp.http_request && e.status == resp.status
                && e.body == resp.body && e.json_payload == resp.json_payload
                && match resp.json_payload {
                Some(j) => opt_view(e.error_code) == (match spec_get(j, "err_code"@) {
                    Some(c) => match spec_as_i64(c) {
                        Some(n) => Some(int_text(n as int)),
                        None => spec_as_str(c),
                    },
                    None => None,
                }) && opt_view(e.error_message) == (match spec_get(j, "err_msg"@) {
                    Some(m) => spec_as_str(m),
                    None => None,
                }),
                None => e.error_code == resp.error_code && e.error_message == resp.error_message,
            }
    }

    pub fn create_http_error_response(&self, http_response: HttpResponse) -> (r: Response)
        ensures
            self.error_response(http_response, r),
    {
        let mut response = http_response;
        match &response.json_payload {
            Some(j) => {
                let code = match j.get("err_code") {
                    Some(c) => err_code_text(c),
                    None => None,
                };
                let message = match j.get("err_msg") {
                    Some(m) => match m.as_str() {
                        Some(s) => Some(string_from(s)),
                        None => None,
                    },
                    None => None,
                };
                response.error_code = code;
                response.error_message = message;
            },
            None => {},
        }
        Response::HttpErrorResponse(response)
    }

    /// What the converter of the request's kind makes of a successful response (books
    /// without a time at `now`, the time of the call).
    pub open spec fn rest_response(&self, request: Request, resp: HttpResponse, r: Response, now: Timestamp) -> bool {
        match request {
            Request::GetInstrumentInfo(_) => self.instrument_info_response(resp, r),
            Request::GetTopOfBook(_) => self.top_of_book_response(resp, r, now),
            Request::PlaceOrder(_) => r matches Response::PlaceOrder(p) && p.order_id@ == field_str(
                spec_at(resp.json_payload->0, "data"@),
                "order_id"@,
            ),
            Request::CancelOrder(_) => r is CancelOrder,
            Request::GetOpenOrder(_) => self.open_order_response(resp, r),
            Request::GetPosition(_) => self.position_response(resp, r),
            Request::GetBalance(_) => self.balance_response(resp, r),
            _ => false,
        }
    }

    /// What a successful response must hold for the converter of the request's kind: a
    /// JSON body (but for a cancellation), with the placed order's id, or with a `data`
    /// member for balances.
    pub open spec fn rest_response_ok(request: Request, resp: HttpResponse) -> bool {
        match request {
            Request::CancelOrder(_) => true,
            Request::PlaceOrder(_) => resp.json_payload matches Some(j) && spec_as_str(
                spec_at(spec_at(j, "data"@), "order_id"@),
            ) is Some,
            Request::GetBalance(_) => resp.json_payload matches Some(j) && spec_get(j, "data"@) is Some,
            _ => resp.json_payload is Some,
        }
    }

    /// The response to a REST request: the error response where it did not succeed, else
    /// what the converter of the request's kind makes of it. None where a successful
    /// response lacks what that converter reads.
    pub fn create_rest_response(&self, request: &Request, http_response: HttpResponse) -> (r: Option<Response>)
        requires
            is_rest_request(*request),
        ensures
            !htx_futures_is_success(http_response) ==> (r matches Some(e) && self.error_response(http_response, e)),
            htx_futures_is_success(http_response) ==> (r is None <==> !Self::rest_response_ok(*request, http_response)),
            htx_futures_is_success(http_response) ==> (r matches Some(p) ==> answers(*request, p) && exists|now: Timestamp|
                timestamp_valid(now) && #[trigger] self.rest_response(*request, http_response, p, now)),
    {
        if !self.is_http_response_success(&http_response) {
            return Some(self.create_http_error_response(http_response));
        }
        if let Request::CancelOrder(_) = request {
            let r = self.create_cancel_order_rest_response(http_response);
            proof {
                let now = Timestamp { seconds: 0, nanoseconds: 0 };
                assert(timestamp_valid(now));
                assert(self.rest_response(*request, http_response, r, now));
            }
            return Some(r);
        }
        let ok = match &http_response.json_payload {
            Some(j) => {
                let null = JsonValue::Null;
                match request {
                    Request::PlaceOrder(_) => member_or(member_or(j, "data", &null), "order_id", &null).as_str().is_some(),
                    Request::GetBalance(_) => j.get("data").is_some(),
                    _ => true,
                }
            },
            None => false,
        };
        if !ok {
            return None;
        }
        let ghost resp = http_response;
        let r = match request {
            Request::GetInstrumentInfo(_) => self.create_get_instrument_info_rest_response(http_response),
            Request::GetTopOfBook(_) => self.create_get_top_of_book_rest_response(http_response),
            Request::PlaceOrder(_) => self.create_place_order_rest_response(http_response),
            Request::GetOpenOrder(_) => self.create_get_open_order_rest_response(http_response),
            Request::GetPosition(_) => self.create_get_position_rest_response(http_response),
            _ => self.create_get_balance_rest_response(http_response),
        };
        proof {
            if *request is GetTopOfBook {
                let now = choose|now: Timestamp| timestamp_valid(now) && self.top_of_book_response(resp, r, now);
                assert(self.rest_response(*request, resp, r, now));
            } else {
                let now = Timestamp { seconds: 0, nanoseconds: 0 };
                assert(timestamp_valid(now));
                assert(self.rest_response(*request, resp, r, now));
            }
        }
        Some(r)
    }
}

} // verus!
