//! Binance USDⓈ-M futures REST API: the requests, their Ed25519 signature, and the responses.

use vstd::prelude::*;
use vstd::utf8::encode_utf8;
use crate::exchange_client::common::{
    answers, is_private_request, is_rest_request, CancelOrderRequest, CancelOrderResponse, GetBalanceRequest,
    GetBalanceResponse, GetInstrumentInfoRequest, GetInstrumentInfoResponse, GetOpenOrderRequest,
    GetOpenOrderResponse, GetPositionRequest, GetPositionResponse, GetTopOfBookRequest, GetTopOfBookResponse,
    PlaceOrderRequest, PlaceOrderResponse, Request, Response,
};
use crate::exchanges::binance_usds_margined_futures::common::{
    binance_balance_matches, binance_balance_ok, binance_order_type_text, binance_position_matches,
    binance_position_ok, binance_rest_order_matches, binance_rest_order_ok, binance_side_text,
    BinanceUsdsMarginedFuturesClient,
};
use crate::json::{field_str, has_str, spec_as_array, spec_as_i64, spec_as_str, spec_at, spec_get, JsonValue};
use crate::networking::http::{
    has_query, header_value_ok, is_header_value, opt_view, push_pair, query_request, status_is_success,
    HttpMethod, HttpRequest, HttpResponse,
};
use crate::signing::{base64_encode, base64_standard, ed25519_sign, ed25519_signature, pair_views};
use crate::str_map::StrMap;
use crate::text::{i64_to_string, int_text, push_str, string_from};
use crate::time::{millis_of, timestamp_millis, timestamp_valid, utc_now};
use crate::types::{
    Balance, ExchangeInstrumentType, InstrumentInfo, Order, OrderSide, OrderType, Position, Timestamp, TopOfBook,
};

verus! {

/// The symbol, where one is given.
pub open spec fn symbol_pairs(symbol: Seq<char>) -> Seq<(Seq<char>, Seq<char>)> {
    if symbol.len() != 0 { seq![("symbol"@, symbol)] } else { Seq::empty() }
}

/// An order's parameters, in the order they are written.
pub open spec fn place_order_pairs(req: PlaceOrderRequest) -> Seq<(Seq<char>, Seq<char>)> {
    let a = seq![
        ("symbol"@, req.symbol@),
        ("side"@, binance_side_text(req.side)),
        ("type"@, binance_order_type_text(req.order_type)),
        ("quantity"@, req.quantity@),
    ];
    let b = if req.order_type == OrderType::Limit { a.push(("price"@, req.price@)).push(("timeInForce"@, "GTC"@)) } else { a };
    if req.client_order_id@.len() != 0 { b.push(("newClientOrderId"@, req.client_order_id@)) } else { b }
}

/// A cancellation's parameters: the symbol, and the order id, else the client order id.
pub open spec fn cancel_order_pairs(req: CancelOrderRequest) -> Seq<(Seq<char>, Seq<char>)> {
    let a = seq![("symbol"@, req.symbol@)];
    if req.order_id@.len() != 0 {
        a.push(("orderId"@, req.order_id@))
    } else if req.client_order_id@.len() != 0 {
        a.push(("origClientOrderId"@, req.client_order_id@))
    } else {
        a
    }
}

/// What is signed: the query, the receive window and the time.
pub open spec fn binance_signed_params(query: Seq<char>, recv_window: i64, timestamp: Seq<char>) -> Seq<char> {
    let tail = "recvWindow="@ + int_text(recv_window as int) + "&timestamp="@ + timestamp;
    if query.len() == 0 { tail } else { query + "&"@ + tail }
}

/// The first filter of the kind.
pub open spec fn first_filter(filters: Seq<JsonValue>, kind: Seq<char>) -> Option<JsonValue>
    decreases filters.len(),
{
    if filters.len() == 0 {
        None
    } else if spec_as_str(spec_at(filters[0], "filterType"@)) == Some(kind) {
        Some(filters[0])
    } else {
        first_filter(filters.drop_first(), kind)
    }
}

/// A string member of the first filter of the kind, or empty.
pub open spec fn filter_str(item: JsonValue, kind: Seq<char>, key: Seq<char>) -> Seq<char> {
    match first_filter(spec_as_array(spec_at(item, "filters"@))->0, kind) {
        Some(f) => field_str(f, key),
        None => Seq::empty(),
    }
}

pub open spec fn has_filters(item: JsonValue) -> bool {
    spec_as_array(spec_at(item, "filters"@)) is Some
}

/// The symbols that have filters, in order: those an instrument is read from.
pub open spec fn with_filters(items: Seq<JsonValue>) -> Seq<JsonValue>
    decreases items.len(),
{
    if items.len() == 0 {
        Seq::empty()
    } else if has_filters(items.last()) {
        with_filters(items.drop_last()).push(items.last())
    } else {
        with_filters(items.drop_last())
    }
}

pub open spec fn symbols_of(j: JsonValue) -> Seq<JsonValue> {
    match spec_as_array(spec_at(j, "symbols"@)) {
        Some(items) => items,
        None => Seq::empty(),
    }
}

/// The members a symbol with filters must have.
pub open spec fn binance_instrument_ok(item: JsonValue) -> bool {
    has_str(item, "symbol"@) && has_str(item, "baseAsset"@) && has_str(item, "quoteAsset"@)
}

pub open spec fn binance_instrument_matches(info: InstrumentInfo, item: JsonValue) -> bool {
    &&& info.exchange_instrument_type == ExchangeInstrumentType::BinanceUsdsMarginedFutures
    &&& info.symbol@ == field_str(item, "symbol"@)
    &&& info.base_asset@ == field_str(item, "baseAsset"@)
    &&& info.quote_asset@ == field_str(item, "quoteAsset"@)
    &&& info.settle_asset@ == field_str(item, "marginAsset"@)
    &&& info.order_price_increment@ == filter_str(item, "PRICE_FILTER"@, "tickSize"@)
    &&& info.order_quantity_increment@ == filter_str(item, "LOT_SIZE"@, "stepSize"@)
    &&& info.order_quantity_min@ == filter_str(item, "LOT_SIZE"@, "minQty"@)
    &&& info.order_quantity_max@ == filter_str(item, "LOT_SIZE"@, "maxQty"@)
    &&& info.order_quote_quantity_min@ == filter_str(item, "MIN_NOTIONAL"@, "notional"@)
    &&& info.order_quote_quantity_max@.len() == 0
    &&& info.underlying_symbol@.len() == 0
    &&& info.contract_size@.len() == 0
    &&& info.expiry_timestamp.is_epoch()
}

/// The members a book ticker must have.
pub open spec fn binance_ticker_ok(v: JsonValue) -> bool {
    &&& has_str(v, "symbol"@)
    &&& has_str(v, "bidPrice"@)
    &&& has_str(v, "bidQty"@)
    &&& has_str(v, "askPrice"@)
    &&& has_str(v, "askQty"@)
}

pub open spec fn binance_ticker_matches(b: TopOfBook, v: JsonValue, now: Timestamp) -> bool {
    &&& b.exchange_instrument_type == ExchangeInstrumentType::BinanceUsdsMarginedFutures
    &&& b.symbol@ == field_str(v, "symbol"@)
    &&& b.timestamp == now
    &&& b.bid_price@ == field_str(v, "bidPrice"@)
    &&& b.bid_size@ == field_str(v, "bidQty"@)
    &&& b.ask_price@ == field_str(v, "askPrice"@)
    &&& b.ask_size@ == field_str(v, "askQty"@)
}

/// The tickers a body holds: the one object, or the items of an array.
pub open spec fn ticker_documents(j: JsonValue) -> Seq<JsonValue> {
    match j {
        JsonValue::Object(_) => seq![j],
        JsonValue::Array(items) => items@,
        _ => Seq::empty(),
    }
}

pub open spec fn array_items(j: JsonValue) -> Seq<JsonValue> {
    match spec_as_array(j) {
        Some(items) => items,
        None => Seq::empty(),
    }
}

/// The kinds of document whose members a response's conversion reads.
pub enum DocumentKind {
    Instrument,
    Ticker,
    Order,
    Position,
    Balance,
}

pub open spec fn document_ok(kind: DocumentKind, v: JsonValue) -> bool {
    match kind {
        DocumentKind::Instrument => has_filters(v) ==> binance_instrument_ok(v),
        DocumentKind::Ticker => binance_ticker_ok(v),
        DocumentKind::Order => binance_rest_order_ok(v),
        DocumentKind::Position => binance_position_ok(v),
        DocumentKind::Balance => binance_balance_ok(v),
    }
}

pub open spec fn all_ok(kind: DocumentKind, items: Seq<JsonValue>) -> bool {
    forall|i: int| 0 <= i < items.len() ==> document_ok(kind, #[trigger] items[i])
}

fn document_ok_exec(kind: &DocumentKind, v: &JsonValue) -> (r: bool)
    ensures
        r == document_ok(*kind, *v),
{
    match kind {
        DocumentKind::Instrument => {
            let filters = match v.at("filters") {
                Some(f) => f.as_array().is_some(),
                None => false,
            };
            !filters || (v.has_str("symbol") && v.has_str("baseAsset") && v.has_str("quoteAsset"))
        },
        DocumentKind::Ticker => v.has_str("symbol") && v.has_str("bidPrice") && v.has_str("bidQty")
            && v.has_str("askPrice") && v.has_str("askQty"),
        DocumentKind::Order => {
            let id_ok = match v.at("orderId") {
                Some(x) => x.as_i64().is_some(),
                None => false,
            };
            v.has_str("symbol") && id_ok && v.has_str("clientOrderId") && v.has_str("type") && v.has_str("side")
                && v.has_str("price") && v.has_str("origQty") && v.has_str("executedQty") && v.has_str("cumQuote")
                && v.has_str("avgPrice") && v.has_str("status")
        },
        DocumentKind::Position => {
            v.has_str("positionAmt") && v.has_str("positionSide") && v.has_str("symbol") && v.has_str("entryPrice")
        },
        DocumentKind::Balance => v.has_str("asset") && v.has_str("balance"),
    }
}

fn all_ok_exec(kind: &DocumentKind, items: &Vec<JsonValue>) -> (r: bool)
    ensures
        r == all_ok(*kind, items@),
{
    let mut i: usize = 0;
    while i < items.len()
        invariant
            i <= items@.len(),
            forall|k: int| 0 <= k < i ==> document_ok(*kind, #[trigger] items@[k]),
        decreases items.len() - i,
    {
        if !document_ok_exec(kind, &items[i]) {
            return false;
        }
        i = i + 1;
    }
    true
}

fn first_filter_str(filters: &Vec<JsonValue>, kind: &str, key: &str) -> (r: String)
    ensures
        r@ == match first_filter(filters@, kind@) {
            Some(f) => field_str(f, key@),
            None => Seq::empty(),
        },
{
    let mut i: usize = 0;
    assert(filters@.subrange(0, filters@.len() as int) =~= filters@);
    while i < filters.len()
        invariant
            i <= filters@.len(),
            first_filter(filters@, kind@) == first_filter(filters@.subrange(i as int, filters@.len() as int), kind@),
        decreases filters.len() - i,
    {
        let ghost rest = filters@.subrange(i as int, filters@.len() as int);
        assert(rest[0] == filters@[i as int]);
        assert(rest.drop_first() =~= filters@.subrange(i + 1, filters@.len() as int));
        let is_kind = match filters[i].at("filterType") {
            Some(t) => match t.as_str() {
                Some(s) => crate::text::str_eq(s, kind),
                None => false,
            },
            None => false,
        };
        if is_kind {
            return filters[i].field_str(key);
        }
        i = i + 1;
    }
    assert(filters@.subrange(i as int, filters@.len() as int).len() == 0);
    String::new()
}

proof fn lemma_with_filters_step(items: Seq<JsonValue>, i: int)
    requires
        0 <= i < items.len(),
    ensures
        with_filters(items.take(i + 1)) == if has_filters(items[i]) {
            with_filters(items.take(i)).push(items[i])
        } else {
            with_filters(items.take(i))
        },
{
    assert(items.take(i + 1).drop_last() =~= items.take(i));
    assert(items.take(i + 1).last() == items[i]);
}

impl BinanceUsdsMarginedFuturesClient {
    /// A GET of the exchange information, of one symbol where it is given.
    pub open spec fn instrument_info_http_request(&self, request: GetInstrumentInfoRequest, r: HttpRequest) -> bool {
        &&& r.base_url@ == self.rest_api_base_url@
        &&& r.method == HttpMethod::Get
        &&& r.path@ == "/fapi/v1/exchangeInfo"@
        &&& r.headers.entries@.len() == 0
        &&& has_query(r, symbol_pairs(request.symbol@))
        &&& r.payload is None
    }

    pub fn create_get_instrument_info_http_request(&self, request: &GetInstrumentInfoRequest) -> (r: HttpRequest)
        ensures
            self.instrument_info_http_request(*request, r),
    {
        let mut pairs: Vec<(String, String)> = Vec::new();
        assert(pair_views(pairs@) =~= Seq::empty());
        if request.symbol.as_str().unicode_len() != 0 {
            push_pair(&mut pairs, "symbol", request.symbol.as_str());
        }
        assert(pair_views(pairs@) =~= symbol_pairs(request.symbol@));
        query_request(self.rest_api_base_url.as_str(), HttpMethod::Get, "/fapi/v1/exchangeInfo", pairs)
    }

    /// A GET of the symbol's book ticker.
    pub open spec fn top_of_book_http_request(&self, request: GetTopOfBookRequest, r: HttpRequest) -> bool {
        &&& r.base_url@ == self.rest_api_base_url@
        &&& r.method == HttpMethod::Get
        &&& r.path@ == "/fapi/v1/ticker/bookTicker"@
        &&& r.headers.entries@.len() == 0
        &&& has_query(r, seq![("symbol"@, request.symbol@)])
        &&& r.payload is None
    }

    pub fn create_get_top_of_book_http_request(&self, request: &GetTopOfBookRequest) -> (r: HttpRequest)
        ensures
            self.top_of_book_http_request(*request, r),
    {
        let mut pairs: Vec<(String, String)> = Vec::new();
        assert(pair_views(pairs@) =~= Seq::empty());
        push_pair(&mut pairs, "symbol", request.symbol.as_str());
        assert(pair_views(pairs@) =~= seq![("symbol"@, request.symbol@)]);
        query_request(self.rest_api_base_url.as_str(), HttpMethod::Get, "/fapi/v1/ticker/bookTicker", pairs)
    }

    /// An order posted with its parameters in the query.
    pub open spec fn place_order_http_request(&self, request: PlaceOrderRequest, r: HttpRequest) -> bool {
        &&& r.base_url@ == self.rest_api_base_url@
        &&& r.method == HttpMethod::Post
        &&& r.path@ == "/fapi/v1/order"@
        &&& r.headers.entries@.len() == 0
        &&& has_query(r, place_order_pairs(request))
        &&& r.payload is None
    }

    pub fn create_place_order_http_request(&self, request: &PlaceOrderRequest) -> (r: HttpRequest)
        requires
            request.side != OrderSide::Unknown,
            request.order_type != OrderType::Unknown,
        ensures
            self.place_order_http_request(*request, r),
    {
        let mut pairs: Vec<(String, String)> = Vec::new();
        assert(pair_views(pairs@) =~= Seq::empty());
        push_pair(&mut pairs, "symbol", request.symbol.as_str());
        push_pair(&mut pairs, "side", self.convert_order_side_to_string(request.side));
        push_pair(&mut pairs, "type", self.convert_order_type_to_string(request.order_type));
        push_pair(&mut pairs, "quantity", request.quantity.as_str());
        if request.order_type == OrderType::Limit {
            push_pair(&mut pairs, "price", request.price.as_str());
            push_pair(&mut pairs, "timeInForce", "GTC");
        }
        if request.client_order_id.as_str().unicode_len() != 0 {
            push_pair(&mut pairs, "newClientOrderId", request.client_order_id.as_str());
        }
        assert(pair_views(pairs@) =~= place_order_pairs(*request));
        query_request(self.rest_api_base_url.as_str(), HttpMethod::Post, "/fapi/v1/order", pairs)
    }

    /// A DELETE of the order, by id or by client order id.
    pub open spec fn cancel_order_http_request(&self, request: CancelOrderRequest, r: HttpRequest) -> bool {
        &&& r.base_url@ == self.rest_api_base_url@
        &&& r.method == HttpMethod::Delete
        &&& r.path@ == "/fapi/v1/order"@
        &&& r.headers.entries@.len() == 0
        &&& has_query(r, cancel_order_pairs(request))
        &&& r.payload is None
    }

    pub fn create_cancel_order_http_request(&self, request: &CancelOrderRequest) -> (r: HttpRequest)
        ensures
            self.cancel_order_http_request(*request, r),
    {
        let mut pairs: Vec<(String, String)> = Vec::new();
        assert(pair_views(pairs@) =~= Seq::empty());
        push_pair(&mut pairs, "symbol", request.symbol.as_str());
        if request.order_id.as_str().unicode_len() != 0 {
            push_pair(&mut pairs, "orderId", request.order_id.as_str());
        } else if request.client_order_id.as_str().unicode_len() != 0 {
            push_pair(&mut pairs, "origClientOrderId", request.client_order_id.as_str());
        }
        assert(pair_views(pairs@) =~= cancel_order_pairs(*request));
        query_request(self.rest_api_base_url.as_str(), HttpMethod::Delete, "/fapi/v1/order", pairs)
    }

    /// A GET of the open orders, of one symbol where it is given.
    pub open spec fn open_order_http_request(&self, request: GetOpenOrderRequest, r: HttpRequest) -> bool {
        &&& r.base_url@ == self.rest_api_base_url@
        &&& r.method == HttpMethod::Get
        &&& r.path@ == "/fapi/v1/openOrders"@
        &&& r.headers.entries@.len() == 0
        &&& has_query(r, symbol_pairs(request.symbol@))
        &&& r.payload is None
    }

    pub fn create_get_open_order_http_request(&self, request: &GetOpenOrderRequest) -> (r: HttpRequest)
        ensures
            self.open_order_http_request(*request, r),
    {
        let mut pairs: Vec<(String, String)> = Vec::new();
        assert(pair_views(pairs@) =~= Seq::empty());
        if request.symbol.as_str().unicode_len() != 0 {
            push_pair(&mut pairs, "symbol", request.symbol.as_str());
        }
        assert(pair_views(pairs@) =~= symbol_pairs(request.symbol@));
        query_request(self.rest_api_base_url.as_str(), HttpMethod::Get, "/fapi/v1/openOrders", pairs)
    }

    /// A GET of the position risks, of one symbol where it is given.
    pub open spec fn position_http_request(&self, request: GetPositionRequest, r: HttpRequest) -> bool {
        &&& r.base_url@ == self.rest_api_base_url@
        &&& r.method == HttpMethod::Get
        &&& r.path@ == "/fapi/v3/positionRisk"@
        &&& r.headers.entries@.len() == 0
        &&& has_query(r, symbol_pairs(request.symbol@))
        &&& r.payload is None
    }

    pub fn create_get_position_http_request(&self, request: &GetPositionRequest) -> (r: HttpRequest)
        ensures
            self.position_http_request(*request, r),
    {
        let mut pairs: Vec<(String, String)> = Vec::new();
        assert(pair_views(pairs@) =~= Seq::empty());
        if request.symbol.as_str().unicode_len() != 0 {
            push_pair(&mut pairs, "symbol", request.symbol.as_str());
        }
        assert(pair_views(pairs@) =~= symbol_pairs(request.symbol@));
        query_request(self.rest_api_base_url.as_str(), HttpMethod::Get, "/fapi/v3/positionRisk", pairs)
    }

    /// A GET of the balances.
    pub open spec fn balance_http_request(&self, r: HttpRequest) -> bool {
        &&& r.base_url@ == self.rest_api_base_url@
        &&& r.method == HttpMethod::Get
        &&& r.path@ == "/fapi/v3/balance"@
        &&& r.headers.entries@.len() == 0
        &&& has_query(r, Seq::empty())
        &&& r.payload is None
    }

    pub fn create_get_balance_http_request(&self, _request: &GetBalanceRequest) -> (r: HttpRequest)
        ensures
            self.balance_http_request(r),
    {
        let pairs: Vec<(String, String)> = Vec::new();
        assert(pair_views(pairs@) =~= Seq::empty());
        query_request(self.rest_api_base_url.as_str(), HttpMethod::Get, "/fapi/v3/balance", pairs)
    }

    /// The signed request: the query with the receive window, the time and the Base64
    /// Ed25519 signature of what precedes it, and the API key as a header.
    pub open spec fn signed_http_request(&self, o: HttpRequest, n: HttpRequest, timestamp: Seq<char>) -> bool {
        let c = self.credential->0;
        let params = binance_signed_params(
            match o.query_string {
                Some(q) => q@,
                None => Seq::empty(),
            },
            self.recv_window,
            timestamp,
        );
        &&& n.base_url == o.base_url
        &&& n.method == o.method
        &&& n.path == o.path
        &&& n.payload == o.payload
        &&& opt_view(n.query_string) == Some(
            params + "&signature="@ + base64_standard(ed25519_signature(c.secret_key@, encode_utf8(params))),
        )
        &&& n.headers.spec_get("x-mbx-apikey"@) == Some(c.api_key@)
        &&& forall|k: Seq<char>| k != "x-mbx-apikey"@ ==> n.headers.spec_get(k) == o.headers.spec_get(k)
    }

    /// Signs the request at the given time (milliseconds, as text).
    pub fn sign_http_request_with(&self, http_request: &mut HttpRequest, timestamp: &str)
        requires
            self.credential is Some,
            self.credential->0.secret_key@.len() == 32,
        ensures
            self.signed_http_request(*old(http_request), *final(http_request), timestamp@),
    {
        let c = self.credential.as_ref().unwrap();
        let mut params = match &http_request.query_string {
            Some(q) => string_from(q.as_str()),
            None => String::new(),
        };
        if params.as_str().unicode_len() != 0 {
            push_str(&mut params, "&");
        }
        let window = i64_to_string(self.recv_window);
        push_str(&mut params, "recvWindow=");
        push_str(&mut params, window.as_str());
        push_str(&mut params, "&timestamp=");
        push_str(&mut params, timestamp);
        let ghost o = *old(http_request);
        assert(params@ =~= binance_signed_params(
            match o.query_string {
                Some(q) => q@,
                None => Seq::empty(),
            },
            self.recv_window,
            timestamp@,
        ));
        let signature = base64_encode(ed25519_sign(c.secret_key.as_slice(), params.as_str().as_bytes()).as_slice());
        let mut query = params;
        push_str(&mut query, "&signature=");
        push_str(&mut query, signature.as_str());
        http_request.query_string = Some(query);
        http_request.headers.insert(string_from("x-mbx-apikey"), c.api_key.clone());
    }

    /// Signs the request at the given time; false, with the request unchanged, where the
    /// key cannot be a header value.
    pub fn sign_http_request(&self, http_request: &mut HttpRequest, now: Timestamp) -> (signed: bool)
        requires
            self.credential is Some,
            self.credential->0.secret_key@.len() == 32,
            timestamp_valid(now),
        ensures
            signed == header_value_ok(self.credential->0.api_key@),
            !signed ==> *final(http_request) == *old(http_request),
            signed ==> self.signed_http_request(*old(http_request), *final(http_request), int_text(millis_of(now))),
    {
        let c = self.credential.as_ref().unwrap();
        if !is_header_value(c.api_key.as_str()) {
            return false;
        }
        let timestamp = i64_to_string(timestamp_millis(now));
        self.sign_http_request_with(http_request, timestamp.as_str());
        true
    }

    /// The request that the builder of the request's kind makes, before any signature.
    pub open spec fn http_request_for(&self, request: Request, r: HttpRequest) -> bool {
        match request {
            Request::GetInstrumentInfo(q) => self.instrument_info_http_request(q, r),
            Request::GetTopOfBook(q) => self.top_of_book_http_request(q, r),
            Request::PlaceOrder(q) => self.place_order_http_request(q, r),
            Request::CancelOrder(q) => self.cancel_order_http_request(q, r),
            Request::GetOpenOrder(q) => self.open_order_http_request(q, r),
            Request::GetPosition(q) => self.position_http_request(q, r),
            Request::GetBalance(_) => self.balance_http_request(r),
            _ => false,
        }
    }

    /// The REST requests this client can send: orders of a known side and type, and
    /// private requests only with a credential whose secret key has 32 bytes.
    pub open spec fn rest_request_ok(&self, request: Request) -> bool {
        &&& is_rest_request(request)
        &&& is_private_request(request) ==> self.credential is Some && self.credential->0.secret_key@.len() == 32
        &&& request matches Request::PlaceOrder(q) ==> q.side != OrderSide::Unknown && q.order_type
            != OrderType::Unknown
    }

    /// The HTTP request for a REST request at the given time: built by its kind, and
    /// signed when it is private. None where the signature could not be made.
    pub fn create_http_request(&self, request: &Request, now: Timestamp) -> (r: Option<HttpRequest>)
        requires
            self.rest_request_ok(*request),
            timestamp_valid(now),
        ensures
            !is_private_request(*request) ==> (r matches Some(h) && self.http_request_for(*request, h)),
            is_private_request(*request) ==> match r {
                Some(h) => exists|u: HttpRequest| #[trigger] self.http_request_for(*request, u)
                    && self.signed_http_request(u, h, int_text(millis_of(now))),
                None => true,
            },
            is_private_request(*request) ==> (r is Some <==> header_value_ok(self.credential->0.api_key@)),
    {
        let mut http_request = match request {
            Request::GetInstrumentInfo(q) => return Some(self.create_get_instrument_info_http_request(q)),
            Request::GetTopOfBook(q) => return Some(self.create_get_top_of_book_http_request(q)),
            Request::PlaceOrder(q) => self.create_place_order_http_request(q),
            Request::CancelOrder(q) => self.create_cancel_order_http_request(q),
            Request::GetOpenOrder(q) => self.create_get_open_order_http_request(q),
            Request::GetPosition(q) => self.create_get_position_http_request(q),
            Request::GetBalance(q) => self.create_get_balance_http_request(q),
            _ => return None,
        };
        let ghost unsigned = http_request;
        assert(self.http_request_for(*request, unsigned));
        if self.sign_http_request(&mut http_request, now) {
            Some(http_request)
        } else {
            None
        }
    }
}

impl BinanceUsdsMarginedFuturesClient {
    /// A 2xx status.
    pub fn is_http_response_success(&self, http_response: &HttpResponse) -> (r: bool)
        ensures
            r == status_is_success(http_response.status),
    {
        http_response.is_status_success()
    }

    /// An instrument per symbol that has filters, and no cursor.
    pub open spec fn instrument_info_response(&self, resp: HttpResponse, r: Response) -> bool {
        let items = with_filters(symbols_of(resp.json_payload->0));
        r matches Response::GetInstrumentInfo(g) && g.next_page_cursor@.len() == 0 && g.data@.len() == items.len()
            && forall|i: int| 0 <= i < g.data@.len() ==> binance_instrument_matches(#[trigger] g.data@[i], items[i])
    }

    pub fn create_get_instrument_info_rest_response(&self, http_response: HttpResponse) -> (r: Response)
        requires
            http_response.json_payload matches Some(j) && all_ok(DocumentKind::Instrument, symbols_of(j)),
        ensures
            self.instrument_info_response(http_response, r),
    {
        let json = http_response.json_payload.unwrap();
        let mut data: Vec<InstrumentInfo> = Vec::new();
        let empty: Vec<JsonValue> = Vec::new();
        let items: &Vec<JsonValue> = match json.at("symbols") {
            Some(v) => match v.as_array() {
                Some(items) => items,
                None => &empty,
            },
            None => &empty,
        };
        assert(symbols_of(json) == items@);
        let mut i: usize = 0;
        assert(items@.take(0) =~= Seq::<JsonValue>::empty());
        while i < items.len()
            invariant
                symbols_of(json) == items@,
                all_ok(DocumentKind::Instrument, items@),
                i <= items@.len(),
                data@.len() == with_filters(items@.take(i as int)).len(),
                forall|k: int| 0 <= k < data@.len() ==> binance_instrument_matches(
                    #[trigger] data@[k],
                    with_filters(items@.take(i as int))[k],
                ),
            decreases items.len() - i,
        {
            proof {
                lemma_with_filters_step(items@, i as int);
            }
            let item = &items[i];
            assert(document_ok(DocumentKind::Instrument, items@[i as int]));
            match item.at("filters") {
                Some(f) => match f.as_array() {
                    Some(filters) => {
                        let info = InstrumentInfo {
                            exchange_instrument_type: ExchangeInstrumentType::BinanceUsdsMarginedFutures,
                            symbol: item.field_str("symbol"),
                            base_asset: item.field_str("baseAsset"),
                            quote_asset: item.field_str("quoteAsset"),
                            order_price_increment: first_filter_str(filters, "PRICE_FILTER", "tickSize"),
                            order_quantity_increment: first_filter_str(filters, "LOT_SIZE", "stepSize"),
                            order_quantity_min: first_filter_str(filters, "LOT_SIZE", "minQty"),
                            order_quantity_max: first_filter_str(filters, "LOT_SIZE", "maxQty"),
                            order_quote_quantity_min: first_filter_str(filters, "MIN_NOTIONAL", "notional"),
                            order_quote_quantity_max: String::new(),
                            settle_asset: item.field_str("marginAsset"),
                            underlying_symbol: String::new(),
                            contract_size: String::new(),
                            expiry_timestamp: Timestamp::epoch(),
                        };
                        data.push(info);
                    },
                    None => {},
                },
                None => {},
            }
            i = i + 1;
        }
        assert(items@.take(items@.len() as int) =~= items@);
        Response::GetInstrumentInfo(GetInstrumentInfoResponse { data, next_page_cursor: String::new() })
    }

    /// A ticker per document of the body, all at the time it was read.
    pub open spec fn top_of_book_response(&self, resp: HttpResponse, r: Response) -> bool {
        let docs = ticker_documents(resp.json_payload->0);
        r matches Response::GetTopOfBook(g) && g.data@.len() == docs.len() && forall|i: int|
            0 <= i < g.data@.len() ==> binance_ticker_matches(#[trigger] g.data@[i], docs[i], g.data@[0].timestamp)
    }

    pub fn create_get_top_of_book_rest_response(&self, http_response: HttpResponse) -> (r: Response)
        requires
            http_response.json_payload matches Some(j) && all_ok(DocumentKind::Ticker, ticker_documents(j)),
        ensures
            self.top_of_book_response(http_response, r),
    {
        let json = http_response.json_payload.unwrap();
        let now = utc_now();
        let mut data: Vec<TopOfBook> = Vec::new();
        match &json {
            JsonValue::Object(_) => {
                assert(ticker_documents(json) =~= seq![json]);
                assert(document_ok(DocumentKind::Ticker, ticker_documents(json)[0]));
                data.push(ticker_of(&json, now));
            },
            JsonValue::Array(items) => {
                let mut i: usize = 0;
                while i < items.len()
                    invariant
                        ticker_documents(json) == items@,
                        all_ok(DocumentKind::Ticker, items@),
                        i <= items@.len(),
                        data@.len() == i,
                        forall|k: int| 0 <= k < i ==> binance_ticker_matches(#[trigger] data@[k], items@[k], now),
                    decreases items.len() - i,
                {
                    assert(document_ok(DocumentKind::Ticker, items@[i as int]));
                    data.push(ticker_of(&items[i], now));
                    i = i + 1;
                }
            },
            _ => {},
        }
        Response::GetTopOfBook(GetTopOfBookResponse { data })
    }

    /// The id of the placed order, written out.
    pub open spec fn place_order_response(&self, resp: HttpResponse, r: Response) -> bool {
        r matches Response::PlaceOrder(p) && p.order_id@ == int_text(
            spec_as_i64(spec_at(resp.json_payload->0, "orderId"@))->0 as int,
        )
    }

    pub fn create_place_order_rest_response(&self, http_response: HttpResponse) -> (r: Response)
        requires
            http_response.json_payload matches Some(j) && spec_as_i64(spec_at(j, "orderId"@)) is Some,
        ensures
            self.place_order_response(http_response, r),
    {
        let json = http_response.json_payload.unwrap();
        let id: i64 = match json.at("orderId") {
            Some(v) => match v.as_i64() {
                Some(n) => n,
                None => 0,
            },
            None => 0,
        };
        Response::PlaceOrder(PlaceOrderResponse { order_id: i64_to_string(id) })
    }

    pub fn create_cancel_order_rest_response(&self, _http_response: HttpResponse) -> (r: Response)
        ensures
            r is CancelOrder,
    {
        Response::CancelOrder(CancelOrderResponse {})
    }

    /// An order per item where the body is an array, and no cursor.
    pub open spec fn open_order_response(&self, resp: HttpResponse, r: Response) -> bool {
        let items = array_items(resp.json_payload->0);
        r matches Response::GetOpenOrder(g) && g.next_page_cursor@.len() == 0 && g.data@.len() == items.len()
            && forall|i: int| 0 <= i < g.data@.len() ==> binance_rest_order_matches(#[trigger] g.data@[i], items[i])
    }

    pub fn create_get_open_order_rest_response(&self, http_response: HttpResponse) -> (r: Response)
        requires
            http_response.json_payload matches Some(j) && all_ok(DocumentKind::Order, array_items(j)),
        ensures
            self.open_order_response(http_response, r),
    {
        let json = http_response.json_payload.unwrap();
        let mut data: Vec<Order> = Vec::new();
        match json.as_array() {
            Some(items) => {
                let mut i: usize = 0;
                while i < items.len()
                    invariant
                        array_items(json) == items@,
                        all_ok(DocumentKind::Order, items@),
                        i <= items@.len(),
                        data@.len() == i,
                        forall|k: int| 0 <= k < i ==> binance_rest_order_matches(#[trigger] data@[k], items@[k]),
                    decreases items.len() - i,
                {
                    assert(document_ok(DocumentKind::Order, items@[i as int]));
                    data.push(self.convert_rest_json_to_order(&items[i]));
                    i = i + 1;
                }
            },
            None => {},
        }
        Response::GetOpenOrder(GetOpenOrderResponse { data, next_page_cursor: String::new() })
    }

    /// A position per item where the body is an array, and no cursor.
    pub open spec fn position_response(&self, resp: HttpResponse, r: Response) -> bool {
        let items = array_items(resp.json_payload->0);
        r matches Response::GetPosition(g) && g.next_page_cursor@.len() == 0 && g.data@.len() == items.len()
            && forall|i: int| 0 <= i < g.data@.len() ==> binance_position_matches(#[trigger] g.data@[i], items[i])
    }

    pub fn create_get_position_rest_response(&self, http_response: HttpResponse) -> (r: Response)
        requires
            http_response.json_payload matches Some(j) && all_ok(DocumentKind::Position, array_items(j)),
        ensures
            self.position_response(http_response, r),
    {
        let json = http_response.json_payload.unwrap();
        let mut data: Vec<Position> = Vec::new();
        match json.as_array() {
            Some(items) => {
                let mut i: usize = 0;
                while i < items.len()
                    invariant
                        array_items(json) == items@,
                        all_ok(DocumentKind::Position, items@),
                        i <= items@.len(),
                        data@.len() == i,
                        forall|k: int| 0 <= k < i ==> binance_position_matches(#[trigger] data@[k], items@[k]),
                    decreases items.len() - i,
                {
                    assert(document_ok(DocumentKind::Position, items@[i as int]));
                    data.push(self.convert_rest_json_to_position(&items[i]));
                    i = i + 1;
                }
            },
            None => {},
        }
        Response::GetPosition(GetPositionResponse { data, next_page_cursor: String::new() })
    }

    /// A balance per item where the body is an array.
    pub open spec fn balance_response(&self, resp: HttpResponse, r: Response) -> bool {
        let items = array_items(resp.json_payload->0);
        r matches Response::GetBalance(g) && g.data@.len() == items.len() && forall|i: int|
            0 <= i < g.data@.len() ==> binance_balance_matches(#[trigger] g.data@[i], items[i])
    }

    pub fn create_get_balance_rest_response(&self, http_response: HttpResponse) -> (r: Response)
        requires
            http_response.json_payload matches Some(j) && all_ok(DocumentKind::Balance, array_items(j)),
        ensures
            self.balance_response(http_response, r),
    {
        let json = http_response.json_payload.unwrap();
        let mut data: Vec<Balance> = Vec::new();
        match json.as_array() {
            Some(items) => {
                let mut i: usize = 0;
                while i < items.len()
                    invariant
                        array_items(json) == items@,
                        all_ok(DocumentKind::Balance, items@),
                        i <= items@.len(),
                        data@.len() == i,
                        forall|k: int| 0 <= k < i ==> binance_balance_matches(#[trigger] data@[k], items@[k]),
                    decreases items.len() - i,
                {
                    assert(document_ok(DocumentKind::Balance, items@[i as int]));
                    data.push(self.convert_json_value_to_balance(&items[i]));
                    i = i + 1;
                }
            },
            None => {},
        }
        Response::GetBalance(GetBalanceResponse { data })
    }

    /// The response itself, with Binance's numeric "code" written out and its "msg",
    /// where it has a JSON body.
    pub open spec fn error_response(&self, resp: HttpResponse, r: Response) -> bool {
        r matches Response::HttpErrorResponse(e) && e.http_request == resp.http_request && e.status == resp.status
            && e.body == resp.body && e.json_payload == resp.json_payload && match resp.json_payload {
            Some(j) => opt_view(e.error_code) == (match spec_get(j, "code"@) {
                Some(c) => match spec_as_i64(c) {
                    Some(n) => Some(int_text(n as int)),
                    None => None,
                },
                None => None,
            }) && opt_view(e.error_message) == (match spec_get(j, "msg"@) {
                Some(m) => spec_as_str(m),
                None => None,
            }),
            None => e.error_code == resp.error_code && e.error_message == resp.error_message,
        }
    }

    pub fn create_http_error_response(&self, http_response: HttpResponse) -> (r: Response)
        ensures
            self.error_response(http_response, r),
    {
        let mut response = http_response;
        match &response.json_payload {
            Some(j) => {
                let code = match j.get("code") {
                    Some(c) => match c.as_i64() {
                        Some(n) => Some(i64_to_string(n)),
                        None => None,
                    },
                    None => None,
                };
                let message = match j.get("msg") {
                    Some(m) => match m.as_str() {
                        Some(s) => Some(string_from(s)),
                        None => None,
                    },
                    None => None,
                };
                response.error_code = code;
                response.error_message = message;
            },
            None => {},
        }
        Response::HttpErrorResponse(response)
    }

    /// What the converter of the request's kind makes of a successful response.
    pub open spec fn rest_response(&self, request: Request, resp: HttpResponse, r: Response) -> bool {
        match request {
            Request::GetInstrumentInfo(_) => self.instrument_info_response(resp, r),
            Request::GetTopOfBook(_) => self.top_of_book_response(resp, r),
            Request::PlaceOrder(_) => self.place_order_response(resp, r),
            Request::CancelOrder(_) => r is CancelOrder,
            Request::GetOpenOrder(_) => self.open_order_response(resp, r),
            Request::GetPosition(_) => self.position_response(resp, r),
            Request::GetBalance(_) => self.balance_response(resp, r),
            _ => false,
        }
    }

    /// What a successful response must hold for the converter of the request's kind: a
    /// JSON body (but for a cancellation) with the members the conversion reads.
    pub open spec fn rest_response_ok(request: Request, resp: HttpResponse) -> bool {
        match request {
            Request::CancelOrder(_) => true,
            _ => resp.json_payload matches Some(j) && match request {
                Request::GetInstrumentInfo(_) => all_ok(DocumentKind::Instrument, symbols_of(j)),
                Request::GetTopOfBook(_) => all_ok(DocumentKind::Ticker, ticker_documents(j)),
                Request::PlaceOrder(_) => spec_as_i64(spec_at(j, "orderId"@)) is Some,
                Request::GetOpenOrder(_) => all_ok(DocumentKind::Order, array_items(j)),
                Request::GetPosition(_) => all_ok(DocumentKind::Position, array_items(j)),
                Request::GetBalance(_) => all_ok(DocumentKind::Balance, array_items(j)),
                _ => true,
            },
        }
    }

    /// The response to a REST request: the error response where the status is not a
    /// success, else what the converter of the request's kind makes of it. None where a
    /// successful response lacks what that converter reads.
    pub fn create_rest_response(&self, request: &Request, http_response: HttpResponse) -> (r: Option<Response>)
        requires
            is_rest_request(*request),
        ensures
            !status_is_success(http_response.status) ==> (r matches Some(e) && self.error_response(
                http_response,
                e,
            )),
            status_is_success(http_response.status) ==> (r is None <==> !Self::rest_response_ok(
                *request,
                http_response,
            )),
            status_is_success(http_response.status) ==> (r matches Some(p) ==> answers(*request, p)
                && self.rest_response(*request, http_response, p)),
    {
        if !self.is_http_response_success(&http_response) {
            return Some(self.create_http_error_response(http_response));
        }
        if let Request::CancelOrder(_) = request {
            return Some(self.create_cancel_order_rest_response(http_response));
        }
        let ok = match &http_response.json_payload {
            Some(j) => match request {
                Request::GetInstrumentInfo(_) => {
                    let empty: Vec<JsonValue> = Vec::new();
                    let items: &Vec<JsonValue> = match j.at("symbols") {
                        Some(v) => match v.as_array() {
                            Some(items) => items,
                            None => &empty,
                        },
                        None => &empty,
                    };
                    assert(symbols_of(*j) == items@);
                    all_ok_exec(&DocumentKind::Instrument, items)
                },
                Request::GetTopOfBook(_) => match j {
                    JsonValue::Object(_) => {
                        assert(ticker_documents(*j) =~= seq![*j]);
                        let ok = document_ok_exec(&DocumentKind::Ticker, j);
                        assert(ticker_documents(*j)[0] == *j);
                        assert(document_ok(DocumentKind::Ticker, ticker_documents(*j)[0]) == ok);
                        assert(ok == all_ok(DocumentKind::Ticker, ticker_documents(*j)));
                        ok
                    },
                    JsonValue::Array(items) => all_ok_exec(&DocumentKind::Ticker, items),
                    _ => true,
                },
                Request::PlaceOrder(_) => match j.at("orderId") {
                    Some(v) => v.as_i64().is_some(),
                    None => false,
                },
                Request::GetOpenOrder(_) | Request::GetPosition(_) | Request::GetBalance(_) => {
                    let kind = match request {
                        Request::GetOpenOrder(_) => DocumentKind::Order,
                        Request::GetPosition(_) => DocumentKind::Position,
                        _ => DocumentKind::Balance,
                    };
                    match j.as_array() {
                        Some(items) => all_ok_exec(&kind, items),
                        None => true,
                    }
                },
                _ => true,
            },
            None => false,
        };
        if !ok {
            return None;
        }
        let r = match request {
            Request::GetInstrumentInfo(_) => self.create_get_instrument_info_rest_response(http_response),
            Request::GetTopOfBook(_) => self.create_get_top_of_book_rest_response(http_response),
            Request::PlaceOrder(_) => self.create_place_order_rest_response(http_response),
            Request::GetOpenOrder(_) => self.create_get_open_order_rest_response(http_response),
            Request::GetPosition(_) => self.create_get_position_rest_response(http_response),
            Request::GetBalance(_) => self.create_get_balance_rest_response(http_response),
            _ => self.create_http_error_response(http_response),
        };
        Some(r)
    }
}

fn ticker_of(v: &JsonValue, now: Timestamp) -> (r: TopOfBook)
    ensures
        binance_ticker_matches(r, *v, now),
{
    TopOfBook {
        exchange_instrument_type: ExchangeInstrumentType::BinanceUsdsMarginedFutures,
        symbol: v.field_str("symbol"),
        timestamp: now,
        bid_price: v.field_str("bidPrice"),
        bid_size: v.field_str("bidQty"),
        ask_price: v.field_str("askPrice"),
        ask_size: v.field_str("askQty"),
    }
}

} // verus!
