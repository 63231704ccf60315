//! Hyperliquid's REST API: the info and exchange requests, the signature on an action,
//! and the responses.

use vstd::prelude::*;
use crate::exchange_client::common::{
    answers, is_rest_request, Request, CancelOrderRequest, CancelOrderResponse, GetBalanceRequest, GetBalanceResponse, GetInstrumentInfoRequest,
    GetInstrumentInfoResponse, GetOpenOrderRequest, GetOpenOrderResponse, GetPositionRequest, GetPositionResponse,
    GetTopOfBookRequest, GetTopOfBookResponse, PlaceOrderRequest, PlaceOrderResponse, Response,
};
use crate::exchanges::htx_spot::common::member_or;
use crate::exchanges::htx_spot::rest::{items_exec, items_of};
use crate::exchanges::htx_usdt_margined_futures::rest::{add_member, members_of, object_of};
use crate::exchanges::hyperliquid::common::{
    hl_balance_matches, hl_connection_id, hl_agent_signing_hash, hl_instrument_type_of, hl_order_matches,
    hl_position_matches, hl_signature_text, HyperliquidClient,
};
use crate::json::{
    array_at, entries_get, field_str, json_int, json_text, members_text, quoted, spec_as_array, spec_as_str,
    spec_as_u64, spec_at, spec_get, JsonNumber, JsonValue,
};
use crate::networking::http::{
    has_json_body, json_request, opt_view, status_is_success, HttpMethod, HttpRequest, HttpResponse,
};
use crate::signing::{pair_views, secp256k1_hash_signature, secp256k1_secret_key_valid};
use crate::text::{
    nat_digits, parse_u64, parse_u64_spec, push_str, str_eq, string_from, trim_end_matches, trim_end_matches_text,
    u64_to_string,
};
use crate::time::{from_millis_or_epoch, timestamp_from_millis_or_epoch};
use crate::types::{
    ExchangeInstrumentType, HyperliquidInstrumentType, InstrumentInfo, OrderSide, OrderStatus, OrderType, Timestamp,
    TopOfBook,
};
use crate::networking::http::push_pair;

verus! {

/// A decimal written without trailing zeros after its point, and without the point where
/// nothing is left after it; text without a point is kept.
pub open spec fn without_trailing_zeros(s: Seq<char>) -> Seq<char> {
    if s.contains('.') {
        let t = trim_end_matches(s, "0"@);
        if t.len() > 0 && t.last() == '.' {
            t.drop_last()
        } else {
            t
        }
    } else {
        s
    }
}

fn contains_char(s: &str, c: char) -> (r: bool)
    ensures
        r == s@.contains(c),
{
    let n: usize = s.unicode_len();
    let mut i: usize = 0;
    while i < n
        invariant
            n == s@.len(),
            i <= n,
            forall|j: int| 0 <= j < i ==> s@[j] != c,
        decreases n - i,
    {
        if s.get_char(i) == c {
            assert(s@[i as int] == c);
            return true;
        }
        i = i + 1;
    }
    false
}

/// `remove_trailing_zeros`: the decimal without trailing zeros after its point.
pub fn remove_trailing_zeros(s: &str) -> (r: String)
    ensures
        r@ == without_trailing_zeros(s@),
{
    if !contains_char(s, '.') {
        return string_from(s);
    }
    let t = trim_end_matches_text(s, "0");
    let n: usize = t.as_str().unicode_len();
    if n > 0 && t.as_str().get_char(n - 1) == '.' {
        let r = string_from(t.as_str().substring_char(0, n - 1));
        assert(t@.subrange(0, n - 1) =~= t@.drop_last());
        r
    } else {
        t
    }
}

/// The asset index of a symbol: the symbol read as a `u32`.
pub open spec fn hl_asset_index(symbol: Seq<char>) -> Option<u32> {
    match parse_u64_spec(symbol) {
        Some(n) => if n <= u32::MAX { Some(n as u32) } else { None },
        None => None,
    }
}

/// The time in force of an order type: immediate-or-cancel for a market order.
pub open spec fn hl_tif(t: OrderType) -> Seq<char> {
    if t == OrderType::Market { "Ioc"@ } else { "Gtc"@ }
}

/// The order of a place-order action, as JSON text with its members in key order.
pub open spec fn hl_order_text(req: PlaceOrderRequest, asset: u32) -> Seq<char> {
    let a = seq![
        ("a"@, nat_digits(asset as nat)),
        ("b"@, if req.side == OrderSide::Buy { "true"@ } else { "false"@ }),
    ];
    let b = if req.client_order_id@.len() != 0 { a.push(("c"@, quoted(req.client_order_id@))) } else { a };
    object_of(
        b.push(("p"@, quoted(without_trailing_zeros(req.price@)))).push(("r"@, "false"@)).push(
            ("s"@, quoted(without_trailing_zeros(req.quantity@))),
        ).push(("t"@, object_of(seq![("limit"@, object_of(seq![("tif"@, quoted(hl_tif(req.order_type)))]))]))),
    )
}

/// The body of an action: `{"action": ...}`.
pub open spec fn hl_action_body(action: Seq<char>) -> Seq<char> {
    object_of(seq![("action"@, action)])
}

pub open spec fn hl_place_order_text(req: PlaceOrderRequest, asset: u32) -> Seq<char> {
    hl_action_body(
        object_of(
            seq![
                ("grouping"@, quoted("na"@)),
                ("orders"@, seq!['['] + hl_order_text(req, asset) + seq![']']),
                ("type"@, quoted("order"@)),
            ],
        ),
    )
}

/// A cancel by order id where one is given, else by client order id.
pub open spec fn hl_cancel_text(req: CancelOrderRequest, asset: u32) -> Seq<char> {
    if req.order_id@.len() != 0 {
        hl_action_body(
            object_of(
                seq![
                    ("cancels"@, seq!['['] + object_of(
                        seq![("a"@, nat_digits(asset as nat)), ("o"@, nat_digits(parse_u64_spec(req.order_id@)->0 as nat))],
                    ) + seq![']']),
                    ("type"@, quoted("cancel"@)),
                ],
            ),
        )
    } else {
        hl_action_body(
            object_of(
                seq![
                    ("cancels"@, seq!['['] + object_of(
                        seq![("asset"@, nat_digits(asset as nat)), ("cloid"@, quoted(req.client_order_id@))],
                    ) + seq![']']),
                    ("type"@, quoted("cancelByCloid"@)),
                ],
            ),
        )
    }
}

/// A POST to a path with the body text, no query and no headers.
pub open spec fn hl_post(r: HttpRequest, base_url: Seq<char>, path: Seq<char>, body: Seq<char>) -> bool {
    &&& r.base_url@ == base_url
    &&& r.method == HttpMethod::Post
    &&& r.path@ == path
    &&& r.headers.entries@.len() == 0
    &&& r.query_params is None
    &&& r.query_string is None
    &&& r.json_payload is Some
    &&& r.payload matches Some(p) && p@ == body
}

/// A POST to "/info" whose body is the object of the string pairs.
pub open spec fn hl_info(r: HttpRequest, base_url: Seq<char>, pairs: Seq<(Seq<char>, Seq<char>)>) -> bool {
    &&& r.base_url@ == base_url
    &&& r.method == HttpMethod::Post
    &&& r.path@ == "/info"@
    &&& r.headers.entries@.len() == 0
    &&& r.query_params is None
    &&& r.query_string is None
    &&& has_json_body(r, pairs)
}

fn one_member(key: &str, value: JsonValue) -> (r: JsonValue)
    ensures
        json_text(r) == object_of(seq![(key@, json_text(value))]),
{
    let mut entries: Vec<(String, JsonValue)> = Vec::new();
    let ghost m0: Seq<(Seq<char>, Seq<char>)> = Seq::empty();
    assert(members_text(entries@) == members_of(m0));
    add_member(&mut entries, key, value, Ghost(m0));
    assert(m0.push((key@, json_text(value))) =~= seq![(key@, json_text(value))]);
    JsonValue::Object(entries)
}

fn one_item(value: JsonValue) -> (r: JsonValue)
    ensures
        json_text(r) == seq!['['] + json_text(value) + seq![']'],
{
    let mut items: Vec<JsonValue> = Vec::new();
    items.push(value);
    let r = JsonValue::Array(items);
    assert(items@.len() == 1);
    r
}

fn json_u64(n: u64) -> (r: JsonValue)
    ensures
        json_text(r) == nat_digits(n as nat),
{
    let as_i64 = if n <= 9223372036854775807u64 { Some(n as i64) } else { None };
    JsonValue::Number(JsonNumber { text: u64_to_string(n), as_u64: Some(n), as_i64, float_text: None })
}

fn json_str(s: &str) -> (r: JsonValue)
    ensures
        json_text(r) == quoted(s@),
{
    JsonValue::Str(string_from(s))
}

fn info_request(base_url: &str, pairs: Vec<(String, String)>) -> (r: HttpRequest)
    ensures
        hl_info(r, base_url@, pair_views(pairs@)),
{
    json_request(base_url, HttpMethod::Post, "/info", &pairs)
}

fn first_member_index(entries: &Vec<(String, JsonValue)>, key: &str) -> (r: Option<usize>)
    ensures
        match r {
            Some(i) => i < entries@.len() && entries_get(entries@, key@) == Some(entries@[i as int].1),
            None => entries_get(entries@, key@) is None,
        },
{
    let mut i: usize = 0;
    assert(entries@.skip(0) =~= entries@);
    while i < entries.len()
        invariant
            i <= entries@.len(),
            entries_get(entries@, key@) == entries_get(entries@.skip(i as int), key@),
        decreases entries.len() - i,
    {
        proof {
            crate::json::lemma_entries_get_step(entries@, key@, i as int);
        }
        if str_eq(entries[i].0.as_str(), key) {
            return Some(i);
        }
        i = i + 1;
    }
    assert(entries@.skip(i as int).len() == 0);
    None
}

impl HyperliquidClient {
    pub fn create_get_instrument_info_http_request(&self, _request: &GetInstrumentInfoRequest) -> (r: HttpRequest)
        requires
            self.instrument_type != HyperliquidInstrumentType::Unknown,
        ensures
            hl_info(
                r,
                self.rest_api_base_url@,
                seq![("type"@, if self.instrument_type == HyperliquidInstrumentType::Spot { "spotMeta"@ } else { "meta"@ })],
            ),
    {
        let mut pairs: Vec<(String, String)> = Vec::new();
        if self.instrument_type == HyperliquidInstrumentType::Spot {
            push_pair(&mut pairs, "type", "spotMeta");
        } else {
            push_pair(&mut pairs, "type", "meta");
        }
        info_request(self.rest_api_base_url.as_str(), pairs)
    }

    pub fn create_get_top_of_book_http_request(&self, request: &GetTopOfBookRequest) -> (r: HttpRequest)
        ensures
            hl_info(r, self.rest_api_base_url@, seq![("coin"@, request.symbol@), ("type"@, "l2Book"@)]),
    {
        let mut pairs: Vec<(String, String)> = Vec::new();
        assert(pair_views(pairs@) =~= Seq::empty());
        push_pair(&mut pairs, "coin", request.symbol.as_str());
        push_pair(&mut pairs, "type", "l2Book");
        assert(pair_views(pairs@) =~= seq![("coin"@, request.symbol@), ("type"@, "l2Book"@)]);
        info_request(self.rest_api_base_url.as_str(), pairs)
    }

    pub fn create_get_open_order_http_request(&self, _request: &GetOpenOrderRequest) -> (r: HttpRequest)
        ensures
            hl_info(r, self.rest_api_base_url@, seq![("type"@, "frontendOpenOrders"@), ("user"@, self.wallet_address@)]),
    {
        let mut pairs: Vec<(String, String)> = Vec::new();
        assert(pair_views(pairs@) =~= Seq::empty());
        push_pair(&mut pairs, "type", "frontendOpenOrders");
        push_pair(&mut pairs, "user", self.wallet_address.as_str());
        assert(pair_views(pairs@) =~= seq![("type"@, "frontendOpenOrders"@), ("user"@, self.wallet_address@)]);
        info_request(self.rest_api_base_url.as_str(), pairs)
    }

    pub fn create_get_position_http_request(&self, _request: &GetPositionRequest) -> (r: HttpRequest)
        ensures
            hl_info(r, self.rest_api_base_url@, seq![("type"@, "clearinghouseState"@), ("user"@, self.wallet_address@)]),
    {
        let mut pairs: Vec<(String, String)> = Vec::new();
        assert(pair_views(pairs@) =~= Seq::empty());
        push_pair(&mut pairs, "type", "clearinghouseState");
        push_pair(&mut pairs, "user", self.wallet_address.as_str());
        assert(pair_views(pairs@) =~= seq![("type"@, "clearinghouseState"@), ("user"@, self.wallet_address@)]);
        info_request(self.rest_api_base_url.as_str(), pairs)
    }

    pub fn create_get_balance_http_request(&self, _request: &GetBalanceRequest) -> (r: HttpRequest)
        ensures
            hl_info(r, self.rest_api_base_url@, seq![("type"@, "spotClearinghouseState"@), ("user"@, self.wallet_address@)]),
    {
        let mut pairs: Vec<(String, String)> = Vec::new();
        assert(pair_views(pairs@) =~= Seq::empty());
        push_pair(&mut pairs, "type", "spotClearinghouseState");
        push_pair(&mut pairs, "user", self.wallet_address.as_str());
        assert(pair_views(pairs@) =~= seq![("type"@, "spotClearinghouseState"@), ("user"@, self.wallet_address@)]);
        info_request(self.rest_api_base_url.as_str(), pairs)
    }

    /// An order action posted to "/exchange", unsigned: the symbol is the asset index, the
    /// price and quantity lose their trailing zeros, a market order is immediate-or-cancel.
    #[verifier::rlimit(60)]
    #[verifier::spinoff_prover]
    pub fn create_place_order_http_request(&self, request: &PlaceOrderRequest) -> (r: HttpRequest)
        requires
            hl_asset_index(request.symbol@) is Some,
            request.side != OrderSide::Unknown,
            request.order_type != OrderType::Unknown,
            request.price@.len() != 0,
        ensures
            hl_post(r, self.rest_api_base_url@, "/exchange"@, hl_place_order_text(*request, hl_asset_index(request.symbol@)->0)),
    {
        let asset: u64 = parse_u64(request.symbol.as_str()).unwrap();
        let ghost a32 = hl_asset_index(request.symbol@)->0;
        let is_buy = self.convert_order_side_to_bool(request.side);
        let tif = if request.order_type == OrderType::Market { "Ioc" } else { "Gtc" };
        let price = remove_trailing_zeros(request.price.as_str());
        let quantity = remove_trailing_zeros(request.quantity.as_str());
        let mut order: Vec<(String, JsonValue)> = Vec::new();
        let ghost m0: Seq<(Seq<char>, Seq<char>)> = Seq::empty();
        assert(members_text(order@) == members_of(m0));
        add_member(&mut order, "a", json_u64(asset), Ghost(m0));
        let ghost m1 = m0.push(("a"@, nat_digits(asset as nat)));
        add_member(&mut order, "b", JsonValue::Bool(is_buy), Ghost(m1));
        let ghost m2 = m1.push(("b"@, if is_buy { "true"@ } else { "false"@ }));
        let ghost mut m3 = m2;
        if request.client_order_id.as_str().unicode_len() != 0 {
            add_member(&mut order, "c", json_str(request.client_order_id.as_str()), Ghost(m2));
            proof {
                m3 = m2.push(("c"@, quoted(request.client_order_id@)));
            }
        }
        let ghost pt = price@;
        let ghost qt = quantity@;
        add_member(&mut order, "p", JsonValue::Str(price), Ghost(m3));
        let ghost m4 = m3.push(("p"@, quoted(pt)));
        add_member(&mut order, "r", JsonValue::Bool(false), Ghost(m4));
        let ghost m5 = m4.push(("r"@, "false"@));
        add_member(&mut order, "s", JsonValue::Str(quantity), Ghost(m5));
        let ghost m6 = m5.push(("s"@, quoted(qt)));
        let limit = one_member("limit", one_member("tif", json_str(tif)));
        let ghost lt = json_text(limit);
        add_member(&mut order, "t", limit, Ghost(m6));
        let order = JsonValue::Object(order);
        let ghost ot = json_text(order);
        proof {
            reveal_strlit("true");
            reveal_strlit("false");
            assert(m6.push(("t"@, lt)) =~= {
                let a = seq![("a"@, nat_digits(a32 as nat)), ("b"@, if request.side == OrderSide::Buy { "true"@ } else { "false"@ })];
                let b = if request.client_order_id@.len() != 0 { a.push(("c"@, quoted(request.client_order_id@))) } else { a };
                b.push(("p"@, quoted(without_trailing_zeros(request.price@)))).push(("r"@, "false"@)).push(
                    ("s"@, quoted(without_trailing_zeros(request.quantity@))),
                ).push(("t"@, object_of(seq![("limit"@, object_of(seq![("tif"@, quoted(hl_tif(request.order_type)))]))])))
            });
            assert(ot == hl_order_text(*request, a32));
        }
        let orders = one_item(order);
        let mut action: Vec<(String, JsonValue)> = Vec::new();
        let ghost n0: Seq<(Seq<char>, Seq<char>)> = Seq::empty();
        assert(members_text(action@) == members_of(n0));
        add_member(&mut action, "grouping", json_str("na"), Ghost(n0));
        let ghost n1 = n0.push(("grouping"@, quoted("na"@)));
        add_member(&mut action, "orders", orders, Ghost(n1));
        let ghost n2 = n1.push(("orders"@, seq!['['] + ot + seq![']']));
        add_member(&mut action, "type", json_str("order"), Ghost(n2));
        let action = JsonValue::Object(action);
        let body = one_member("action", action);
        let r = HttpRequest::new(self.rest_api_base_url.as_str(), HttpMethod::Post, "/exchange", None, Some(body));
        proof {
            assert(n2.push(("type"@, quoted("order"@))) =~= seq![
                ("grouping"@, quoted("na"@)),
                ("orders"@, seq!['['] + hl_order_text(*request, a32) + seq![']']),
                ("type"@, quoted("order"@)),
            ]);
        }
        r
    }

    /// A cancel action posted to "/exchange", unsigned: by order id where one is given
    /// (it must be a number), else by client order id.
    pub fn create_cancel_order_http_request(&self, request: &CancelOrderRequest) -> (r: HttpRequest)
        requires
            hl_asset_index(request.symbol@) is Some,
            request.order_id@.len() != 0 ==> parse_u64_spec(request.order_id@) is Some,
        ensures
            hl_post(r, self.rest_api_base_url@, "/exchange"@, hl_cancel_text(*request, hl_asset_index(request.symbol@)->0)),
    {
        let asset: u64 = parse_u64(request.symbol.as_str()).unwrap();
        let mut entry: Vec<(String, JsonValue)> = Vec::new();
        let ghost m0: Seq<(Seq<char>, Seq<char>)> = Seq::empty();
        assert(members_text(entry@) == members_of(m0));
        let by_id = request.order_id.as_str().unicode_len() != 0;
        let ghost mut m2: Seq<(Seq<char>, Seq<char>)> = Seq::empty();
        if by_id {
            let oid: u64 = parse_u64(request.order_id.as_str()).unwrap();
            add_member(&mut entry, "a", json_u64(asset), Ghost(m0));
            let ghost m1 = m0.push(("a"@, nat_digits(asset as nat)));
            add_member(&mut entry, "o", json_u64(oid), Ghost(m1));
            proof {
                m2 = m1.push(("o"@, nat_digits(oid as nat)));
            }
        } else {
            add_member(&mut entry, "asset", json_u64(asset), Ghost(m0));
            let ghost m1 = m0.push(("asset"@, nat_digits(asset as nat)));
            add_member(&mut entry, "cloid", json_str(request.client_order_id.as_str()), Ghost(m1));
            proof {
                m2 = m1.push(("cloid"@, quoted(request.client_order_id@)));
            }
        }
        let entry = JsonValue::Object(entry);
        let ghost et = json_text(entry);
        let cancels = one_item(entry);
        let mut action: Vec<(String, JsonValue)> = Vec::new();
        let ghost n0: Seq<(Seq<char>, Seq<char>)> = Seq::empty();
        assert(members_text(action@) == members_of(n0));
        add_member(&mut action, "cancels", cancels, Ghost(n0));
        let ghost n1 = n0.push(("cancels"@, seq!['['] + et + seq![']']));
        let kind = if by_id { "cancel" } else { "cancelByCloid" };
        add_member(&mut action, "type", json_str(kind), Ghost(n1));
        let action = JsonValue::Object(action);
        let body = one_member("action", action);
        proof {
            let a32 = hl_asset_index(request.symbol@)->0;
            assert(a32 as nat == asset as nat);
            if by_id {
                assert(m2 =~= seq![("a"@, nat_digits(asset as nat)), ("o"@, nat_digits(parse_u64_spec(request.order_id@)->0 as nat))]);
                assert(kind@ == "cancel"@);
            } else {
                assert(m2 =~= seq![("asset"@, nat_digits(asset as nat)), ("cloid"@, quoted(request.client_order_id@))]);
                assert(kind@ == "cancelByCloid"@);
            }
            assert(m0.push(("a"@, nat_digits(asset as nat))) =~= seq![("a"@, nat_digits(asset as nat))]);
            assert(m0.push(("asset"@, nat_digits(asset as nat))) =~= seq![("asset"@, nat_digits(asset as nat))]);
            assert(n1.push(("type"@, quoted(kind@))) =~= seq![("cancels"@, seq!['['] + et + seq![']']), ("type"@, quoted(kind@))]);
        }
        HttpRequest::new(self.rest_api_base_url.as_str(), HttpMethod::Post, "/exchange", None, Some(body))
    }

    /// Signs the action of a request's body with a nonce: the body becomes `{"action": ...,
    /// "nonce": ..., "signature": ...}`. The action comes as its MessagePack encoding with
    /// named fields (`rmp_serde::to_vec_named`), which the caller makes from the body's
    /// "action". False, with the request unchanged, where the body has no "action" or
    /// `alloy` cannot sign.
    pub fn sign_http_request(&self, http_request: &mut HttpRequest, nonce: u64, action_msgpack: &[u8]) -> (signed: bool)
        requires
            self.credential matches Some(c) && secp256k1_secret_key_valid(c.secret_key@),
        ensures
            !signed ==> *final(http_request) == *old(http_request),
            signed <==> ((match old(http_request).json_payload {
                Some(j) => spec_get(j, "action"@) is Some,
                None => false,
            }) && self.signs_action(action_msgpack@, nonce)),
            signed ==> {
                let action = spec_get(old(http_request).json_payload->0, "action"@)->0;
                let sig = secp256k1_hash_signature(
                    self.credential->0.secret_key@,
                    hl_agent_signing_hash(hl_connection_id(action_msgpack@, nonce), self.is_mainnet),
                );
                &&& final(http_request).base_url == old(http_request).base_url
                &&& final(http_request).method == old(http_request).method
                &&& final(http_request).path == old(http_request).path
                &&& final(http_request).headers == old(http_request).headers
                &&& final(http_request).query_params == old(http_request).query_params
                &&& final(http_request).query_string == old(http_request).query_string
                &&& final(http_request).json_payload is Some
                &&& final(http_request).payload matches Some(p) && p@ == object_of(
                    seq![
                        ("action"@, json_text(action)),
                        ("nonce"@, nat_digits(nonce as nat)),
                        ("signature"@, hl_signature_text(sig)),
                    ],
                )
            },
    {
        let mut json: Option<JsonValue> = None;
        core::mem::swap(&mut json, &mut http_request.json_payload);
        let mut entries = match json {
            Some(JsonValue::Object(e)) => e,
            other => {
                http_request.json_payload = other;
                return false;
            },
        };
        let idx = match first_member_index(&entries, "action") {
            Some(i) => i,
            None => {
                http_request.json_payload = Some(JsonValue::Object(entries));
                return false;
            },
        };
        let signature = match self.sign_action(action_msgpack, nonce) {
            Some(s) => s,
            None => {
                http_request.json_payload = Some(JsonValue::Object(entries));
                return false;
            },
        };
        let (_, action) = entries.remove(idx);
        let ghost at = json_text(action);
        let ghost st = json_text(signature);
        let mut body: Vec<(String, JsonValue)> = Vec::new();
        let ghost m0: Seq<(Seq<char>, Seq<char>)> = Seq::empty();
        assert(members_text(body@) == members_of(m0));
        add_member(&mut body, "action", action, Ghost(m0));
        let ghost m1 = m0.push(("action"@, at));
        add_member(&mut body, "nonce", json_u64(nonce), Ghost(m1));
        let ghost m2 = m1.push(("nonce"@, nat_digits(nonce as nat)));
        add_member(&mut body, "signature", signature, Ghost(m2));
        let body = JsonValue::Object(body);
        let text = body.to_text();
        proof {
            assert(m2.push(("signature"@, st)) =~= seq![("action"@, at), ("nonce"@, nat_digits(nonce as nat)), ("signature"@, st)]);
        }
        http_request.json_payload = Some(body);
        http_request.payload = Some(text);
        true
    }
}

/// The spot pairs of a universe that list their tokens (those without are passed over).
pub open spec fn hl_listed_pairs(universe: Seq<JsonValue>) -> Seq<JsonValue>
    decreases universe.len(),
{
    if universe.len() == 0 {
        Seq::empty()
    } else {
        let rest = hl_listed_pairs(universe.drop_last());
        if spec_as_array(spec_at(universe.last(), "tokens"@)) is Some { rest.push(universe.last()) } else { rest }
    }
}

/// A number member read as `u64`, zero where it is none.
pub open spec fn u64_or_zero(v: Option<JsonValue>) -> nat {
    match v {
        Some(x) => match spec_as_u64(x) {
            Some(n) => n as nat,
            None => 0,
        },
        None => 0,
    }
}

/// The token at an index of the token list, where there is one.
pub open spec fn hl_token(tokens: Seq<JsonValue>, index: nat) -> Option<JsonValue> {
    if index < tokens.len() { Some(tokens[index as int]) } else { None }
}

pub open spec fn hl_token_name(token: Option<JsonValue>) -> Seq<char> {
    match token {
        Some(t) => match spec_as_str(spec_at(t, "name"@)) {
            Some(n) => n,
            None => Seq::empty(),
        },
        None => Seq::empty(),
    }
}

/// The quantity step of a size precision: "1e-<decimals>".
pub open spec fn hl_quantity_increment(decimals: nat) -> Seq<char> {
    "1e-"@ + nat_digits(decimals)
}

pub open spec fn hl_info_rest_empty(info: InstrumentInfo) -> bool {
    &&& info.order_price_increment@.len() == 0
    &&& info.order_quantity_min@.len() == 0
    &&& info.order_quantity_max@.len() == 0
    &&& info.order_quote_quantity_min@.len() == 0
    &&& info.order_quote_quantity_max@.len() == 0
    &&& info.settle_asset@.len() == 0
    &&& info.underlying_symbol@.len() == 0
    &&& info.contract_size@.len() == 0
    &&& info.expiry_timestamp.is_epoch()
}

/// A spot pair: its name, the names of its base and quote tokens, and the base token's
/// size precision as the quantity step.
pub open spec fn hl_spot_matches(info: InstrumentInfo, pair: JsonValue, tokens: Seq<JsonValue>) -> bool {
    let listed = spec_at(pair, "tokens"@);
    let base = hl_token(tokens, u64_or_zero(array_at(listed, 0)));
    let quote = hl_token(tokens, u64_or_zero(array_at(listed, 1)));
    &&& info.exchange_instrument_type == ExchangeInstrumentType::Hyperliquid(HyperliquidInstrumentType::Spot)
    &&& info.symbol@ == field_str(pair, "name"@)
    &&& info.base_asset@ == hl_token_name(base)
    &&& info.quote_asset@ == hl_token_name(quote)
    &&& info.order_quantity_increment@ == hl_quantity_increment(
        match base {
            Some(t) => u64_or_zero(spec_get(t, "szDecimals"@)),
            None => 0,
        },
    )
    &&& hl_info_rest_empty(info)
}

/// A perpetual: its name as symbol and base, USDC as quote, its size precision as step.
pub open spec fn hl_perp_matches(info: InstrumentInfo, v: JsonValue) -> bool {
    &&& info.exchange_instrument_type == ExchangeInstrumentType::Hyperliquid(HyperliquidInstrumentType::Perpetuals)
    &&& info.symbol@ == field_str(v, "name"@)
    &&& info.base_asset@ == field_str(v, "name"@)
    &&& info.quote_asset@ == "USDC"@
    &&& info.order_quantity_increment@ == hl_quantity_increment(u64_or_zero(spec_get(v, "szDecimals"@)))
    &&& hl_info_rest_empty(info)
}

/// The text of a level's member, empty where the level or member is missing.
pub open spec fn hl_level_text(level: Option<JsonValue>, key: Seq<char>) -> Seq<char> {
    match level {
        Some(l) => field_str(l, key),
        None => Seq::empty(),
    }
}

/// The best level of a side of the book: the first entry of the side's list.
pub open spec fn hl_best(levels: Seq<JsonValue>, side: int) -> Option<JsonValue> {
    if side < levels.len() {
        array_at(levels[side], 0)
    } else {
        None
    }
}

/// The order id of a place-order answer: the first status's resting order id, else its
/// filled order id, else zero.
pub open spec fn hl_placed_order_id(j: JsonValue) -> nat {
    let status = array_at(spec_at(spec_at(spec_at(j, "response"@), "data"@), "statuses"@), 0);
    let resting = match status {
        Some(s) => match spec_get(s, "resting"@) {
            Some(r) => spec_as_u64(spec_at(r, "oid"@)),
            None => None,
        },
        None => None,
    };
    let filled = match status {
        Some(s) => match spec_get(s, "filled"@) {
            Some(f) => spec_as_u64(spec_at(f, "oid"@)),
            None => None,
        },
        None => None,
    };
    match resting {
        Some(n) => n as nat,
        None => match filled {
            Some(n) => n as nat,
            None => 0,
        },
    }
}

fn u64_member_or_zero(v: Option<&JsonValue>) -> (r: u64)
    ensures
        r as nat == u64_or_zero(match v {
            Some(x) => Some(*x),
            None => None,
        }),
{
    match v {
        Some(x) => match x.as_u64() {
            Some(n) => n,
            None => 0,
        },
        None => 0,
    }
}

fn token_name(token: Option<&JsonValue>) -> (r: String)
    ensures
        r@ == hl_token_name(match token {
            Some(t) => Some(*t),
            None => None,
        }),
{
    match token {
        Some(t) => match t.at("name") {
            Some(n) => match n.as_str() {
                Some(x) => string_from(x),
                None => String::new(),
            },
            None => String::new(),
        },
        None => String::new(),
    }
}

fn quantity_increment(decimals: u64) -> (r: String)
    ensures
        r@ == hl_quantity_increment(decimals as nat),
{
    let mut r = string_from("1e-");
    let d = u64_to_string(decimals);
    push_str(&mut r, d.as_str());
    r
}

fn level_text(level: Option<&JsonValue>, key: &str) -> (r: String)
    ensures
        r@ == hl_level_text(match level {
            Some(l) => Some(*l),
            None => None,
        }, key@),
{
    match level {
        Some(l) => l.field_str(key),
        None => String::new(),
    }
}

impl HyperliquidClient {
    /// A success: a 2xx status and a JSON body whose "status" is not "err".
    pub open spec fn is_success(resp: HttpResponse) -> bool {
        &&& status_is_success(resp.status)
        &&& resp.json_payload is Some
        &&& match spec_get(resp.json_payload->0, "status"@) {
            Some(st) => spec_as_str(st) != Some("err"@),
            None => true,
        }
    }

    pub fn is_http_response_success(&self, http_response: &HttpResponse) -> (r: bool)
        ensures
            r == Self::is_success(*http_response),
    {
        if !http_response.is_status_success() {
            return false;
        }
        match &http_response.json_payload {
            Some(j) => match j.get("status") {
                Some(st) => match st.as_str() {
                    Some(x) => !str_eq(x, "err"),
                    None => true,
                },
                None => true,
            },
            None => false,
        }
    }

    /// The instruments of a spot or perpetual universe; none where the lists are missing.
    pub open spec fn instrument_info_response(&self, resp: HttpResponse, r: Response) -> bool {
        let j = resp.json_payload->0;
        r matches Response::GetInstrumentInfo(g) && g.next_page_cursor@.len() == 0 && if self.instrument_type
            == HyperliquidInstrumentType::Spot {
            match (spec_get(j, "tokens"@), spec_get(j, "universe"@)) {
                (Some(t), Some(u)) => match (spec_as_array(t), spec_as_array(u)) {
                    (Some(tokens), Some(universe)) => {
                        let pairs = hl_listed_pairs(universe);
                        g.data@.len() == pairs.len() && forall|i: int|
                            0 <= i < pairs.len() ==> hl_spot_matches(#[trigger] g.data@[i], pairs[i], tokens)
                    },
                    _ => g.data@.len() == 0,
                },
                _ => g.data@.len() == 0,
            }
        } else {
            match spec_get(j, "universe"@) {
                Some(u) => match spec_as_array(u) {
                    Some(universe) => g.data@.len() == universe.len() && forall|i: int|
                        0 <= i < universe.len() ==> hl_perp_matches(#[trigger] g.data@[i], universe[i]),
                    None => g.data@.len() == 0,
                },
                None => g.data@.len() == 0,
            }
        }
    }

    pub fn create_get_instrument_info_rest_response(&self, http_response: HttpResponse) -> (r: Response)
        requires
            http_response.json_payload is Some,
            self.instrument_type != HyperliquidInstrumentType::Unknown,
        ensures
            self.instrument_info_response(http_response, r),
    {
        let json = http_response.json_payload.unwrap();
        let mut data: Vec<InstrumentInfo> = Vec::new();
        if self.instrument_type == HyperliquidInstrumentType::Spot {
            let tokens = match json.get("tokens") {
                Some(t) => match t.as_array() {
                    Some(a) => a,
                    None => return Response::GetInstrumentInfo(GetInstrumentInfoResponse { data, next_page_cursor: String::new() }),
                },
                None => return Response::GetInstrumentInfo(GetInstrumentInfoResponse { data, next_page_cursor: String::new() }),
            };
            let universe = match json.get("universe") {
                Some(u) => match u.as_array() {
                    Some(a) => a,
                    None => return Response::GetInstrumentInfo(GetInstrumentInfoResponse { data, next_page_cursor: String::new() }),
                },
                None => return Response::GetInstrumentInfo(GetInstrumentInfoResponse { data, next_page_cursor: String::new() }),
            };
            let mut i: usize = 0;
            while i < universe.len()
                invariant
                    i <= universe@.len(),
                    data@.len() == hl_listed_pairs(universe@.take(i as int)).len(),
                    forall|k: int| 0 <= k < data@.len() ==> hl_spot_matches(
                        #[trigger] data@[k],
                        hl_listed_pairs(universe@.take(i as int))[k],
                        tokens@,
                    ),
                decreases universe.len() - i,
            {
                let item = &universe[i];
                assert(universe@.take(i + 1).drop_last() =~= universe@.take(i as int));
                let listed = match item.at("tokens") {
                    Some(t) => t.as_array(),
                    None => None,
                };
                if listed.is_some() {
                    let null = JsonValue::Null;
                    let pair = member_or(item, "tokens", &null);
                    let base_index = u64_member_or_zero(pair.at_index(0));
                    let quote_index = u64_member_or_zero(pair.at_index(1));
                    let base = if base_index < tokens.len() as u64 { Some(&tokens[base_index as usize]) } else { None };
                    let quote = if quote_index < tokens.len() as u64 { Some(&tokens[quote_index as usize]) } else { None };
                    let decimals: u64 = match base {
                        Some(t) => u64_member_or_zero(t.get("szDecimals")),
                        None => 0,
                    };
                    data.push(InstrumentInfo {
                        exchange_instrument_type: ExchangeInstrumentType::Hyperliquid(HyperliquidInstrumentType::Spot),
                        symbol: item.field_str("name"),
                        base_asset: token_name(base),
                        quote_asset: token_name(quote),
                        order_price_increment: String::new(),
                        order_quantity_increment: quantity_increment(decimals),
                        order_quantity_min: String::new(),
                        order_quantity_max: String::new(),
                        order_quote_quantity_min: String::new(),
                        order_quote_quantity_max: String::new(),
                        settle_asset: String::new(),
                        underlying_symbol: String::new(),
                        contract_size: String::new(),
                        expiry_timestamp: Timestamp::epoch(),
                    });
                }
                i = i + 1;
            }
            assert(universe@.take(universe@.len() as int) =~= universe@);
        } else {
            let universe = match json.get("universe") {
                Some(u) => match u.as_array() {
                    Some(a) => a,
                    None => return Response::GetInstrumentInfo(GetInstrumentInfoResponse { data, next_page_cursor: String::new() }),
                },
                None => return Response::GetInstrumentInfo(GetInstrumentInfoResponse { data, next_page_cursor: String::new() }),
            };
            let mut i: usize = 0;
            while i < universe.len()
                invariant
                    i <= universe@.len(),
                    data@.len() == i,
                    forall|k: int| 0 <= k < i ==> hl_perp_matches(#[trigger] data@[k], universe@[k]),
                decreases universe.len() - i,
            {
                let item = &universe[i];
                let name = item.field_str("name");
                data.push(InstrumentInfo {
                    exchange_instrument_type: ExchangeInstrumentType::Hyperliquid(HyperliquidInstrumentType::Perpetuals),
                    symbol: name.clone(),
                    base_asset: item.field_str("name"),
                    quote_asset: string_from("USDC"),
                    order_price_increment: String::new(),
                    order_quantity_increment: quantity_increment(u64_member_or_zero(item.get("szDecimals"))),
                    order_quantity_min: String::new(),
                    order_quantity_max: String::new(),
                    order_quote_quantity_min: String::new(),
                    order_quote_quantity_max: String::new(),
                    settle_asset: String::new(),
                    underlying_symbol: String::new(),
                    contract_size: String::new(),
                    expiry_timestamp: Timestamp::epoch(),
                });
                i = i + 1;
            }
        }
        Response::GetInstrumentInfo(GetInstrumentInfoResponse { data, next_page_cursor: String::new() })
    }

    /// The best bid and ask of an order book; nothing where it has no "levels" list.
    pub open spec fn top_of_book_response(&self, resp: HttpResponse, r: Response) -> bool {
        let j = resp.json_payload->0;
        r matches Response::GetTopOfBook(g) && match spec_get(j, "levels"@) {
            Some(l) => match spec_as_array(l) {
                Some(levels) => g.data@.len() == 1 && ({
                    let b = g.data@[0];
                    let coin = field_str(j, "coin"@);
                    &&& b.exchange_instrument_type == ExchangeInstrumentType::Hyperliquid(hl_instrument_type_of(coin))
                    &&& b.symbol@ == coin
                    &&& from_millis_or_epoch(b.timestamp, match crate::json::spec_as_i64(spec_at(j, "time"@)) {
                        Some(n) => n as int,
                        None => 0,
                    })
                    &&& b.bid_price@ == hl_level_text(hl_best(levels, 0), "px"@)
                    &&& b.bid_size@ == hl_level_text(hl_best(levels, 0), "sz"@)
                    &&& b.ask_price@ == hl_level_text(hl_best(levels, 1), "px"@)
                    &&& b.ask_size@ == hl_level_text(hl_best(levels, 1), "sz"@)
                }),
                None => g.data@.len() == 0,
            },
            None => g.data@.len() == 0,
        }
    }

    pub fn create_get_top_of_book_rest_response(&self, http_response: HttpResponse) -> (r: Response)
        requires
            http_response.json_payload is Some,
        ensures
            self.top_of_book_response(http_response, r),
    {
        let json = http_response.json_payload.unwrap();
        let mut data: Vec<TopOfBook> = Vec::new();
        let coin = json.field_str("coin");
        let millis: i64 = match json.at("time") {
            Some(t) => match t.as_i64() {
                Some(n) => n,
                None => 0,
            },
            None => 0,
        };
        let timestamp = timestamp_from_millis_or_epoch(millis);
        let levels = match json.get("levels") {
            Some(l) => match l.as_array() {
                Some(a) => a,
                None => return Response::GetTopOfBook(GetTopOfBookResponse { data }),
            },
            None => return Response::GetTopOfBook(GetTopOfBookResponse { data }),
        };
        let best_bid = if levels.len() > 0 { levels[0].at_index(0) } else { None };
        let best_ask = if levels.len() > 1 { levels[1].at_index(0) } else { None };
        data.push(TopOfBook {
            exchange_instrument_type: ExchangeInstrumentType::Hyperliquid(self.convert_symbol_to_instrument_type(coin.as_str())),
            symbol: coin,
            timestamp,
            bid_price: level_text(best_bid, "px"),
            bid_size: level_text(best_bid, "sz"),
            ask_price: level_text(best_ask, "px"),
            ask_size: level_text(best_ask, "sz"),
        });
        Response::GetTopOfBook(GetTopOfBookResponse { data })
    }

    pub fn create_place_order_rest_response(&self, http_response: HttpResponse) -> (r: Response)
        requires
            http_response.json_payload is Some,
        ensures
            r matches Response::PlaceOrder(p) && p.order_id@ == nat_digits(hl_placed_order_id(http_response.json_payload->0)),
    {
        let json = http_response.json_payload.unwrap();
        let null = JsonValue::Null;
        let statuses = member_or(member_or(member_or(&json, "response", &null), "data", &null), "statuses", &null);
        let status = statuses.at_index(0);
        let resting: Option<u64> = match status {
            Some(s) => match s.get("resting") {
                Some(r) => match r.at("oid") {
                    Some(o) => o.as_u64(),
                    None => null.as_u64(),
                },
                None => None,
            },
            None => None,
        };
        let filled: Option<u64> = match status {
            Some(s) => match s.get("filled") {
                Some(f) => match f.at("oid") {
                    Some(o) => o.as_u64(),
                    None => null.as_u64(),
                },
                None => None,
            },
            None => None,
        };
        let oid: u64 = match resting {
            Some(n) => n,
            None => match filled {
                Some(n) => n,
                None => 0,
            },
        };
        Response::PlaceOrder(PlaceOrderResponse { order_id: u64_to_string(oid) })
    }

    pub fn create_cancel_order_rest_response(&self, _http_response: HttpResponse) -> (r: Response)
        ensures
            r is CancelOrder,
    {
        Response::CancelOrder(CancelOrderResponse {})
    }

    /// The open orders of the body's list, each open.
    pub open spec fn open_order_response(&self, resp: HttpResponse, r: Response) -> bool {
        let items = items_of(resp.json_payload->0);
        r matches Response::GetOpenOrder(g) && g.next_page_cursor@.len() == 0 && g.data@.len() == items.len() && forall|i: int|
            0 <= i < items.len() ==> hl_order_matches(#[trigger] g.data@[i], items[i], self.instrument_type, OrderStatus::Open)
    }

    pub fn create_get_open_order_rest_response(&self, http_response: HttpResponse) -> (r: Response)
        requires
            http_response.json_payload is Some,
        ensures
            self.open_order_response(http_response, r),
    {
        let json = http_response.json_payload.unwrap();
        let empty: Vec<JsonValue> = Vec::new();
        let items = items_exec(&json, &empty);
        let mut data = Vec::new();
        let mut i: usize = 0;
        while i < items.len()
            invariant
                items@ == items_of(json),
                i <= items@.len(),
                data@.len() == i,
                forall|k: int| 0 <= k < i ==> hl_order_matches(#[trigger] data@[k], items@[k], self.instrument_type, OrderStatus::Open),
            decreases items.len() - i,
        {
            data.push(self.convert_json_value_to_order(&items[i], OrderStatus::Open));
            i = i + 1;
        }
        Response::GetOpenOrder(GetOpenOrderResponse { data, next_page_cursor: String::new() })
    }

    /// One position per entry of "assetPositions". The original drops the entries whose
    /// "szi" reads as the float zero and takes each side from its sign: both turn on a
    /// float, so the caller does them.
    pub open spec fn position_response(&self, resp: HttpResponse, r: Response) -> bool {
        let items = items_of(spec_at(resp.json_payload->0, "assetPositions"@));
        r matches Response::GetPosition(g) && g.next_page_cursor@.len() == 0 && g.data@.len() == items.len() && forall|i: int|
            0 <= i < items.len() ==> hl_position_matches(#[trigger] g.data@[i], items[i])
    }

    pub fn create_get_position_rest_response(&self, http_response: HttpResponse) -> (r: Response)
        requires
            http_response.json_payload is Some,
        ensures
            self.position_response(http_response, r),
    {
        let json = http_response.json_payload.unwrap();
        let null = JsonValue::Null;
        let empty: Vec<JsonValue> = Vec::new();
        let items = items_exec(member_or(&json, "assetPositions", &null), &empty);
        let mut data = Vec::new();
        let mut i: usize = 0;
        while i < items.len()
            invariant
                items@ == items_of(spec_at(json, "assetPositions"@)),
                i <= items@.len(),
                data@.len() == i,
                forall|k: int| 0 <= k < i ==> hl_position_matches(#[trigger] data@[k], items@[k]),
            decreases items.len() - i,
        {
            data.push(self.convert_json_value_to_position(&items[i]));
            i = i + 1;
        }
        Response::GetPosition(GetPositionResponse { data, next_page_cursor: String::new() })
    }

    pub open spec fn balance_response(&self, resp: HttpResponse, r: Response) -> bool {
        let items = items_of(spec_at(resp.json_payload->0, "balances"@));
        r matches Response::GetBalance(g) && g.data@.len() == items.len() && forall|i: int|
            0 <= i < items.len() ==> hl_balance_matches(#[trigger] g.data@[i], items[i])
    }

    pub fn create_get_balance_rest_response(&self, http_response: HttpResponse) -> (r: Response)
        requires
            http_response.json_payload is Some,
        ensures
            self.balance_response(http_response, r),
    {
        let json = http_response.json_payload.unwrap();
        let null = JsonValue::Null;
        let empty: Vec<JsonValue> = Vec::new();
        let items = items_exec(member_or(&json, "balances", &null), &empty);
        let mut data = Vec::new();
        let mut i: usize = 0;
        while i < items.len()
            invariant
                items@ == items_of(spec_at(json, "balances"@)),
                i <= items@.len(),
                data@.len() == i,
                forall|k: int| 0 <= k < i ==> hl_balance_matches(#[trigger] data@[k], items@[k]),
            decreases items.len() - i,
        {
            data.push(self.convert_json_value_to_balance(&items[i]));
            i = i + 1;
        }
        Response::GetBalance(GetBalanceResponse { data })
    }

    /// The response itself, with its "response" text (else its "error" text) as the
    /// error message where it has a JSON body.
    pub open spec fn error_response(&self, resp: HttpResponse, r: Response) -> bool {
        &&& r matches Response::HttpErrorResponse(e) && e.http_request == resp.http_request && e.status == resp.status
                && e.body == resp.body && e.json_payload == resp.json_payload && e.error_code == resp.error_code
                && match resp.json_payload {
                Some(j) => opt_view(e.error_message) == match (match spec_get(j, "response"@) {
                    Some(m) => spec_as_str(m),
                    None => None,
                }) {
                    Some(m) => Some(m),
                    None => match spec_get(j, "error"@) {
                        Some(m) => spec_as_str(m),
                        None => None,
                    },
                },
                None => e.error_message == resp.error_message,
            }
    }

    pub fn create_http_error_response(&self, http_response: HttpResponse) -> (r: Response)
        ensures
            self.error_response(http_response, r),
    {
        let mut response = http_response;
        match &response.json_payload {
            Some(j) => {
                let from_response = match j.get("response") {
                    Some(m) => match m.as_str() {
                        Some(x) => Some(string_from(x)),
                        None => None,
                    },
                    None => None,
                };
                let message = match from_response {
                    Some(m) => Some(m),
                    None => match j.get("error") {
                        Some(m) => match m.as_str() {
                            Some(x) => Some(string_from(x)),
                            None => None,
                        },
                        None => None,
                    },
                };
                response.error_message = message;
            },
            None => {},
        }
        Response::HttpErrorResponse(response)
    }
}

impl HyperliquidClient {
    /// What the converter of the request's kind makes of a successful response.
    pub open spec fn rest_response(&self, request: Request, resp: HttpResponse, r: Response) -> bool {
        match request {
            Request::GetInstrumentInfo(_) => self.instrument_info_response(resp, r),
            Request::GetTopOfBook(_) => self.top_of_book_response(resp, r),
            Request::PlaceOrder(_) => r matches Response::PlaceOrder(p) && p.order_id@ == nat_digits(
                hl_placed_order_id(resp.json_payload->0),
            ),
            Request::CancelOrder(_) => r is CancelOrder,
            Request::GetOpenOrder(_) => self.open_order_response(resp, r),
            Request::GetPosition(_) => self.position_response(resp, r),
            Request::GetBalance(_) => self.balance_response(resp, r),
            _ => false,
        }
    }

    /// The response to a REST request: the error response where it is not a success (a
    /// 2xx status and a JSON body whose "status" is not "err"), else what the converter of
    /// the request's kind makes of it.
    pub fn create_rest_response(&self, request: &Request, http_response: HttpResponse) -> (r: Response)
        requires
            is_rest_request(*request),
            request is GetInstrumentInfo ==> self.instrument_type != HyperliquidInstrumentType::Unknown,
        ensures
            !Self::is_success(http_response) ==> self.error_response(http_response, r),
            Self::is_success(http_response) ==> answers(*request, r) && self.rest_response(*request, http_response, r),
    {
        if !self.is_http_response_success(&http_response) {
            return self.create_http_error_response(http_response);
        }
        match request {
            Request::GetInstrumentInfo(_) => self.create_get_instrument_info_rest_response(http_response),
            Request::GetTopOfBook(_) => self.create_get_top_of_book_rest_response(http_response),
            Request::PlaceOrder(_) => self.create_place_order_rest_response(http_response),
            Request::CancelOrder(_) => self.create_cancel_order_rest_response(http_response),
            Request::GetOpenOrder(_) => self.create_get_open_order_rest_response(http_response),
            Request::GetPosition(_) => self.create_get_position_rest_response(http_response),
            _ => self.create_get_balance_rest_response(http_response),
        }
    }

    /// The REST requests this client can build: a known instrument type for instrument
    /// information; for an order, a numeric asset, a known side and type and a price; for
    /// a cancellation, a numeric asset and a numeric order id where one is given.
    pub open spec fn rest_request_ok(&self, request: Request) -> bool {
        &&& is_rest_request(request)
        &&& request is GetInstrumentInfo ==> self.instrument_type != HyperliquidInstrumentType::Unknown
        &&& request matches Request::PlaceOrder(q) ==> hl_asset_index(q.symbol@) is Some && q.side != OrderSide::Unknown
            && q.order_type != OrderType::Unknown && q.price@.len() != 0
        &&& request matches Request::CancelOrder(q) ==> hl_asset_index(q.symbol@) is Some && (q.order_id@.len() != 0
            ==> parse_u64_spec(q.order_id@) is Some)
    }

    /// The request that the builder of the request's kind makes (orders and
    /// cancellations still to be signed with `sign_http_request`).
    pub fn create_unsigned_http_request(&self, request: &Request) -> (r: HttpRequest)
        requires
            self.rest_request_ok(*request),
        ensures
            match *request {
                Request::PlaceOrder(q) => hl_post(r, self.rest_api_base_url@, "/exchange"@, hl_place_order_text(q, hl_asset_index(q.symbol@)->0)),
                Request::CancelOrder(q) => hl_post(r, self.rest_api_base_url@, "/exchange"@, hl_cancel_text(q, hl_asset_index(q.symbol@)->0)),
                Request::GetTopOfBook(q) => hl_info(r, self.rest_api_base_url@, seq![("coin"@, q.symbol@), ("type"@, "l2Book"@)]),
                Request::GetOpenOrder(_) => hl_info(r, self.rest_api_base_url@, seq![("type"@, "frontendOpenOrders"@), ("user"@, self.wallet_address@)]),
                Request::GetPosition(_) => hl_info(r, self.rest_api_base_url@, seq![("type"@, "clearinghouseState"@), ("user"@, self.wallet_address@)]),
                Request::GetBalance(_) => hl_info(r, self.rest_api_base_url@, seq![("type"@, "spotClearinghouseState"@), ("user"@, self.wallet_address@)]),
                _ => hl_info(
                    r,
                    self.rest_api_base_url@,
                    seq![("type"@, if self.instrument_type == HyperliquidInstrumentType::Spot { "spotMeta"@ } else { "meta"@ })],
                ),
            },
    {
        match request {
            Request::PlaceOrder(q) => self.create_place_order_http_request(q),
            Request::CancelOrder(q) => self.create_cancel_order_http_request(q),
            Request::GetTopOfBook(q) => self.create_get_top_of_book_http_request(q),
            Request::GetOpenOrder(q) => self.create_get_open_order_http_request(q),
            Request::GetPosition(q) => self.create_get_position_http_request(q),
            Request::GetBalance(q) => self.create_get_balance_http_request(q),
            Request::GetInstrumentInfo(q) => self.create_get_instrument_info_http_request(q),
            _ => {
                assert(false);
                self.create_get_balance_http_request(&GetBalanceRequest { asset: String::new() })
            },
        }
    }
}

} // verus!
