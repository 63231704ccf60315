//! Where each exchange is asked for its best bid and ask, and what the order requests
//! carry on each exchange: an order's symbol, side, type,
//! quantity, price and client order id under the exchange's names, and which order a
//! cancellation names (the exchange's own order id where one is given, else the
//! client's).

use vstd::prelude::*;
use crate::exchange_client::common::{CancelOrderRequest, PlaceOrderRequest};
use crate::exchanges::binance_usds_margined_futures::common::{
    binance_order_type_text, binance_side_text, BinanceUsdsMarginedFuturesClient,
};
use crate::exchanges::binance_usds_margined_futures::rest::place_order_pairs;
use crate::exchanges::bitget::common::{bitget_order_type_text, bitget_side_text};
use crate::exchanges::bitget::rest::place_order_members;
use crate::exchanges::bitstamp::rest::side_text;
use crate::exchanges::bybit::common::{bybit_order_type_text, bybit_side_text};
use crate::exchanges::bybit::rest::bybit_place_order_members;
use crate::exchanges::coinbase::common::{coinbase_order_type_text, coinbase_side_text};
use crate::exchanges::coinbase::rest::coinbase_place_order_members;
use crate::exchanges::gateio_spot_and_margin::common::{gate_spot_order_type_text, gate_spot_side_text};
use crate::exchanges::gateio_spot_and_margin::rest::gate_spot_place_order_members;
use crate::exchanges::htx_spot::common::htx_side_type_text;
use crate::exchanges::htx_spot::rest::htx_place_order_members;
use crate::signing::pair_views;
use crate::types::OrderType;
use crate::exchanges::bitget::common::BitgetClient;
use crate::exchanges::bitstamp::common::BitstampClient;
use crate::exchanges::bybit::common::BybitClient;
use crate::exchanges::coinbase::common::CoinbaseClient;
use crate::exchanges::gateio_perpetual_futures::common::GateioPerpetualFuturesClient;
use crate::exchanges::gateio_spot_and_margin::common::GateioSpotAndMarginClient;
use crate::exchanges::htx_spot::common::HtxSpotClient;
use crate::networking::http::{has_json_body, has_query, HttpMethod, HttpRequest};
use crate::exchange_client::common::GetTopOfBookRequest;
use crate::signing::form_text;

verus! {

/// A Bybit cancellation posts to /v5/order/cancel the category, then "orderId" where the
/// exchange's order id is given, else "orderLinkId" where the client's is, then the
/// symbol.
pub proof fn law_bybit_cancel_names_the_order(client: BybitClient, req: CancelOrderRequest, r: HttpRequest)
    requires
        client.cancel_order_http_request(req, r),
    ensures
        r.method == HttpMethod::Post,
        r.path@ == "/v5/order/cancel"@,
        req.order_id@.len() != 0 ==> has_json_body(
            r,
            seq![("category"@, client.category@), ("orderId"@, req.order_id@), ("symbol"@, req.symbol@)],
        ),
        req.order_id@.len() == 0 && req.client_order_id@.len() != 0 ==> has_json_body(
            r,
            seq![("category"@, client.category@), ("orderLinkId"@, req.client_order_id@), ("symbol"@, req.symbol@)],
        ),
{
    let a = seq![("category"@, client.category@)];
    assert(a.push(("orderId"@, req.order_id@)).push(("symbol"@, req.symbol@)) =~= seq![
        ("category"@, client.category@),
        ("orderId"@, req.order_id@),
        ("symbol"@, req.symbol@),
    ]);
    assert(a.push(("orderLinkId"@, req.client_order_id@)).push(("symbol"@, req.symbol@)) =~= seq![
        ("category"@, client.category@),
        ("orderLinkId"@, req.client_order_id@),
        ("symbol"@, req.symbol@),
    ]);
}

/// A Bitget cancellation posts the category, then "orderId" where the exchange's order id
/// is given, else "clientOid" where the client's is, then the symbol.
pub proof fn law_bitget_cancel_names_the_order(client: BitgetClient, req: CancelOrderRequest, r: HttpRequest)
    requires
        client.cancel_order_http_request(req, r),
    ensures
        r.method == HttpMethod::Post,
        r.path@ == "/api/v3/trade/cancel-order"@,
        req.order_id@.len() != 0 ==> has_json_body(
            r,
            seq![("category"@, client.category@), ("orderId"@, req.order_id@), ("symbol"@, req.symbol@)],
        ),
        req.order_id@.len() == 0 && req.client_order_id@.len() != 0 ==> has_json_body(
            r,
            seq![("category"@, client.category@), ("clientOid"@, req.client_order_id@), ("symbol"@, req.symbol@)],
        ),
{
    let a = seq![("category"@, client.category@)];
    assert(a.push(("orderId"@, req.order_id@)).push(("symbol"@, req.symbol@)) =~= seq![
        ("category"@, client.category@),
        ("orderId"@, req.order_id@),
        ("symbol"@, req.symbol@),
    ]);
    assert(a.push(("clientOid"@, req.client_order_id@)).push(("symbol"@, req.symbol@)) =~= seq![
        ("category"@, client.category@),
        ("clientOid"@, req.client_order_id@),
        ("symbol"@, req.symbol@),
    ]);
}

/// A Bitstamp cancellation posts to /api/v2/cancel_order/ the form "id" with the
/// exchange's order id where one is given, else "client_order_id" with the client's.
pub proof fn law_bitstamp_cancel_names_the_order(client: BitstampClient, req: CancelOrderRequest, r: HttpRequest)
    requires
        client.cancel_order_http_request(req, r),
    ensures
        r.method == HttpMethod::Post,
        r.path@ == "/api/v2/cancel_order/"@,
        req.order_id@.len() != 0 ==> (r.payload matches Some(p) && p@ == form_text(seq![("id"@, req.order_id@)])),
        req.order_id@.len() == 0 ==> (r.payload matches Some(p) && p@ == form_text(
            seq![("client_order_id"@, req.client_order_id@)],
        )),
{
}

/// A Coinbase cancellation deletes /orders/ and the exchange's order id where one is
/// given, else /orders/client: and the client's.
pub proof fn law_coinbase_cancel_names_the_order(client: CoinbaseClient, req: CancelOrderRequest, r: HttpRequest)
    requires
        client.cancel_order_http_request(req, r),
    ensures
        r.method == HttpMethod::Delete,
        req.order_id@.len() != 0 ==> r.path@ == "/orders/"@ + req.order_id@,
        req.order_id@.len() == 0 ==> r.path@ == "/orders/"@ + ("client:"@ + req.client_order_id@),
{
}

/// An HTX spot cancellation posts to /v1/order/orders/ the exchange's order id and
/// /submitcancel where one is given, else the client's as "client-order-id" to
/// /v1/order/orders/submitCancelClientOrder.
pub proof fn law_htx_spot_cancel_names_the_order(client: HtxSpotClient, req: CancelOrderRequest, r: HttpRequest)
    requires
        client.cancel_order_http_request(req, r),
    ensures
        r.method == HttpMethod::Post,
        req.order_id@.len() != 0 ==> r.path@ == "/v1/order/orders/"@ + req.order_id@ + "/submitcancel"@,
        req.order_id@.len() == 0 ==> r.path@ == "/v1/order/orders/submitCancelClientOrder"@ && has_json_body(
            r,
            seq![("client-order-id"@, req.client_order_id@)],
        ),
{
}

/// A Gate.io cancellation deletes the order by the exchange's id where one is given,
/// else by the client's: under /api/v4/spot/orders/ for spot, and under the settle
/// currency's /orders/ for futures.
pub proof fn law_gateio_cancel_names_the_order(
    spot: GateioSpotAndMarginClient,
    futures: GateioPerpetualFuturesClient,
    req: CancelOrderRequest,
    r: HttpRequest,
    f: HttpRequest,
)
    requires
        spot.cancel_order_http_request(req, r),
        futures.cancel_order_http_request(req, f),
    ensures
        r.method == HttpMethod::Delete,
        f.method == HttpMethod::Delete,
        req.order_id@.len() != 0 ==> r.path@ == "/api/v4/spot/orders/"@ + req.order_id@,
        req.order_id@.len() == 0 ==> r.path@ == "/api/v4/spot/orders/"@ + req.client_order_id@,
        req.order_id@.len() != 0 ==> f.path@ == "/api/v4/futures/"@ + futures.settle@ + ("/orders/"@ + req.order_id@),
        req.order_id@.len() == 0 ==> f.path@ == "/api/v4/futures/"@ + futures.settle@ + ("/orders/"@
            + req.client_order_id@),
{
}

/// The parameters carry the value under the name.
pub open spec fn carries(pairs: Seq<(Seq<char>, Seq<char>)>, name: Seq<char>, value: Seq<char>) -> bool {
    pairs.contains((name, value))
}

/// A Binance USD-M order is a POST of /fapi/v1/order whose query carries the symbol, the
/// side, the type and the quantity; a limit order also the price and "timeInForce"
/// "GTC"; a client order id, where one is given, as "newClientOrderId".
pub proof fn law_binance_usds_order_carries_the_request(
    client: BinanceUsdsMarginedFuturesClient,
    req: PlaceOrderRequest,
    r: HttpRequest,
)
    requires
        client.place_order_http_request(req, r),
    ensures
        r.method == HttpMethod::Post,
        r.path@ == "/fapi/v1/order"@,
        r.query_params matches Some(p) && {
            let q = pair_views(p@);
            &&& carries(q, "symbol"@, req.symbol@)
            &&& carries(q, "side"@, binance_side_text(req.side))
            &&& carries(q, "type"@, binance_order_type_text(req.order_type))
            &&& carries(q, "quantity"@, req.quantity@)
            &&& req.order_type == OrderType::Limit ==> carries(q, "price"@, req.price@) && carries(q, "timeInForce"@, "GTC"@)
            &&& req.client_order_id@.len() != 0 ==> carries(q, "newClientOrderId"@, req.client_order_id@)
        },
{
    broadcast use vstd::seq_lib::lemma_seq_contains_after_push;
    let q = place_order_pairs(req);
    assert(q.contains(("symbol"@, req.symbol@)));
}

/// A Bybit order posts to /v5/order/create the category, the type, the quantity as
/// "qty", the side and the symbol; a limit order also the price; a client order id as
/// "orderLinkId".
pub proof fn law_bybit_order_carries_the_request(client: BybitClient, req: PlaceOrderRequest, r: HttpRequest)
    requires
        client.place_order_http_request(req, r),
    ensures
        r.method == HttpMethod::Post,
        r.path@ == "/v5/order/create"@,
        ({
            let m = bybit_place_order_members(client.category@, req);
            &&& has_json_body(r, m)
            &&& carries(m, "category"@, client.category@)
            &&& carries(m, "orderType"@, bybit_order_type_text(req.order_type))
            &&& carries(m, "qty"@, req.quantity@)
            &&& carries(m, "side"@, bybit_side_text(req.side))
            &&& carries(m, "symbol"@, req.symbol@)
            &&& req.order_type == OrderType::Limit ==> carries(m, "price"@, req.price@)
            &&& req.client_order_id@.len() != 0 ==> carries(m, "orderLinkId"@, req.client_order_id@)
        }),
{
    broadcast use vstd::seq_lib::lemma_seq_contains_after_push;
    let m = bybit_place_order_members(client.category@, req);
    assert(m.contains(("category"@, client.category@)));
}

/// A Bitget order posts the category, the type, the quantity as "qty", the side and the
/// symbol; a limit order also the price; a client order id as "clientOid".
pub proof fn law_bitget_order_carries_the_request(client: BitgetClient, req: PlaceOrderRequest, r: HttpRequest)
    requires
        client.place_order_http_request(req, r),
    ensures
        r.method == HttpMethod::Post,
        r.path@ == "/api/v3/trade/place-order"@,
        ({
            let m = place_order_members(client.category@, req);
            &&& has_json_body(r, m)
            &&& carries(m, "category"@, client.category@)
            &&& carries(m, "orderType"@, bitget_order_type_text(req.order_type))
            &&& carries(m, "qty"@, req.quantity@)
            &&& carries(m, "side"@, bitget_side_text(req.side))
            &&& carries(m, "symbol"@, req.symbol@)
            &&& req.order_type == OrderType::Limit ==> carries(m, "price"@, req.price@)
            &&& req.client_order_id@.len() != 0 ==> carries(m, "clientOid"@, req.client_order_id@)
        }),
{
    broadcast use vstd::seq_lib::lemma_seq_contains_after_push;
    let m = place_order_members(client.category@, req);
    assert(m.contains(("category"@, client.category@)));
}

/// A Coinbase order posts to /orders the symbol as "product_id", the side, the quantity
/// as "size" and the type; a limit order also the price; a client order id as
/// "client_oid".
pub proof fn law_coinbase_order_carries_the_request(client: CoinbaseClient, req: PlaceOrderRequest, r: HttpRequest)
    requires
        client.place_order_http_request(req, r),
    ensures
        r.method == HttpMethod::Post,
        r.path@ == "/orders"@,
        ({
            let m = coinbase_place_order_members(req);
            &&& has_json_body(r, m)
            &&& carries(m, "product_id"@, req.symbol@)
            &&& carries(m, "side"@, coinbase_side_text(req.side))
            &&& carries(m, "size"@, req.quantity@)
            &&& carries(m, "type"@, coinbase_order_type_text(req.order_type))
            &&& req.order_type == OrderType::Limit ==> carries(m, "price"@, req.price@)
            &&& req.client_order_id@.len() != 0 ==> carries(m, "client_oid"@, req.client_order_id@)
        }),
{
    broadcast use vstd::seq_lib::lemma_seq_contains_after_push;
}

/// A Gate.io spot order posts to /api/v4/spot/orders the account, the quantity as
/// "amount", the symbol as "currency_pair", the side, the time in force ("gtc" for a
/// limit order, "ioc" for a market one) and the type; a limit order also the price; a
/// client order id as "text".
pub proof fn law_gateio_spot_order_carries_the_request(client: GateioSpotAndMarginClient, req: PlaceOrderRequest, r: HttpRequest)
    requires
        client.place_order_http_request(req, r),
    ensures
        r.method == HttpMethod::Post,
        r.path@ == "/api/v4/spot/orders"@,
        ({
            let m = gate_spot_place_order_members(req, client.account@);
            &&& has_json_body(r, m)
            &&& carries(m, "account"@, client.account@)
            &&& carries(m, "amount"@, req.quantity@)
            &&& carries(m, "currency_pair"@, req.symbol@)
            &&& carries(m, "side"@, gate_spot_side_text(req.side))
            &&& carries(m, "type"@, gate_spot_order_type_text(req.order_type))
            &&& carries(m, "time_in_force"@, if req.order_type == OrderType::Limit { "gtc"@ } else { "ioc"@ })
            &&& req.order_type == OrderType::Limit ==> carries(m, "price"@, req.price@)
            &&& req.client_order_id@.len() != 0 ==> carries(m, "text"@, req.client_order_id@)
        }),
{
    broadcast use vstd::seq_lib::lemma_seq_contains_after_push;
    let m = gate_spot_place_order_members(req, client.account@);
    assert(m.contains(("account"@, client.account@)));
}

/// An HTX spot order posts to /v1/order/orders/place the account as "account-id", the
/// quantity as "amount", the symbol, and the side and type as one "type"; a limit order
/// also the price; a client order id as "client-order-id".
pub proof fn law_htx_spot_order_carries_the_request(client: HtxSpotClient, req: PlaceOrderRequest, r: HttpRequest)
    requires
        client.place_order_http_request(req, r),
    ensures
        r.method == HttpMethod::Post,
        r.path@ == "/v1/order/orders/place"@,
        ({
            let m = htx_place_order_members(req, client.account_id@);
            &&& has_json_body(r, m)
            &&& carries(m, "account-id"@, client.account_id@)
            &&& carries(m, "amount"@, req.quantity@)
            &&& carries(m, "symbol"@, req.symbol@)
            &&& carries(m, "type"@, htx_side_type_text(req.side, req.order_type))
            &&& req.order_type == OrderType::Limit ==> carries(m, "price"@, req.price@)
            &&& req.client_order_id@.len() != 0 ==> carries(m, "client-order-id"@, req.client_order_id@)
        }),
{
    broadcast use vstd::seq_lib::lemma_seq_contains_after_push;
    let m = htx_place_order_members(req, client.account_id@);
    assert(m.contains(("account-id"@, client.account_id@)));
    assert(m.contains(("amount"@, req.quantity@)));
}

/// A Bitstamp order posts to /api/v2/ the side, then "/market/" for a market order, then
/// the symbol; its form carries the quantity as "amount"; a limit order also the price; a
/// client order id as "client_order_id".
pub proof fn law_bitstamp_order_carries_the_request(client: BitstampClient, req: PlaceOrderRequest, r: HttpRequest)
    requires
        client.place_order_http_request(req, r),
    ensures
        r.method == HttpMethod::Post,
        req.order_type == OrderType::Limit ==> r.path@ == "/api/v2/"@ + side_text(req.side) + "/"@ + req.symbol@ + "/"@,
        req.order_type != OrderType::Limit ==> r.path@ == "/api/v2/"@ + side_text(req.side) + "/market/"@ + req.symbol@
            + "/"@,
        ({
            let f = crate::exchanges::bitstamp::rest::place_order_pairs(req);
            &&& r.payload matches Some(p) && p@ == form_text(f)
            &&& carries(f, "amount"@, req.quantity@)
            &&& req.order_type == OrderType::Limit ==> carries(f, "price"@, req.price@)
            &&& req.client_order_id@.len() != 0 ==> carries(f, "client_order_id"@, req.client_order_id@)
        }),
{
    broadcast use vstd::seq_lib::lemma_seq_contains_after_push;
    let f = crate::exchanges::bitstamp::rest::place_order_pairs(req);
    assert(f.contains(("amount"@, req.quantity@)));
}

/// The best bid and ask of a symbol are asked for with a GET: of
/// /fapi/v1/ticker/bookTicker with the "symbol" on Binance USD-M, of
/// /v5/market/tickers or /api/v3/market/tickers with the "category" and the "symbol" on
/// Bybit and Bitget.
pub proof fn law_top_of_book_requests(
    binance: BinanceUsdsMarginedFuturesClient,
    bybit: BybitClient,
    bitget: BitgetClient,
    req: GetTopOfBookRequest,
    a: HttpRequest,
    b: HttpRequest,
    c: HttpRequest,
)
    requires
        binance.top_of_book_http_request(req, a),
        bybit.top_of_book_http_request(req, b),
        bitget.top_of_book_http_request(req, c),
    ensures
        a.method == HttpMethod::Get && a.path@ == "/fapi/v1/ticker/bookTicker"@ && has_query(a, seq![("symbol"@, req.symbol@)]),
        b.method == HttpMethod::Get && b.path@ == "/v5/market/tickers"@ && has_query(
            b,
            seq![("category"@, bybit.category@), ("symbol"@, req.symbol@)],
        ),
        c.method == HttpMethod::Get && c.path@ == "/api/v3/market/tickers"@ && has_query(
            c,
            seq![("category"@, bitget.category@), ("symbol"@, req.symbol@)],
        ),
{
}

/// On Gate.io the best bid and ask are asked for with a GET of /api/v4/spot/tickers with
/// the "currency_pair" (spot) or of the settle currency's /tickers with the "contract"
/// (futures); on HTX spot, of /market/detail/merged with the "symbol".
pub proof fn law_top_of_book_requests_gateio_htx(
    spot: GateioSpotAndMarginClient,
    futures: GateioPerpetualFuturesClient,
    htx: HtxSpotClient,
    req: GetTopOfBookRequest,
    a: HttpRequest,
    b: HttpRequest,
    c: HttpRequest,
)
    requires
        spot.top_of_book_http_request(req, a),
        futures.top_of_book_http_request(req, b),
        htx.top_of_book_http_request(req, c),
        req.symbol@.len() != 0,
    ensures
        a.method == HttpMethod::Get && a.path@ == "/api/v4/spot/tickers"@ && has_query(
            a,
            seq![("currency_pair"@, req.symbol@)],
        ),
        b.method == HttpMethod::Get && b.path@ == "/api/v4/futures/"@ + futures.settle@ + "/tickers"@ && has_query(
            b,
            seq![("contract"@, req.symbol@)],
        ),
        c.method == HttpMethod::Get && c.path@ == "/market/detail/merged"@ && has_query(c, seq![("symbol"@, req.symbol@)]),
{
}

} // verus!
