//! What an instrument, an order, a balance or a position read from an exchange says of
//! the document it came from: which members give the assets, the increments and limits,
//! the ids, the price, the quantities and the status.

use vstd::prelude::*;
use crate::exchanges::binance_usds_margined_futures::common::{
    binance_balance_matches, binance_position_matches, binance_rest_order_matches, binance_status_of,
};
use crate::exchanges::bitget::common::{bitget_balance_matches, bitget_order_matches, bitget_position_matches};
use crate::exchanges::bitstamp::common::bitstamp_order_matches;
use crate::exchanges::bitstamp::rest::{bitstamp_balance_matches, bitstamp_position_matches};
use crate::exchanges::bybit::common::{bybit_balance_matches, bybit_order_matches, bybit_position_matches, bybit_status_of};
use crate::exchanges::coinbase::common::{coinbase_balance_matches, coinbase_order_matches, coinbase_status_of};
use crate::exchanges::gateio_spot_and_margin::common::{gate_spot_balance_matches, gate_spot_order_matches};
use crate::exchanges::htx_spot::common::{htx_balance_matches, htx_order_matches};
use crate::exchanges::kalshi::common::{kalshi_balance_matches, kalshi_order_matches, kalshi_status_of};
use crate::json::{field_str, spec_as_i64, spec_at, str_or, JsonValue};
use crate::exchanges::binance_usds_margined_futures::rest::{binance_instrument_matches, filter_str};
use crate::exchanges::bybit::rest::{bybit_instrument_matches, nested_str};
use crate::exchanges::coinbase::rest::coinbase_instrument_matches;
use crate::exchanges::gateio_spot_and_margin::common::gate_spot_instrument_matches;
use crate::types::InstrumentInfo;
use crate::exchange_client::common::Response;
use crate::exchanges::binance_usds_margined_futures::common::BinanceUsdsMarginedFuturesClient;
use crate::exchanges::bitget::common::BitgetClient;
use crate::exchanges::bybit::common::BybitClient;
use crate::exchanges::coinbase::common::CoinbaseClient;
use crate::exchanges::gateio_perpetual_futures::common::{number_or_str_text, GateioPerpetualFuturesClient};
use crate::exchanges::gateio_spot_and_margin::common::GateioSpotAndMarginClient;
use crate::json::{spec_get, str_or_u64_text};
use crate::networking::http::HttpResponse;
use crate::text::int_text;
use crate::types::{
    Balance, BitgetInstrumentType, BybitInstrumentType, GateioSpotAndMarginInstrumentType, Order, OrderStatus, Position,
};

verus! {

/// A Bybit order's ids are its "orderId" and "orderLinkId", its price and quantity its
/// "price" and "qty", what is left of it "leavesQty"; a balance is the "walletBalance" of
/// a "coin"; a position's quantity and entry price are its "size" and "avgPrice".
pub proof fn law_bybit_documents(o: Order, v: JsonValue, t: BybitInstrumentType, b: Balance, w: JsonValue, p: Position, x: JsonValue)
    requires
        bybit_order_matches(o, v, t),
        bybit_balance_matches(b, w),
        bybit_position_matches(p, x, t),
    ensures
        o.order_id@ == field_str(v, "orderId"@),
        o.client_order_id@ == field_str(v, "orderLinkId"@),
        o.price@ == field_str(v, "price"@),
        o.quantity@ == field_str(v, "qty"@),
        o.remaining_quantity@ == field_str(v, "leavesQty"@),
        o.cumulative_filled_quantity@ == field_str(v, "cumExecQty"@),
        b.asset@ == field_str(w, "coin"@),
        b.quantity@ == field_str(w, "walletBalance"@),
        p.quantity@ == field_str(x, "size"@),
        p.entry_price@ == field_str(x, "avgPrice"@),
{
}

/// Bybit's "New" order is placed, "PartiallyFilled" partly filled, "Filled" filled,
/// "Cancelled" cancelled and "Rejected" rejected.
pub proof fn law_bybit_statuses()
    ensures
        bybit_status_of("New"@) == OrderStatus::Placed,
        bybit_status_of("PartiallyFilled"@) == OrderStatus::PartiallyFilled,
        bybit_status_of("Filled"@) == OrderStatus::Filled,
        bybit_status_of("Cancelled"@) == OrderStatus::Canceled,
        bybit_status_of("Rejected"@) == OrderStatus::Rejected,
{
    reveal_strlit("New");
    reveal_strlit("PartiallyFilled");
    reveal_strlit("Rejected");
    reveal_strlit("PartiallyFilledCanceled");
    reveal_strlit("Filled");
    reveal_strlit("Cancelled");
    assert("PartiallyFilled"@.len() != "New"@.len());
    assert("Rejected"@.len() != "New"@.len() && "Rejected"@.len() != "PartiallyFilled"@.len());
    assert("Filled"@.len() != "New"@.len() && "Filled"@.len() != "PartiallyFilled"@.len() && "Filled"@.len() != "Rejected"@.len()
        && "Filled"@.len() != "PartiallyFilledCanceled"@.len());
    assert("Cancelled"@.len() != "New"@.len() && "Cancelled"@.len() != "PartiallyFilled"@.len() && "Cancelled"@.len()
        != "Rejected"@.len() && "Cancelled"@.len() != "PartiallyFilledCanceled"@.len() && "Cancelled"@.len()
        != "Filled"@.len());
}

/// A Bitget order's ids are its "orderId" and "clientOid", its price and quantity its
/// "price" and "qty"; a balance is the "available" amount of a "coin"; a position's
/// quantity and entry price are its "total" and "avgPrice".
pub proof fn law_bitget_documents(o: Order, v: JsonValue, t: BitgetInstrumentType, b: Balance, w: JsonValue, p: Position, x: JsonValue)
    requires
        bitget_order_matches(o, v, t),
        bitget_balance_matches(b, w),
        bitget_position_matches(p, x, t),
    ensures
        o.order_id@ == field_str(v, "orderId"@),
        o.client_order_id@ == field_str(v, "clientOid"@),
        o.price@ == field_str(v, "price"@),
        o.quantity@ == str_or(spec_at(v, "qty"@), "0"@),
        b.asset@ == field_str(w, "coin"@),
        b.quantity@ == field_str(w, "available"@),
        p.quantity@ == field_str(x, "total"@),
        p.entry_price@ == field_str(x, "avgPrice"@),
{
}

/// A Binance USD-M order's id is its numeric "orderId" written out, its client id its
/// "clientOrderId", its price and quantity its "price" and "origQty"; a balance is the
/// "balance" of an "asset"; a position's entry price is its "entryPrice".
pub proof fn law_binance_usds_documents(o: Order, v: JsonValue, b: Balance, w: JsonValue, p: Position, x: JsonValue)
    requires
        binance_rest_order_matches(o, v),
        binance_balance_matches(b, w),
        binance_position_matches(p, x),
    ensures
        o.order_id@ == int_text(spec_as_i64(spec_at(v, "orderId"@))->0 as int),
        o.client_order_id@ == field_str(v, "clientOrderId"@),
        o.price@ == field_str(v, "price"@),
        o.quantity@ == field_str(v, "origQty"@),
        o.cumulative_filled_quantity@ == field_str(v, "executedQty"@),
        b.asset@ == field_str(w, "asset"@),
        b.quantity@ == field_str(w, "balance"@),
        p.entry_price@ == field_str(x, "entryPrice"@),
{
}

/// Binance's "NEW" order is placed, "PARTIALLY_FILLED" partly filled, "FILLED" filled,
/// "CANCELED" cancelled, "REJECTED" rejected and "EXPIRED" expired.
pub proof fn law_binance_statuses()
    ensures
        binance_status_of("NEW"@) == OrderStatus::Placed,
        binance_status_of("PARTIALLY_FILLED"@) == OrderStatus::PartiallyFilled,
        binance_status_of("FILLED"@) == OrderStatus::Filled,
        binance_status_of("CANCELED"@) == OrderStatus::Canceled,
        binance_status_of("REJECTED"@) == OrderStatus::Rejected,
        binance_status_of("EXPIRED"@) == OrderStatus::Expired,
{
    reveal_strlit("NEW");
    reveal_strlit("PARTIALLY_FILLED");
    reveal_strlit("FILLED");
    reveal_strlit("CANCELED");
    reveal_strlit("PENDING_CANCEL");
    reveal_strlit("REJECTED");
    reveal_strlit("EXPIRED");
    assert("PARTIALLY_FILLED"@.len() != "NEW"@.len());
    assert("FILLED"@.len() != "NEW"@.len() && "FILLED"@.len() != "PARTIALLY_FILLED"@.len());
    assert("CANCELED"@.len() != "NEW"@.len() && "CANCELED"@.len() != "PARTIALLY_FILLED"@.len() && "CANCELED"@.len()
        != "FILLED"@.len());
    assert("REJECTED"@ != "CANCELED"@ && "REJECTED"@ != "PENDING_CANCEL"@) by {
        assert("REJECTED"@[0] != "CANCELED"@[0]);
        assert("REJECTED"@.len() != "PENDING_CANCEL"@.len());
    }
    assert("REJECTED"@.len() != "NEW"@.len() && "REJECTED"@.len() != "PARTIALLY_FILLED"@.len() && "REJECTED"@.len()
        != "FILLED"@.len());
    assert("EXPIRED"@.len() != "NEW"@.len() && "EXPIRED"@.len() != "PARTIALLY_FILLED"@.len() && "EXPIRED"@.len()
        != "FILLED"@.len() && "EXPIRED"@.len() != "CANCELED"@.len() && "EXPIRED"@.len() != "PENDING_CANCEL"@.len()
        && "EXPIRED"@.len() != "REJECTED"@.len());
}

/// A Kalshi order's ids are its "order_id" and "client_order_id", its price the "yes"
/// price in dollars, its quantity the initial count; "resting" is open, "executed" filled
/// and "canceled" cancelled; the balance is the USD "balance_dollars".
pub proof fn law_kalshi_documents(o: Order, v: JsonValue, b: Balance, w: JsonValue)
    requires
        kalshi_order_matches(o, v),
        kalshi_balance_matches(b, w),
    ensures
        o.order_id@ == field_str(v, "order_id"@),
        o.client_order_id@ == field_str(v, "client_order_id"@),
        o.price@ == field_str(v, "yes_price_dollars"@),
        o.quantity@ == field_str(v, "initial_count_fp"@),
        o.remaining_quantity@ == field_str(v, "remaining_count_fp"@),
        b.asset@ == "USD"@,
        b.quantity@ == str_or(spec_at(w, "balance_dollars"@), "0"@),
        kalshi_status_of("resting"@) == OrderStatus::Open,
        kalshi_status_of("executed"@) == OrderStatus::Filled,
        kalshi_status_of("canceled"@) == OrderStatus::Canceled,
{
    reveal_strlit("resting");
    reveal_strlit("executed");
    reveal_strlit("canceled");
    assert("executed"@[0] != "resting"@[0]);
    assert("canceled"@[0] != "resting"@[0] && "canceled"@[0] != "executed"@[0]);
}

/// A Coinbase order's ids are its "id" and "client_oid", its price and quantity its
/// "price" and "size"; "open" is placed, "done" filled and "rejected" rejected; a balance
/// is the "balance" of a "currency".
pub proof fn law_coinbase_documents(o: Order, v: JsonValue, b: Balance, w: JsonValue)
    requires
        coinbase_order_matches(o, v),
        coinbase_balance_matches(b, w),
    ensures
        o.order_id@ == field_str(v, "id"@),
        o.client_order_id@ == field_str(v, "client_oid"@),
        o.price@ == field_str(v, "price"@),
        o.quantity@ == field_str(v, "size"@),
        o.cumulative_filled_quantity@ == field_str(v, "filled_size"@),
        b.asset@ == field_str(w, "currency"@),
        b.quantity@ == field_str(w, "balance"@),
        coinbase_status_of("open"@) == OrderStatus::Placed,
        coinbase_status_of("done"@) == OrderStatus::Filled,
        coinbase_status_of("rejected"@) == OrderStatus::Rejected,
{
    reveal_strlit("open");
    reveal_strlit("pending");
    reveal_strlit("received");
    reveal_strlit("active");
    reveal_strlit("done");
    reveal_strlit("rejected");
    assert("done"@[0] != "open"@[0] && "done"@[0] != "pending"@[0] && "done"@[0] != "received"@[0] && "done"@[0]
        != "active"@[0]);
    assert("rejected"@ != "received"@) by {
        assert("rejected"@[2] != "received"@[2]);
    }
    assert("rejected"@[0] != "open"@[0] && "rejected"@[0] != "pending"@[0] && "rejected"@[0] != "active"@[0]
        && "rejected"@[0] != "done"@[0]);
}

/// An HTX spot order's client id is its "client-order-id", its price and quantity its
/// "price" and "amount"; a balance is the "balance" of a "currency".
pub proof fn law_htx_spot_documents(o: Order, v: JsonValue, b: Balance, w: JsonValue)
    requires
        htx_order_matches(o, v),
        htx_balance_matches(b, w),
    ensures
        o.client_order_id@ == field_str(v, "client-order-id"@),
        o.price@ == field_str(v, "price"@),
        o.quantity@ == field_str(v, "amount"@),
        b.asset@ == field_str(w, "currency"@),
        b.quantity@ == field_str(w, "balance"@),
{
}

/// A Gate.io spot order's ids are its "id" and "text", its price and quantity its
/// "price" and "amount", what is left "left"; a balance is the "available" amount of a
/// "currency".
pub proof fn law_gateio_spot_documents(
    o: Order,
    v: JsonValue,
    t: GateioSpotAndMarginInstrumentType,
    b: Balance,
    w: JsonValue,
)
    requires
        gate_spot_order_matches(o, v, t),
        gate_spot_balance_matches(b, w),
    ensures
        o.order_id@ == field_str(v, "id"@),
        o.client_order_id@ == field_str(v, "text"@),
        o.price@ == field_str(v, "price"@),
        o.quantity@ == field_str(v, "amount"@),
        o.remaining_quantity@ == field_str(v, "left"@),
        b.asset@ == field_str(w, "currency"@),
        b.quantity@ == field_str(w, "available"@),
{
}

/// A Bitstamp open order's client id is its "client_order_id" and its price its
/// "price"; a balance is the "total" of a "currency"; a position's entry price is its
/// "entry_price".
pub proof fn law_bitstamp_documents(o: Order, v: JsonValue, b: Balance, w: JsonValue, p: Position, x: JsonValue)
    requires
        bitstamp_order_matches(o, v),
        bitstamp_balance_matches(b, w),
        bitstamp_position_matches(p, x),
    ensures
        o.client_order_id@ == field_str(v, "client_order_id"@),
        o.price@ == field_str(v, "price"@),
        o.remaining_quantity@ == field_str(v, "amount"@),
        o.status == OrderStatus::Open,
        b.asset@ == field_str(w, "currency"@),
        b.quantity@ == field_str(w, "total"@),
        p.entry_price@ == field_str(x, "entry_price"@),
{
}

/// A Bybit instrument's assets are its "baseCoin" and "quoteCoin", its price increment
/// the "tickSize" of its "priceFilter", its quantity limits the "minOrderQty" and
/// "maxOrderQty" of its "lotSizeFilter".
pub proof fn law_bybit_instrument(info: InstrumentInfo, v: JsonValue, t: BybitInstrumentType)
    requires
        bybit_instrument_matches(info, v, t),
    ensures
        info.base_asset@ == field_str(v, "baseCoin"@),
        info.quote_asset@ == field_str(v, "quoteCoin"@),
        info.order_price_increment@ == nested_str(v, "priceFilter"@, "tickSize"@),
        info.order_quantity_min@ == nested_str(v, "lotSizeFilter"@, "minOrderQty"@),
        info.order_quantity_max@ == nested_str(v, "lotSizeFilter"@, "maxOrderQty"@),
{
}

/// A Binance USD-M instrument's assets are its "baseAsset", "quoteAsset" and
/// "marginAsset"; its price increment is the "tickSize" of its "PRICE_FILTER", its
/// quantity increment and limits the "stepSize", "minQty" and "maxQty" of its "LOT_SIZE".
pub proof fn law_binance_usds_instrument(info: InstrumentInfo, item: JsonValue)
    requires
        binance_instrument_matches(info, item),
    ensures
        info.base_asset@ == field_str(item, "baseAsset"@),
        info.quote_asset@ == field_str(item, "quoteAsset"@),
        info.settle_asset@ == field_str(item, "marginAsset"@),
        info.order_price_increment@ == filter_str(item, "PRICE_FILTER"@, "tickSize"@),
        info.order_quantity_increment@ == filter_str(item, "LOT_SIZE"@, "stepSize"@),
        info.order_quantity_min@ == filter_str(item, "LOT_SIZE"@, "minQty"@),
        info.order_quantity_max@ == filter_str(item, "LOT_SIZE"@, "maxQty"@),
{
}

/// A Coinbase product's assets are its "base_currency" and "quote_currency", its price
/// increment its "quote_increment" and its quantity increment its "base_increment".
pub proof fn law_coinbase_instrument(info: InstrumentInfo, v: JsonValue)
    requires
        coinbase_instrument_matches(info, v),
    ensures
        info.base_asset@ == field_str(v, "base_currency"@),
        info.quote_asset@ == field_str(v, "quote_currency"@),
        info.order_price_increment@ == field_str(v, "quote_increment"@),
        info.order_quantity_increment@ == field_str(v, "base_increment"@),
{
}

/// A Gate.io spot pair's assets are its "base" and "quote", its quantity limits its
/// "min_base_amount" and "max_base_amount", its quote limits its "min_quote_amount" and
/// "max_quote_amount".
pub proof fn law_gateio_spot_instrument(info: InstrumentInfo, v: JsonValue, t: GateioSpotAndMarginInstrumentType)
    requires
        gate_spot_instrument_matches(info, v, t),
    ensures
        info.base_asset@ == field_str(v, "base"@),
        info.quote_asset@ == field_str(v, "quote"@),
        info.order_quantity_min@ == field_str(v, "min_base_amount"@),
        info.order_quantity_max@ == field_str(v, "max_base_amount"@),
        info.order_quote_quantity_min@ == field_str(v, "min_quote_amount"@),
        info.order_quote_quantity_max@ == field_str(v, "max_quote_amount"@),
{
}

/// The id of a placed order is the exchange's: Bybit's "orderId" under "result",
/// Binance's numeric "orderId" written out, Bitget's "orderId" under "data".
pub proof fn law_placed_order_ids(
    bybit: BybitClient,
    binance: BinanceUsdsMarginedFuturesClient,
    bitget: BitgetClient,
    resp: HttpResponse,
    a: Response,
    b: Response,
    c: Response,
)
    requires
        bybit.place_order_response(resp, a),
        binance.place_order_response(resp, b),
        bitget.place_order_response(resp, c),
    ensures
        a matches Response::PlaceOrder(p) && p.order_id@ == field_str(spec_at(resp.json_payload->0, "result"@), "orderId"@),
        b matches Response::PlaceOrder(p) && p.order_id@ == int_text(
            spec_as_i64(spec_at(resp.json_payload->0, "orderId"@))->0 as int,
        ),
        c matches Response::PlaceOrder(p) && p.order_id@ == field_str(spec_at(resp.json_payload->0, "data"@), "orderId"@),
{
}

/// The id of an order placed on Coinbase, Gate.io (spot and futures) or Bitstamp is the
/// response's "id".
pub proof fn law_placed_order_ids_by_id(
    coinbase: CoinbaseClient,
    gate_spot: GateioSpotAndMarginClient,
    gate_futures: GateioPerpetualFuturesClient,
    resp: HttpResponse,
    a: Response,
    b: Response,
    c: Response,
    d: Response,
)
    requires
        coinbase.place_order_response(resp, a),
        gate_spot.place_order_response(resp, b),
        gate_futures.place_order_response(resp, c),
        crate::exchanges::bitstamp::rest::place_order_response(resp, d),
    ensures
        a matches Response::PlaceOrder(p) && p.order_id@ == field_str(resp.json_payload->0, "id"@),
        b matches Response::PlaceOrder(p) && p.order_id@ == field_str(resp.json_payload->0, "id"@),
        c matches Response::PlaceOrder(p) && p.order_id@ == number_or_str_text(spec_get(resp.json_payload->0, "id"@), Seq::empty()),
        d matches Response::PlaceOrder(p) && p.order_id@ == str_or_u64_text(spec_at(resp.json_payload->0, "id"@)),
{
}

} // verus!
