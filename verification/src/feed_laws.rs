//! What the decoded market data says of the message it came from: which members give
//! the best bid and the best ask, and which side took a trade or made a fill.

use vstd::prelude::*;
use crate::exchanges::bitget::rest::bitget_ticker_matches;
use crate::exchanges::bitget::websocket::{
    best_level, bitget_book_matches, bitget_fill_side_of, bitget_trade_matches,
};
use crate::exchanges::bitstamp::rest::bitstamp_ticker_matches;
use crate::exchanges::bitstamp::websocket::{fill_side_of, taker_side_of};
use crate::exchanges::bybit::rest::bybit_ticker_matches;
use crate::exchanges::bybit::websocket::{bybit_book_matches, bybit_fill_matches, bybit_trade_matches, level_str};
use crate::exchanges::coinbase::rest::{coinbase_book_matches, index_at, index_str};
use crate::exchanges::coinbase::websocket::{coinbase_ticker_matches, coinbase_trade_matches};
use crate::exchanges::gateio_perpetual_futures::rest::gate_ticker_matches;
use crate::exchanges::gateio_perpetual_futures::websocket::{gate_book_matches, gate_trade_matches, trade_size};
use crate::exchanges::gateio_spot_and_margin::rest::gate_spot_ticker_matches;
use crate::exchanges::htx_spot::rest::{htx_float_text, htx_ticker_matches};
use crate::exchanges::htx_spot::websocket::htx_trade_matches;
use crate::exchanges::hyperliquid::websocket::{hl_order_side_of, hl_trade_matches};
use crate::exchanges::kalshi::rest::kalshi_book_matches;
use crate::exchange_client::common::Response;
use crate::exchanges::binance_spot::common::BinanceSpotClient;
use crate::exchanges::binance_usds_margined_futures::common::BinanceUsdsMarginedFuturesClient;
use crate::exchanges::binance_usds_margined_futures::websocket::data_of;
use crate::exchanges::bitstamp::common::BitstampClient;
use crate::exchanges::bitstamp::websocket::level_text;
use crate::exchanges::htx_spot::common::{htx_number_text, HtxSpotClient};
use crate::exchanges::htx_usdt_margined_futures::common::HtxUsdtMarginedFuturesClient;
use crate::exchanges::htx_usdt_margined_futures::websocket::number_text_at;
use crate::exchanges::hyperliquid::common::HyperliquidClient;
use crate::exchanges::hyperliquid::websocket::hl_data;
use crate::json::{
    field_str, member_text_or_empty, spec_as_array, spec_as_bool, spec_as_i64, spec_as_str, spec_at, spec_get, JsonValue,
};
use crate::networking::websocket::WebSocketText;
use crate::types::{
    BitgetInstrumentType, BybitInstrumentType, ExchangeInstrumentType, Fill, GateioSpotAndMarginInstrumentType,
    OrderSide, TakerSide, Timestamp, TopOfBook, Trade,
};

verus! {

/// A Bybit ticker's best bid is its "bid1Price" and "bid1Size", its best ask its
/// "ask1Price" and "ask1Size".
pub proof fn law_bybit_ticker_bid_and_ask(b: TopOfBook, v: JsonValue, millis: int, t: BybitInstrumentType)
    requires
        bybit_ticker_matches(b, v, millis, t),
    ensures
        b.bid_price@ == field_str(v, "bid1Price"@),
        b.bid_size@ == field_str(v, "bid1Size"@),
        b.ask_price@ == field_str(v, "ask1Price"@),
        b.ask_size@ == field_str(v, "ask1Size"@),
{
}

/// A Bybit book update's best bid is the first level of "b", its best ask the first
/// level of "a": price first, then size.
pub proof fn law_bybit_book_bid_and_ask(b: TopOfBook, j: JsonValue, t: BybitInstrumentType)
    requires
        bybit_book_matches(b, j, t),
    ensures
        b.bid_price@ == level_str(spec_at(j, "data"@), "b"@, 0)->0,
        b.bid_size@ == level_str(spec_at(j, "data"@), "b"@, 1)->0,
        b.ask_price@ == level_str(spec_at(j, "data"@), "a"@, 0)->0,
        b.ask_size@ == level_str(spec_at(j, "data"@), "a"@, 1)->0,
{
}

/// A Bybit fill made by a buy order has "side" "Buy", one made by a sell order "Sell".
pub proof fn law_bybit_fill_side(f: Fill, v: JsonValue, t: BybitInstrumentType)
    requires
        bybit_fill_matches(f, v, t),
    ensures
        spec_as_str(spec_at(v, "side"@)) == Some("Buy"@) ==> f.side == OrderSide::Buy,
        spec_as_str(spec_at(v, "side"@)) == Some("Sell"@) ==> f.side == OrderSide::Sell,
{
    reveal_strlit("Buy");
    reveal_strlit("Sell");
    assert("Buy"@.len() != "Sell"@.len());
}

/// A Bybit trade's price and size are its "p" and "v".
pub proof fn law_bybit_trade_price_and_size(r: Trade, v: JsonValue, symbol: Seq<char>, t: BybitInstrumentType)
    requires
        bybit_trade_matches(r, v, symbol, t),
    ensures
        r.price@ == field_str(v, "p"@),
        r.size@ == field_str(v, "v"@),
{
}

/// A Bitget ticker's best bid is its "bid1Price" and "bid1Size", its best ask its
/// "ask1Price" and "ask1Size".
pub proof fn law_bitget_ticker_bid_and_ask(b: TopOfBook, v: JsonValue, t: BitgetInstrumentType)
    requires
        bitget_ticker_matches(b, v, t),
    ensures
        b.bid_price@ == field_str(v, "bid1Price"@),
        b.bid_size@ == field_str(v, "bid1Size"@),
        b.ask_price@ == field_str(v, "ask1Price"@),
        b.ask_size@ == field_str(v, "ask1Size"@),
{
}

/// A Bitget book update's best bid is the first level of "b" of its first data item, its
/// best ask the first level of "a".
pub proof fn law_bitget_book_bid_and_ask(b: TopOfBook, j: JsonValue, t: BitgetInstrumentType)
    requires
        bitget_book_matches(b, j, t),
    ensures
        ({
            let item = crate::json::array_at(spec_at(j, "data"@), 0)->0;
            &&& b.bid_price@ == best_level(item, "b"@).0
            &&& b.bid_size@ == best_level(item, "b"@).1
            &&& b.ask_price@ == best_level(item, "a"@).0
            &&& b.ask_size@ == best_level(item, "a"@).1
        }),
{
}

/// A Bitget trade whose "S" is "buy" was taken by a buyer, one whose "S" is "sell" by a
/// seller.
pub proof fn law_bitget_trade_side(r: Trade, v: JsonValue, symbol: Seq<char>, t: BitgetInstrumentType)
    requires
        bitget_trade_matches(r, v, symbol, t),
    ensures
        spec_as_str(spec_at(v, "S"@)) == Some("buy"@) ==> r.side == TakerSide::Buy,
        spec_as_str(spec_at(v, "S"@)) == Some("sell"@) ==> r.side == TakerSide::Sell,
        r.price@ == field_str(v, "p"@),
        r.size@ == field_str(v, "v"@),
{
    reveal_strlit("buy");
    reveal_strlit("sell");
    assert("buy"@.len() != "sell"@.len());
}

/// A Bitget fill of a buy order has "side" "buy", one of a sell order "sell".
pub proof fn law_bitget_fill_side(s: Option<Seq<char>>)
    ensures
        s == Some("buy"@) ==> bitget_fill_side_of(s) == OrderSide::Buy,
        s == Some("sell"@) ==> bitget_fill_side_of(s) == OrderSide::Sell,
{
    reveal_strlit("buy");
    reveal_strlit("sell");
    assert("buy"@.len() != "sell"@.len());
}

/// A Bitstamp ticker's best bid is its "bid" and its best ask its "ask"; it gives no sizes.
pub proof fn law_bitstamp_ticker_bid_and_ask(b: TopOfBook, v: JsonValue)
    requires
        bitstamp_ticker_matches(b, v),
    ensures
        b.bid_price@ == field_str(v, "bid"@),
        b.ask_price@ == field_str(v, "ask"@),
        b.bid_size@.len() == 0,
        b.ask_size@.len() == 0,
{
}

/// On Bitstamp a trade or fill of "type" 0 is a buy and one of "type" 1 a sell.
pub proof fn law_bitstamp_type_is_side(x: JsonValue)
    ensures
        spec_as_i64(x) == Some(0i64) ==> taker_side_of(Some(x)) == TakerSide::Buy && fill_side_of(Some(x)) == OrderSide::Buy,
        spec_as_i64(x) == Some(1i64) ==> taker_side_of(Some(x)) == TakerSide::Sell && fill_side_of(Some(x)) == OrderSide::Sell,
{
}

/// A Kalshi market's best bid is its "yes" bid ("yes_bid_dollars", "yes_bid_size_fp"),
/// its best ask its "yes" ask ("yes_ask_dollars", "yes_ask_size_fp").
pub proof fn law_kalshi_book_bid_and_ask(b: TopOfBook, v: JsonValue)
    requires
        kalshi_book_matches(b, v),
    ensures
        b.bid_price@ == field_str(v, "yes_bid_dollars"@),
        b.bid_size@ == field_str(v, "yes_bid_size_fp"@),
        b.ask_price@ == field_str(v, "yes_ask_dollars"@),
        b.ask_size@ == field_str(v, "yes_ask_size_fp"@),
{
}

/// An HTX ticker's best bid is its "bid" and "bidSize", its best ask its "ask" and
/// "askSize".
pub proof fn law_htx_ticker_bid_and_ask(b: TopOfBook, v: JsonValue, now: Timestamp)
    requires
        htx_ticker_matches(b, v, now),
    ensures
        b.bid_price@ == htx_float_text(spec_at(v, "bid"@)),
        b.bid_size@ == htx_float_text(spec_at(v, "bidSize"@)),
        b.ask_price@ == htx_float_text(spec_at(v, "ask"@)),
        b.ask_size@ == htx_float_text(spec_at(v, "askSize"@)),
{
}

/// An HTX trade whose "direction" is "buy" was taken by a buyer, one whose "direction" is
/// "sell" by a seller.
pub proof fn law_htx_trade_side(x: Trade, d: JsonValue, symbol: Seq<char>, kind: ExchangeInstrumentType)
    requires
        htx_trade_matches(x, d, symbol, kind),
    ensures
        spec_as_str(spec_at(d, "direction"@)) == Some("buy"@) ==> x.side == TakerSide::Buy,
        spec_as_str(spec_at(d, "direction"@)) == Some("sell"@) ==> x.side == TakerSide::Sell,
{
    reveal_strlit("buy");
    reveal_strlit("sell");
    assert("buy"@.len() != "sell"@.len());
}

/// A Gate.io spot ticker's best bid is its "highest_bid" and "highest_size", its best ask
/// its "lowest_ask" and "lowest_size".
pub proof fn law_gateio_spot_ticker_bid_and_ask(
    b: TopOfBook,
    v: JsonValue,
    now: Timestamp,
    t: GateioSpotAndMarginInstrumentType,
)
    requires
        gate_spot_ticker_matches(b, v, now, t),
    ensures
        b.bid_price@ == field_str(v, "highest_bid"@),
        b.bid_size@ == field_str(v, "highest_size"@),
        b.ask_price@ == field_str(v, "lowest_ask"@),
        b.ask_size@ == field_str(v, "lowest_size"@),
{
}

/// A Gate.io futures ticker's best bid is its "highest_bid" and "highest_size", its best
/// ask its "lowest_ask" and "lowest_size".
pub proof fn law_gateio_perpetual_ticker_bid_and_ask(b: TopOfBook, v: JsonValue, now: Timestamp)
    requires
        gate_ticker_matches(b, v, now),
    ensures
        b.bid_price@ == field_str(v, "highest_bid"@),
        b.bid_size@ == field_str(v, "highest_size"@),
        b.ask_price@ == field_str(v, "lowest_ask"@),
        b.ask_size@ == field_str(v, "lowest_size"@),
{
}

/// A Gate.io futures book ticker's best bid is its "b" and "B", its best ask its "a" and
/// "A".
pub proof fn law_gateio_perpetual_book_bid_and_ask(b: TopOfBook, r: JsonValue)
    requires
        gate_book_matches(b, r),
    ensures
        b.bid_price@ == field_str(r, "b"@),
        b.bid_size@ == member_text_or_empty(r, "B"@),
        b.ask_price@ == field_str(r, "a"@),
        b.ask_size@ == member_text_or_empty(r, "A"@),
{
}

/// A Gate.io futures trade of positive size was taken by a buyer, one of negative size by
/// a seller.
pub proof fn law_gateio_perpetual_trade_side(t: Trade, v: JsonValue)
    requires
        gate_trade_matches(t, v),
    ensures
        trade_size(v) > 0 ==> t.side == TakerSide::Buy,
        trade_size(v) < 0 ==> t.side == TakerSide::Sell,
        trade_size(v) == 0 ==> t.side == TakerSide::Unknown,
{
}

/// A Coinbase book's best bid is the first level of "bids", its best ask the first level
/// of "asks": price first, then size.
pub proof fn law_coinbase_book_bid_and_ask(b: TopOfBook, j: JsonValue, path: Seq<char>)
    requires
        coinbase_book_matches(b, j, path),
    ensures
        b.bid_price@ == index_str(index_at(spec_at(j, "bids"@), 0), 0),
        b.bid_size@ == index_str(index_at(spec_at(j, "bids"@), 0), 1),
        b.ask_price@ == index_str(index_at(spec_at(j, "asks"@), 0), 0),
        b.ask_size@ == index_str(index_at(spec_at(j, "asks"@), 0), 1),
{
}

/// A Coinbase ticker's best bid is its "best_bid" and "best_bid_size", its best ask its
/// "best_ask" and "best_ask_size".
pub proof fn law_coinbase_ticker_bid_and_ask(b: TopOfBook, j: JsonValue)
    requires
        coinbase_ticker_matches(b, j),
    ensures
        b.bid_price@ == field_str(j, "best_bid"@),
        b.bid_size@ == field_str(j, "best_bid_size"@),
        b.ask_price@ == field_str(j, "best_ask"@),
        b.ask_size@ == field_str(j, "best_ask_size"@),
{
}

/// A Coinbase match names the maker's side: a selling maker means the taker bought, a
/// buying maker that the taker sold.
pub proof fn law_coinbase_trade_side(t: Trade, j: JsonValue)
    requires
        coinbase_trade_matches(t, j),
    ensures
        field_str(j, "side"@) == "sell"@ ==> t.side == TakerSide::Buy,
        field_str(j, "side"@) == "buy"@ ==> t.side == TakerSide::Sell,
        t.price@ == field_str(j, "price"@),
        t.size@ == field_str(j, "size"@),
{
    reveal_strlit("buy");
    reveal_strlit("sell");
    assert("buy"@.len() != "sell"@.len());
}

/// A Hyperliquid trade whose "side" is "B" was taken by a buyer, one whose "side" is "A"
/// by a seller; a fill of "side" "B" is a buy and one of "A" a sell.
pub proof fn law_hyperliquid_sides(r: Trade, v: JsonValue)
    requires
        hl_trade_matches(r, v),
    ensures
        spec_as_str(spec_at(v, "side"@)) == Some("B"@) ==> r.side == TakerSide::Buy,
        spec_as_str(spec_at(v, "side"@)) == Some("A"@) ==> r.side == TakerSide::Sell,
        spec_as_str(spec_at(v, "side"@)) == Some("B"@) ==> hl_order_side_of(spec_get(v, "side"@)) == OrderSide::Buy,
        spec_as_str(spec_at(v, "side"@)) == Some("A"@) ==> hl_order_side_of(spec_get(v, "side"@)) == OrderSide::Sell,
        r.price@ == field_str(v, "px"@),
        r.size@ == field_str(v, "sz"@),
{
    reveal_strlit("B");
    reveal_strlit("A");
    assert("B"@[0] != "A"@[0]);
}

/// A Binance book ticker update's best bid is its "b" and "B", its best ask its "a" and
/// "A" (USD-M futures and spot alike).
pub proof fn law_binance_book_ticker_bid_and_ask(
    futures: BinanceUsdsMarginedFuturesClient,
    spot: BinanceSpotClient,
    t: WebSocketText,
    r: Response,
    u: WebSocketText,
    q: Response,
)
    requires
        futures.top_of_book_data(t, r),
        spot.top_of_book_data(u, q),
    ensures
        r matches Response::TopOfBookSubscription(s) && ({
            let d = data_of(t);
            &&& s.data@[0].bid_price@ == field_str(d, "b"@)
            &&& s.data@[0].bid_size@ == field_str(d, "B"@)
            &&& s.data@[0].ask_price@ == field_str(d, "a"@)
            &&& s.data@[0].ask_size@ == field_str(d, "A"@)
        }),
        q matches Response::TopOfBookSubscription(s) && ({
            let d = data_of(u);
            &&& s.data@[0].bid_price@ == field_str(d, "b"@)
            &&& s.data@[0].bid_size@ == field_str(d, "B"@)
            &&& s.data@[0].ask_price@ == field_str(d, "a"@)
            &&& s.data@[0].ask_size@ == field_str(d, "A"@)
        }),
{
}

/// A Binance trade whose buyer was the maker ("m" true) was taken by a seller, any other
/// by a buyer; its price and size are its "p" and "q" (USD-M futures and spot alike).
pub proof fn law_binance_trade_side(
    futures: BinanceUsdsMarginedFuturesClient,
    spot: BinanceSpotClient,
    t: WebSocketText,
    r: Response,
    u: WebSocketText,
    q: Response,
)
    requires
        futures.trade_data(t, r),
        spot.trade_data(u, q),
    ensures
        r matches Response::TradeSubscription(s) && ({
            let d = data_of(t);
            &&& spec_as_bool(spec_at(d, "m"@)) == Some(true) ==> s.data@[0].side == TakerSide::Sell
            &&& spec_as_bool(spec_at(d, "m"@)) == Some(false) ==> s.data@[0].side == TakerSide::Buy
            &&& s.data@[0].price@ == field_str(d, "p"@)
            &&& s.data@[0].size@ == field_str(d, "q"@)
        }),
        q matches Response::TradeSubscription(s) && ({
            let d = data_of(u);
            &&& spec_as_bool(spec_at(d, "m"@)) == Some(true) ==> s.data@[0].side == TakerSide::Sell
            &&& spec_as_bool(spec_at(d, "m"@)) == Some(false) ==> s.data@[0].side == TakerSide::Buy
            &&& s.data@[0].price@ == field_str(d, "p"@)
            &&& s.data@[0].size@ == field_str(d, "q"@)
        }),
{
}

/// A Bitstamp order book update's best bid is the first level of "bids", its best ask
/// the first level of "asks": price first, then size.
pub proof fn law_bitstamp_book_bid_and_ask(client: BitstampClient, t: WebSocketText, r: Response)
    requires
        client.top_of_book_data(t, r),
    ensures
        r matches Response::TopOfBookSubscription(s) && ({
            let d = crate::exchanges::bitstamp::websocket::data_of(t);
            &&& s.data@[0].bid_price@ == level_text(d, "bids"@, 0)
            &&& s.data@[0].bid_size@ == level_text(d, "bids"@, 1)
            &&& s.data@[0].ask_price@ == level_text(d, "asks"@, 0)
            &&& s.data@[0].ask_size@ == level_text(d, "asks"@, 1)
        }),
{
}

/// An HTX spot book update's best bid is the tick's "bid" and "bidSize", its best ask its
/// "ask" and "askSize"; HTX futures give each side as a price and a size under "bid" and
/// "ask".
pub proof fn law_htx_book_bid_and_ask(
    spot: HtxSpotClient,
    futures: HtxUsdtMarginedFuturesClient,
    t: WebSocketText,
    r: Response,
    u: WebSocketText,
    q: Response,
)
    requires
        spot.top_of_book_data(t, r),
        futures.top_of_book_data(u, q),
    ensures
        r matches Response::TopOfBookSubscription(s) && ({
            let tick = spec_at(t.json_payload->0, "tick"@);
            &&& s.data@[0].bid_price@ == htx_number_text(spec_at(tick, "bid"@))
            &&& s.data@[0].bid_size@ == htx_number_text(spec_at(tick, "bidSize"@))
            &&& s.data@[0].ask_price@ == htx_number_text(spec_at(tick, "ask"@))
            &&& s.data@[0].ask_size@ == htx_number_text(spec_at(tick, "askSize"@))
        }),
        q matches Response::TopOfBookSubscription(s) && ({
            let tick = spec_at(u.json_payload->0, "tick"@);
            &&& s.data@[0].bid_price@ == number_text_at(spec_at(tick, "bid"@), 0)
            &&& s.data@[0].bid_size@ == number_text_at(spec_at(tick, "bid"@), 1)
            &&& s.data@[0].ask_price@ == number_text_at(spec_at(tick, "ask"@), 0)
            &&& s.data@[0].ask_size@ == number_text_at(spec_at(tick, "ask"@), 1)
        }),
{
}

/// A Hyperliquid best bid and offer update gives the bid first and the ask second under
/// "bbo", each as "px" and "sz".
pub proof fn law_hyperliquid_book_bid_and_ask(client: HyperliquidClient, t: WebSocketText, r: Response)
    requires
        client.top_of_book_data(t, r),
    ensures
        r matches Response::TopOfBookSubscription(s) && ({
            let levels = spec_as_array(spec_at(hl_data(t), "bbo"@))->0;
            &&& s.data@[0].bid_price@ == field_str(levels[0], "px"@)
            &&& s.data@[0].bid_size@ == field_str(levels[0], "sz"@)
            &&& s.data@[0].ask_price@ == field_str(levels[1], "px"@)
            &&& s.data@[0].ask_size@ == field_str(levels[1], "sz"@)
        }),
{
}

} // verus!
