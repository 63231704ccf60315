//! The words each exchange uses for an order's side and type, both as the library writes
//! them into a request and as it reads them back from a response.

use vstd::prelude::*;
use crate::exchanges::binance_usds_margined_futures::common::{
    binance_order_type_of, binance_order_type_text, binance_side_of, binance_side_text,
};
use crate::exchanges::bitget::common::{bitget_order_type_of, bitget_order_type_text, bitget_side_of, bitget_side_text};
use crate::exchanges::bitstamp::rest::side_text;
use crate::exchanges::bybit::common::{bybit_order_type_of, bybit_order_type_text, bybit_side_of, bybit_side_text};
use crate::exchanges::coinbase::common::{
    coinbase_order_type_of, coinbase_order_type_text, coinbase_side_of, coinbase_side_text,
};
use crate::exchanges::gateio_perpetual_futures::common::{gate_order_type_of_tif, gate_tif_text};
use crate::exchanges::gateio_spot_and_margin::common::{
    gate_spot_order_type_of, gate_spot_order_type_text, gate_spot_side_of, gate_spot_side_text,
};
use crate::exchanges::htx_spot::common::htx_side_type_text;
use crate::exchanges::htx_usdt_margined_futures::common::{
    htx_futures_side_of, htx_futures_side_text, htx_futures_type_of, htx_futures_type_text,
};
use crate::exchanges::kalshi::common::{kalshi_side_of, kalshi_side_text};
use crate::types::{OrderSide, OrderType};

verus! {

/// Binance writes and reads "BUY" and "SELL", "MARKET" and "LIMIT".
pub proof fn law_binance_usds_vocabulary()
    ensures
        binance_side_text(OrderSide::Buy) == "BUY"@,
        binance_side_text(OrderSide::Sell) == "SELL"@,
        binance_side_of("BUY"@) == OrderSide::Buy,
        binance_side_of("SELL"@) == OrderSide::Sell,
        binance_order_type_text(OrderType::Market) == "MARKET"@,
        binance_order_type_text(OrderType::Limit) == "LIMIT"@,
        binance_order_type_of("MARKET"@) == OrderType::Market,
        binance_order_type_of("LIMIT"@) == OrderType::Limit,
{
    reveal_strlit("BUY");
    reveal_strlit("SELL");
    reveal_strlit("MARKET");
    reveal_strlit("LIMIT");
    assert("BUY"@.len() != "SELL"@.len());
    assert("MARKET"@.len() != "LIMIT"@.len());
}

/// Bybit writes and reads "Buy" and "Sell", "Market" and "Limit".
pub proof fn law_bybit_vocabulary()
    ensures
        bybit_side_text(OrderSide::Buy) == "Buy"@,
        bybit_side_text(OrderSide::Sell) == "Sell"@,
        bybit_side_of("Buy"@) == OrderSide::Buy,
        bybit_side_of("Sell"@) == OrderSide::Sell,
        bybit_order_type_text(OrderType::Market) == "Market"@,
        bybit_order_type_text(OrderType::Limit) == "Limit"@,
        bybit_order_type_of("Market"@) == OrderType::Market,
        bybit_order_type_of("Limit"@) == OrderType::Limit,
{
    reveal_strlit("Buy");
    reveal_strlit("Sell");
    reveal_strlit("Market");
    reveal_strlit("Limit");
    assert("Buy"@.len() != "Sell"@.len());
    assert("Market"@.len() != "Limit"@.len());
}

/// Bitget writes and reads "buy" and "sell", "market" and "limit".
pub proof fn law_bitget_vocabulary()
    ensures
        bitget_side_text(OrderSide::Buy) == "buy"@,
        bitget_side_text(OrderSide::Sell) == "sell"@,
        bitget_side_of("buy"@) == OrderSide::Buy,
        bitget_side_of("sell"@) == OrderSide::Sell,
        bitget_order_type_text(OrderType::Market) == "market"@,
        bitget_order_type_text(OrderType::Limit) == "limit"@,
        bitget_order_type_of("market"@) == OrderType::Market,
        bitget_order_type_of("limit"@) == OrderType::Limit,
{
    reveal_strlit("buy");
    reveal_strlit("sell");
    reveal_strlit("market");
    reveal_strlit("limit");
    assert("buy"@.len() != "sell"@.len());
    assert("market"@.len() != "limit"@.len());
}

/// Coinbase writes and reads "buy" and "sell", "market" and "limit".
pub proof fn law_coinbase_vocabulary()
    ensures
        coinbase_side_text(OrderSide::Buy) == "buy"@,
        coinbase_side_text(OrderSide::Sell) == "sell"@,
        coinbase_side_of("buy"@) == OrderSide::Buy,
        coinbase_side_of("sell"@) == OrderSide::Sell,
        coinbase_order_type_text(OrderType::Market) == "market"@,
        coinbase_order_type_text(OrderType::Limit) == "limit"@,
        coinbase_order_type_of("market"@) == OrderType::Market,
        coinbase_order_type_of("limit"@) == OrderType::Limit,
{
    reveal_strlit("buy");
    reveal_strlit("sell");
    reveal_strlit("market");
    reveal_strlit("limit");
    assert("buy"@.len() != "sell"@.len());
    assert("market"@.len() != "limit"@.len());
}

/// Gate.io spot writes and reads "buy" and "sell", "market" and "limit"; its futures
/// write a limit order as good till cancelled ("gtc") and a market order as immediate or
/// cancel ("ioc"), and read them back so.
pub proof fn law_gateio_vocabulary()
    ensures
        gate_spot_side_text(OrderSide::Buy) == "buy"@,
        gate_spot_side_text(OrderSide::Sell) == "sell"@,
        gate_spot_side_of("buy"@) == OrderSide::Buy,
        gate_spot_side_of("sell"@) == OrderSide::Sell,
        gate_spot_order_type_text(OrderType::Market) == "market"@,
        gate_spot_order_type_text(OrderType::Limit) == "limit"@,
        gate_spot_order_type_of("market"@) == OrderType::Market,
        gate_spot_order_type_of("limit"@) == OrderType::Limit,
        gate_tif_text(OrderType::Limit) == "gtc"@,
        gate_tif_text(OrderType::Market) == "ioc"@,
        gate_order_type_of_tif("gtc"@) == OrderType::Limit,
        gate_order_type_of_tif("ioc"@) == OrderType::Market,
{
    reveal_strlit("buy");
    reveal_strlit("sell");
    reveal_strlit("market");
    reveal_strlit("limit");
    reveal_strlit("gtc");
    reveal_strlit("ioc");
    reveal_strlit("poc");
    reveal_strlit("fok");
    assert("buy"@.len() != "sell"@.len());
    assert("market"@.len() != "limit"@.len());
    assert("ioc"@[0] != "gtc"@[0] && "ioc"@[0] != "poc"@[0] && "ioc"@[0] != "fok"@[0]);
}

/// HTX spot writes the side and type as one word: "buy-market", "buy-limit",
/// "sell-market", "sell-limit"; its futures write and read "buy" and "sell", and write
/// "limit" and "market".
pub proof fn law_htx_vocabulary()
    ensures
        htx_side_type_text(OrderSide::Buy, OrderType::Market) == "buy"@ + "-market"@,
        htx_side_type_text(OrderSide::Buy, OrderType::Limit) == "buy"@ + "-limit"@,
        htx_side_type_text(OrderSide::Sell, OrderType::Market) == "sell"@ + "-market"@,
        htx_side_type_text(OrderSide::Sell, OrderType::Limit) == "sell"@ + "-limit"@,
        htx_futures_side_text(OrderSide::Buy) == "buy"@,
        htx_futures_side_text(OrderSide::Sell) == "sell"@,
        htx_futures_side_of("buy"@) == OrderSide::Buy,
        htx_futures_side_of("sell"@) == OrderSide::Sell,
        htx_futures_type_text(OrderType::Limit) == "limit"@,
        htx_futures_type_text(OrderType::Market) == "market"@,
        htx_futures_type_of("limit"@) == OrderType::Limit,
        htx_futures_type_of("market"@) == OrderType::Market,
{
    reveal_strlit("buy");
    reveal_strlit("sell");
    reveal_strlit("market");
    reveal_strlit("limit");
    reveal_strlit("post_only");
    reveal_strlit("maker_only");
    reveal_strlit("ioc");
    reveal_strlit("fok");
    assert("buy"@.len() != "sell"@.len());
    assert("market"@ != "limit"@ && "market"@ != "post_only"@ && "market"@ != "maker_only"@ && "market"@ != "ioc"@
        && "market"@ != "fok"@) by {
        assert("market"@.len() != "limit"@.len());
        assert("market"@.len() != "post_only"@.len());
        assert("market"@.len() != "maker_only"@.len());
        assert("market"@.len() != "ioc"@.len());
        assert("market"@.len() != "fok"@.len());
    }
}

/// Kalshi writes and reads a buy as "bid" and a sell as "ask"; Bitstamp puts "buy" or
/// "sell" in an order's path.
pub proof fn law_kalshi_and_bitstamp_vocabulary()
    ensures
        kalshi_side_text(OrderSide::Buy) == "bid"@,
        kalshi_side_text(OrderSide::Sell) == "ask"@,
        kalshi_side_of("bid"@) == OrderSide::Buy,
        kalshi_side_of("ask"@) == OrderSide::Sell,
        side_text(OrderSide::Buy) == "buy"@,
        side_text(OrderSide::Sell) == "sell"@,
{
    reveal_strlit("bid");
    reveal_strlit("ask");
    assert("bid"@[0] != "ask"@[0]);
}

} // verus!
