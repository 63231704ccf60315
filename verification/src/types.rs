//! Domain types shared by all exchange clients.

use vstd::prelude::*;

verus! {

#[derive(Clone, Copy, Debug, PartialEq, Eq, Structural)]
pub enum OrderSide {
    Buy,
    Sell,
    Unknown,
}

#[derive(Clone, Copy, Debug, PartialEq, Eq, Structural)]
pub enum OrderType {
    Limit,
    Market,
    Unknown,
}

#[derive(Clone, Copy, Debug, PartialEq, Eq, Structural)]
pub enum OrderStatus {
    Placed,
    Open,
    PartiallyFilled,
    Filled,
    Canceled,
    Rejected,
    Expired,
    Unknown,
}

#[derive(Clone, Copy, Debug, PartialEq, Eq, Structural)]
pub enum PositionSide {
    Long,
    Short,
    Unknown,
}

#[derive(Clone, Copy, Debug, PartialEq, Eq, Structural)]
pub enum TakerSide {
    Buy,
    Sell,
    Unknown,
}

#[derive(Clone, Copy, Debug, PartialEq, Eq, Structural)]
pub enum BitgetInstrumentType {
    Spot,
    UsdtFutures,
    CoinFutures,
    Unknown,
}

#[derive(Clone, Copy, Debug, PartialEq, Eq, Structural)]
pub enum BybitInstrumentType {
    Spot,
    Linear,
    Inverse,
    Unknown,
}

#[derive(Clone, Copy, Debug, PartialEq, Eq, Structural)]
pub enum GateioSpotAndMarginInstrumentType {
    Spot,
    Margin,
    Unknown,
}

#[derive(Clone, Copy, Debug, PartialEq, Eq, Structural)]
pub enum HyperliquidInstrumentType {
    Spot,
    Perpetuals,
    Unknown,
}

#[derive(Clone, Copy, Debug, PartialEq, Eq, Structural)]
pub enum Exchange {
    BinanceSpot,
    BinanceUsdsMarginedFutures,
    Bitget,
    Bitstamp,
    Bybit,
    Coinbase,
    GateioPerpetualFutures,
    GateioSpotAndMargin,
    HtxSpot,
    HtxUsdtMarginedFutures,
    Kalshi,
    AsterSpot,
    Hyperliquid,
}

#[derive(Clone, Copy, Debug, PartialEq, Eq, Structural)]
pub enum ExchangeInstrumentType {
    BinanceSpot,
    BinanceUsdsMarginedFutures,
    Bitget(BitgetInstrumentType),
    Bitstamp,
    Bybit(BybitInstrumentType),
    Coinbase,
    GateioPerpetualFutures,
    GateioSpotAndMargin(GateioSpotAndMarginInstrumentType),
    HtxSpot,
    HtxUsdtMarginedFutures,
    Kalshi,
    AsterSpot,
    Hyperliquid(HyperliquidInstrumentType),
}

#[derive(Clone, Copy, Debug, PartialEq, Eq, Structural)]
pub enum ExchangeWebSocketEndpoint {
    MarketData,
    AccountData,
    Unknown,
}

/// Which websocket endpoint of which exchange a connection is for.
#[derive(Clone, Copy, Debug, PartialEq, Eq, Structural)]
pub enum WebSocketEndpoint {
    BinanceSpot(ExchangeWebSocketEndpoint),
    BinanceUsdsMarginedFutures(ExchangeWebSocketEndpoint),
    Bitget(ExchangeWebSocketEndpoint),
    Bitstamp(ExchangeWebSocketEndpoint),
    Bybit(ExchangeWebSocketEndpoint),
    Coinbase(ExchangeWebSocketEndpoint),
    GateioPerpetualFutures(ExchangeWebSocketEndpoint),
    GateioSpotAndMargin(ExchangeWebSocketEndpoint),
    HtxSpot(ExchangeWebSocketEndpoint),
    HtxUsdtMarginedFutures(ExchangeWebSocketEndpoint),
    Hyperliquid(ExchangeWebSocketEndpoint),
}

/// A point in time: whole seconds since the UNIX epoch and the nanoseconds
/// past them. The epoch itself stands for "no time given".
#[derive(Clone, Copy, Debug, PartialEq, Eq, Structural)]
pub struct Timestamp {
    pub seconds: i64,
    pub nanoseconds: u32,
}

impl Timestamp {
    pub open spec fn is_epoch(self) -> bool {
        self.seconds == 0 && self.nanoseconds == 0
    }

    /// The UNIX epoch (`DateTime::<Utc>::default()`).
    pub fn epoch() -> (t: Timestamp)
        ensures
            t.is_epoch(),
    {
        Timestamp { seconds: 0, nanoseconds: 0 }
    }
}

#[derive(Clone, Debug)]
pub struct Order {
    pub exchange_instrument_type: ExchangeInstrumentType,
    pub symbol: String,
    pub order_id: String,
    pub client_order_id: String,
    pub order_type: OrderType,
    pub side: OrderSide,
    pub price: String,
    pub quantity: String,
    pub leverage: String,
    pub remaining_quantity: String,
    pub cumulative_filled_quantity: String,
    pub cumulative_filled_quote_quantity: String,
    pub average_filled_price: String,
    pub status: OrderStatus,
    pub fill_price: String,
    pub fill_quantity: String,
    pub fill_quote_quantity: String,
    pub fill_is_maker: bool,
}

#[derive(Clone, Debug)]
pub struct Position {
    pub exchange_instrument_type: ExchangeInstrumentType,
    pub symbol: String,
    pub side: PositionSide,
    pub entry_price: String,
    pub quantity: String,
    pub leverage: String,
    pub position_asset: String,
}

#[derive(Clone, Debug)]
pub struct Balance {
    pub exchange: Exchange,
    pub asset: String,
    pub quantity: String,
}

#[derive(Clone, Debug)]
pub struct AccountInfo {
    pub exchange: Exchange,
    pub id: String,
    pub account_type: String,
}

#[derive(Clone, Debug)]
pub struct TopOfBook {
    pub exchange_instrument_type: ExchangeInstrumentType,
    pub symbol: String,
    pub timestamp: Timestamp,
    pub bid_price: String,
    pub bid_size: String,
    pub ask_price: String,
    pub ask_size: String,
}

#[derive(Clone, Debug)]
pub struct Trade {
    pub exchange_instrument_type: ExchangeInstrumentType,
    pub symbol: String,
    pub timestamp: Timestamp,
    pub price: String,
    pub size: String,
    pub side: TakerSide,
}

#[derive(Clone, Debug)]
pub struct Fill {
    pub exchange_instrument_type: ExchangeInstrumentType,
    pub symbol: String,
    pub order_id: String,
    pub client_order_id: String,
    pub side: OrderSide,
    pub price: String,
    pub quantity: String,
    pub quote_quantity: String,
    pub is_maker: bool,
}

#[derive(Clone, Debug)]
pub struct InstrumentInfo {
    pub exchange_instrument_type: ExchangeInstrumentType,
    pub symbol: String,
    pub base_asset: String,
    pub quote_asset: String,
    pub order_price_increment: String,
    pub order_quantity_increment: String,
    pub order_quantity_min: String,
    pub order_quantity_max: String,
    pub order_quote_quantity_min: String,
    pub order_quote_quantity_max: String,
    pub settle_asset: String,
    pub underlying_symbol: String,
    pub contract_size: String,
    pub expiry_timestamp: Timestamp,
}

/// Where and how a websocket client connects.
#[derive(Clone, Copy, Debug)]
pub struct WebSocketClientConfig {
    pub endpoint: WebSocketEndpoint,
}

} // verus!
