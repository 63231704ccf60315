pub mod aster_spot;
pub mod binance_spot;
pub mod binance_usds_margined_futures;
pub mod bitstamp;
pub mod bitget;
pub mod bybit;
pub mod coinbase;
pub mod gateio_perpetual_futures;
pub mod gateio_spot_and_margin;
pub mod htx_spot;
pub mod htx_usdt_margined_futures;
pub mod kalshi;
pub mod hyperliquid;
