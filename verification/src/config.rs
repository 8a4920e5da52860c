//! The configuration of the engine, fixed when the process starts.

use vstd::prelude::*;
use crate::models::{default_stream_config, texts, StreamConfig, StreamConfigView};

verus! {

/// Every option the engine recognises.
#[derive(Debug, PartialEq, Eq)]
pub struct AppConfig {
    pub log_level: String,
    /// Symbols to ingest at startup, on the spot market of the first venue.
    pub default_symbols: Vec<String>,
    /// Capacity of the broadcast ring.
    pub broadcast_buffer_size: usize,
    /// Capacity of the trade, aggregated-trade and liquidation queues.
    pub trade_history_limit: usize,
    /// Capacity of the candle queue of each interval.
    pub candle_history_limit: usize,
    pub binance_spot_ws_url: String,
    pub binance_linear_future_ws_url: String,
    pub binance_inverse_future_ws_url: String,
    /// Ceiling of the reconnect backoff, in seconds.
    pub binance_reconnect_delay: u64,
    /// Level count of the partial-depth stream, as it appears in the stream's name.
    pub order_book_depth: String,
    pub default_raw_trades: bool,
    pub default_agg_trades: bool,
    pub default_order_book: bool,
    pub default_kline_intervals: Vec<String>,
    pub default_ticker: bool,
    pub default_book_ticker: bool,
    pub default_mark_price: bool,
    pub default_index_price: bool,
    pub default_liquidation: bool,
    pub default_funding_rate: bool,
    pub default_open_interest: bool,
    pub default_greeks: bool,
    pub server_bind_address: String,
    /// Most candles a history query returns.
    pub server_history_fetch_limit: usize,
}

impl AppConfig {
    /// The stream configuration that the `default_*` options describe.
    pub open spec fn stream_config(self) -> StreamConfigView {
        StreamConfigView {
            raw_trades: self.default_raw_trades,
            agg_trades: self.default_agg_trades,
            order_book: self.default_order_book,
            kline_intervals: texts(self.default_kline_intervals@),
            ticker: self.default_ticker,
            book_ticker: self.default_book_ticker,
            mark_price: self.default_mark_price,
            index_price: self.default_index_price,
            liquidation: self.default_liquidation,
            funding_rate: self.default_funding_rate,
            open_interest: self.default_open_interest,
            greeks: self.default_greeks,
        }
    }

    /// The stream configuration a connector gets when the client brings none.
    pub fn get_stream_config(&self) -> (c: StreamConfig)
        ensures
            c@ == self.stream_config(),
    {
        StreamConfig {
            raw_trades: self.default_raw_trades,
            agg_trades: self.default_agg_trades,
            order_book: self.default_order_book,
            kline_intervals: self.default_kline_intervals.clone(),
            ticker: self.default_ticker,
            book_ticker: self.default_book_ticker,
            mark_price: self.default_mark_price,
            index_price: self.default_index_price,
            liquidation: self.default_liquidation,
            funding_rate: self.default_funding_rate,
            open_interest: self.default_open_interest,
            greeks: self.default_greeks,
        }
    }
}

impl Default for AppConfig {
    /// The value of every option that neither a file nor the environment sets.
    fn default() -> (c: AppConfig)
        ensures
            c.log_level@ == "info"@,
            texts(c.default_symbols@) == seq!["BTCUSDT"@],
            c.broadcast_buffer_size == 5000,
            c.trade_history_limit == 100,
            c.candle_history_limit == 5000,
            c.binance_spot_ws_url@ == "wss://stream.binance.com:9443/ws"@,
            c.binance_linear_future_ws_url@ == "wss://fstream.binance.com/ws"@,
            c.binance_inverse_future_ws_url@ == "wss://dstream.binance.com/ws"@,
            c.binance_reconnect_delay == 60,
            c.order_book_depth@ == "20"@,
            c.stream_config() == default_stream_config(),
            c.server_bind_address@ == "127.0.0.1:8080"@,
            c.server_history_fetch_limit == 1000,
    {
        let streams = StreamConfig::default();
        let mut symbols: Vec<String> = Vec::new();
        symbols.push("BTCUSDT".to_owned());
        assert(texts(symbols@) =~= seq!["BTCUSDT"@]);
        AppConfig {
            log_level: "info".to_owned(),
            default_symbols: symbols,
            broadcast_buffer_size: 5000,
            trade_history_limit: 100,
            candle_history_limit: 5000,
            binance_spot_ws_url: "wss://stream.binance.com:9443/ws".to_owned(),
            binance_linear_future_ws_url: "wss://fstream.binance.com/ws".to_owned(),
            binance_inverse_future_ws_url: "wss://dstream.binance.com/ws".to_owned(),
            binance_reconnect_delay: 60,
            order_book_depth: "20".to_owned(),
            default_raw_trades: streams.raw_trades,
            default_agg_trades: streams.agg_trades,
            default_order_book: streams.order_book,
            default_kline_intervals: streams.kline_intervals,
            default_ticker: streams.ticker,
            default_book_ticker: streams.book_ticker,
            default_mark_price: streams.mark_price,
            default_index_price: streams.index_price,
            default_liquidation: streams.liquidation,
            default_funding_rate: streams.funding_rate,
            default_open_interest: streams.open_interest,
            default_greeks: streams.greeks,
            server_bind_address: "127.0.0.1:8080".to_owned(),
            server_history_fetch_limit: 1000,
        }
    }
}

} // verus!
