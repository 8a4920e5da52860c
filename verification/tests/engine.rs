use ingestion_engine::config::AppConfig;
use ingestion_engine::engine::Engine;
use ingestion_engine::models::{
    Candle, Decimal, Liquidation, MarketData, MarketType, OrderBook, PriceLevel, StreamConfig,
    Trade, TradeSide,
};

fn config_with_limits(trade_limit: usize, candle_limit: usize) -> AppConfig {
    let mut config = AppConfig::default();
    config.trade_history_limit = trade_limit;
    config.candle_history_limit = candle_limit;
    config
}

fn trade(id: u64, topic: &str) -> Trade {
    Trade {
        id,
        symbol: topic.to_string(),
        price: Decimal::new("100.5"),
        quantity: Decimal::new("0.1"),
        timestamp_ms: 1670000000000 + id,
        side: TradeSide::Buy,
    }
}

fn candle(start: u64, interval: &str, topic: &str) -> Candle {
    Candle {
        symbol: topic.to_string(),
        interval: interval.to_string(),
        open: Decimal::new("1"),
        high: Decimal::new("2"),
        low: Decimal::new("0.5"),
        close: Decimal::new("1.5"),
        volume: Decimal::new("10"),
        start_time: start,
        close_time: start + 59,
        is_closed: true,
    }
}

fn starts(candles: &[Candle]) -> Vec<u64> {
    candles.iter().map(|c| c.start_time).collect()
}

#[test]
fn bounded_fifo_keeps_the_newest_three_of_five() {
    let mut engine = Engine::new(&config_with_limits(3, 10));
    for id in 1..=5u64 {
        engine.add_trade("T".to_string(), trade(id, "T"));
    }
    let kept: Vec<u64> = engine.get_recent_trades("T").iter().map(|t| t.id).collect();
    assert_eq!(kept, vec![3, 4, 5]);
}

#[test]
fn a_queue_of_capacity_zero_keeps_nothing() {
    let mut engine = Engine::new(&config_with_limits(0, 0));
    engine.add_trade("T".to_string(), trade(1, "T"));
    engine.add_candle("T".to_string(), candle(100, "1m", "T"));
    engine.load_historical_candles("T".to_string(), vec![candle(200, "1m", "T")]);
    assert!(engine.get_recent_trades("T").is_empty());
    assert!(engine.get_recent_candles("T").is_empty());
}

#[test]
fn a_write_hands_back_the_event_to_publish() {
    let mut engine = Engine::new(&config_with_limits(3, 10));
    let published = engine.add_trade("T".to_string(), trade(7, "T"));
    assert_eq!(published, MarketData::Trade(trade(7, "T")));
    let book = OrderBook {
        symbol: "T".to_string(),
        bids: vec![PriceLevel { price: Decimal::new("100.0"), quantity: Decimal::new("1.0") }],
        asks: vec![PriceLevel { price: Decimal::new("101.0"), quantity: Decimal::new("1.0") }],
        last_update_id: 12345,
    };
    let published = engine.update_order_book("T".to_string(), book.clone());
    assert_eq!(published, MarketData::OrderBook(book.clone()));
    assert_eq!(engine.get_order_book("T"), Some(book));
}

#[test]
fn slots_are_last_writer_wins() {
    let mut engine = Engine::new(&config_with_limits(3, 10));
    for id in [100u64, 101] {
        let book = OrderBook {
            symbol: "T".to_string(),
            bids: vec![],
            asks: vec![],
            last_update_id: id,
        };
        engine.update_order_book("T".to_string(), book);
    }
    assert_eq!(engine.get_order_book("T").map(|b| b.last_update_id), Some(101));
    assert_eq!(engine.get_order_book("U"), None);
}

#[test]
fn liquidations_share_the_trade_limit() {
    let mut engine = Engine::new(&config_with_limits(2, 10));
    for price in ["1", "2", "3"] {
        let liq = Liquidation {
            symbol: "T".to_string(),
            price: Decimal::new(price),
            quantity: Decimal::new("1"),
            side: TradeSide::Sell,
        };
        engine.add_liquidation("T".to_string(), liq);
    }
    let kept: Vec<String> =
        engine.get_recent_liquidations("T").into_iter().map(|l| l.price.text).collect();
    assert_eq!(kept, vec!["2".to_string(), "3".to_string()]);
}

#[test]
fn bulk_load_sorts_by_start_time() {
    let mut engine = Engine::new(&config_with_limits(3, 10));
    let load = vec![candle(300, "1m", "T"), candle(100, "1m", "T"), candle(200, "1m", "T")];
    engine.load_historical_candles("T".to_string(), load);
    assert_eq!(starts(&engine.get_recent_candles("T")), vec![100, 200, 300]);
}

#[test]
fn bulk_load_trims_before_it_sorts() {
    let mut engine = Engine::new(&config_with_limits(3, 2));
    let load = vec![candle(300, "1m", "T"), candle(100, "1m", "T"), candle(200, "1m", "T")];
    engine.load_historical_candles("T".to_string(), load);
    assert_eq!(starts(&engine.get_recent_candles("T")), vec![100, 200]);
}

#[test]
fn bulk_load_sorts_every_interval_of_the_topic() {
    let mut engine = Engine::new(&config_with_limits(3, 10));
    engine.add_candle("T".to_string(), candle(500, "5m", "T"));
    engine.add_candle("T".to_string(), candle(400, "5m", "T"));
    engine.load_historical_candles("T".to_string(), vec![candle(100, "1m", "T")]);
    assert_eq!(starts(&engine.get_recent_candles("T")), vec![400, 500, 100]);
}

#[test]
fn an_empty_bulk_load_changes_nothing() {
    let mut engine = Engine::new(&config_with_limits(3, 10));
    engine.add_candle("T".to_string(), candle(500, "5m", "T"));
    engine.add_candle("T".to_string(), candle(400, "5m", "T"));
    engine.load_historical_candles("T".to_string(), vec![]);
    assert_eq!(starts(&engine.get_recent_candles("T")), vec![500, 400]);
}

#[test]
fn history_query_returns_the_last_three_before_the_end_time() {
    let mut engine = Engine::new(&config_with_limits(3, 5000));
    let load: Vec<Candle> = (1..=10u64).map(|k| candle(k * 100, "1m", "T")).collect();
    engine.load_historical_candles("T".to_string(), load);
    assert_eq!(starts(&engine.get_history("T", 550, 3)), vec![300, 400, 500]);
    assert_eq!(starts(&engine.get_history("T", 100, 3)), Vec::<u64>::new());
    assert_eq!(starts(&engine.get_history("T", 250, 0)), Vec::<u64>::new());
    assert_eq!(starts(&engine.get_history("T", 250, 9)), vec![100, 200]);
    assert_eq!(starts(&engine.get_history("U", 550, 3)), Vec::<u64>::new());
}

#[test]
fn history_query_merges_intervals_in_order_of_start_time() {
    let mut engine = Engine::new(&config_with_limits(3, 10));
    engine.add_candle("T".to_string(), candle(300, "5m", "T"));
    engine.add_candle("T".to_string(), candle(100, "1m", "T"));
    engine.add_candle("T".to_string(), candle(300, "1m", "T"));
    engine.add_candle("T".to_string(), candle(200, "5m", "T"));
    let history = engine.get_history("T", 1000, 10);
    assert_eq!(starts(&history), vec![100, 200, 300, 300]);
    assert_eq!(history[2].interval, "5m");
    assert_eq!(history[3].interval, "1m");
}

#[test]
fn request_ingestion_is_true_once_per_topic() {
    let mut engine = Engine::new(&config_with_limits(3, 10));
    assert!(!engine.is_active("BINANCE_SPOT_BTCUSDT"));
    assert!(engine.request_ingestion("BINANCE_SPOT_BTCUSDT".to_string()));
    assert!(!engine.request_ingestion("BINANCE_SPOT_BTCUSDT".to_string()));
    assert!(engine.request_ingestion("BINANCE_SPOT_ETHUSDT".to_string()));
    engine.add_trade("BINANCE_SPOT_BTCUSDT".to_string(), trade(1, "BINANCE_SPOT_BTCUSDT"));
    assert!(!engine.request_ingestion("BINANCE_SPOT_BTCUSDT".to_string()));
    assert!(engine.is_active("BINANCE_SPOT_BTCUSDT"));
}

#[test]
fn market_sanitization() {
    let config = StreamConfig {
        raw_trades: true,
        agg_trades: false,
        order_book: true,
        kline_intervals: vec!["1m".to_string()],
        ticker: true,
        book_ticker: false,
        mark_price: true,
        index_price: true,
        liquidation: true,
        funding_rate: true,
        open_interest: true,
        greeks: true,
    };
    let spot = config.sanitize_for_market(MarketType::Spot);
    assert!(!spot.mark_price && !spot.liquidation && !spot.greeks && !spot.funding_rate);
    assert!(!spot.index_price && !spot.open_interest);
    assert!(spot.raw_trades && !spot.agg_trades && spot.order_book && spot.ticker);
    assert_eq!(spot.kline_intervals, vec!["1m".to_string()]);
    for market in [MarketType::LinearFuture, MarketType::InverseFuture] {
        let future = config.sanitize_for_market(market);
        assert_eq!(future, StreamConfig { greeks: false, ..config.clone() });
    }
    assert_eq!(config.sanitize_for_market(MarketType::Option), config);
}

#[test]
fn test_app_config_defaults() {
    let mut app_config = AppConfig::default();
    app_config.log_level = "info".to_string();
    app_config.default_symbols = vec![];
    app_config.broadcast_buffer_size = 100;
    app_config.trade_history_limit = 10;
    app_config.candle_history_limit = 10;
    app_config.binance_spot_ws_url = "".to_string();
    app_config.binance_linear_future_ws_url = "".to_string();
    app_config.binance_inverse_future_ws_url = "".to_string();
    app_config.binance_reconnect_delay = 0;
    app_config.order_book_depth = "20".to_string();
    app_config.default_raw_trades = true;
    app_config.default_agg_trades = false;
    app_config.default_order_book = true;
    app_config.default_kline_intervals = vec!["1h".to_string()];
    app_config.server_bind_address = "127.0.0.1:0".to_string();
    app_config.server_history_fetch_limit = 10;

    let stream_config = app_config.get_stream_config();

    assert_eq!(stream_config.raw_trades, true);
    assert_eq!(stream_config.agg_trades, false);
    assert_eq!(stream_config.order_book, true);
    assert_eq!(stream_config.kline_intervals.len(), 1);
    assert_eq!(stream_config.kline_intervals[0], "1h");
    assert_eq!(stream_config.ticker, false);
    assert_eq!(stream_config.book_ticker, false);
}

#[test]
fn built_in_defaults() {
    let config = AppConfig::default();
    assert_eq!(config.log_level, "info");
    assert_eq!(config.default_symbols, vec!["BTCUSDT".to_string()]);
    assert_eq!(config.broadcast_buffer_size, 5000);
    assert_eq!(config.trade_history_limit, 100);
    assert_eq!(config.candle_history_limit, 5000);
    assert_eq!(config.binance_reconnect_delay, 60);
    assert_eq!(config.order_book_depth, "20");
    assert_eq!(config.server_history_fetch_limit, 1000);
    assert_eq!(config.get_stream_config(), StreamConfig::default());
    let intervals = StreamConfig::default().kline_intervals;
    assert_eq!(intervals, vec!["1m", "5m", "15m", "1h", "4h", "1d"]);
}
