use ingestion_engine::config::AppConfig;
use ingestion_engine::engine::Engine;
use ingestion_engine::ingest::{apply_frame, handle_message, is_admitted};
use ingestion_engine::json::{parse, Json};
use ingestion_engine::models::{
    Decimal, Family, MarketData, OrderBook, PriceLevel, StreamConfig, Trade, TradeSide,
};
use ingestion_engine::normalize::{
    classify, decode_depth, decode_kline, decode_trade, parse_raw_levels, DecodeError, FrameKind,
};

const TOPIC: &str = "BINANCE_SPOT_BTCUSDT";

const TRADE: &str = r#"{"e":"trade","E":1672515782136,"s":"BTCUSDT","t":12345,"p":"50000.10","q":"0.25","T":1672515782136,"m":true,"M":true}"#;
const DEPTH: &str = r#"{"lastUpdateId":160,"bids":[["0.0024","10"],["0.0023","7"]],"asks":[["0.0026","100"]]}"#;
const DEPTH_DIFF: &str =
    r#"{"e":"depthUpdate","lastUpdateId":160,"u":170,"bids":[],"asks":[]}"#;
const KLINE: &str = r#"{"e":"kline","E":1672515782136,"s":"BTCUSDT","k":{"t":1672515780000,"T":1672515839999,"s":"BTCUSDT","i":"1m","f":100,"L":200,"o":"0.0010","c":"0.0020","h":"0.0025","l":"0.0015","v":"1000","n":100,"x":false,"q":"1.0000"}}"#;
const AGG_TRADE: &str = r#"{"e":"aggTrade","E":1672515782136,"s":"BTCUSDT","a":777,"p":"0.001","q":"100","f":100,"l":105,"T":1672515782136,"m":false,"M":true}"#;
const TICKER: &str = r#"{"e":"24hrTicker","E":1672515782136,"s":"BNBBTC","p":"0.0015","P":"250.00","c":"0.0025","o":"0.0010","h":"0.0026","l":"0.0009","v":"10000","q":"18"}"#;
const BOOK_TICKER: &str = r#"{"e":"bookTicker","u":400900217,"s":"BNBUSDT","b":"25.35","B":"31.21","a":"25.36","A":"40.66"}"#;
const MARK_PRICE: &str = r#"{"e":"markPriceUpdate","E":1562305380000,"s":"BTCUSDT","p":"11794.15","i":"11784.62","P":"11784.25","r":"0.00038167","T":1562306400000}"#;
const FORCE_ORDER: &str = r#"{"e":"forceOrder","E":1568014460893,"o":{"s":"BTCUSDT","S":"SELL","o":"LIMIT","f":"IOC","q":"0.014","p":"9910"}}"#;
const FORCE_ORDER_BUY: &str =
    r#"{"e":"forceOrder","E":1568014460893,"o":{"S":"BUY","q":"1","p":"2"}}"#;

fn nothing() -> StreamConfig {
    StreamConfig {
        raw_trades: false,
        agg_trades: false,
        order_book: false,
        kline_intervals: vec![],
        ticker: false,
        book_ticker: false,
        mark_price: false,
        index_price: false,
        liquidation: false,
        funding_rate: false,
        open_interest: false,
        greeks: false,
    }
}

fn everything() -> StreamConfig {
    StreamConfig {
        raw_trades: true,
        agg_trades: true,
        order_book: true,
        kline_intervals: vec!["1m".to_string()],
        ticker: true,
        book_ticker: true,
        mark_price: true,
        index_price: true,
        liquidation: true,
        funding_rate: true,
        open_interest: true,
        greeks: true,
    }
}

fn engine() -> Engine {
    let mut config = AppConfig::default();
    config.trade_history_limit = 10;
    config.candle_history_limit = 10;
    Engine::new(&config)
}

fn families(events: &[MarketData]) -> Vec<Family> {
    events.iter().map(|e| e.family()).collect()
}

#[test]
fn frames_are_told_apart_by_their_markers() {
    assert_eq!(classify(TRADE), FrameKind::Trade);
    assert_eq!(classify(DEPTH), FrameKind::Depth);
    assert_eq!(classify(KLINE), FrameKind::Kline);
    assert_eq!(classify(AGG_TRADE), FrameKind::AggTrade);
    assert_eq!(classify(TICKER), FrameKind::Ticker);
    assert_eq!(classify(BOOK_TICKER), FrameKind::BookTicker);
    assert_eq!(classify(MARK_PRICE), FrameKind::MarkPrice);
    assert_eq!(classify(FORCE_ORDER), FrameKind::ForceOrder);
    assert_eq!(classify(r#"{"result":null,"id":1}"#), FrameKind::Other);
    assert_eq!(classify(""), FrameKind::Other);
}

#[test]
fn the_first_marker_in_order_wins() {
    let both = r#"{"e":"kline","note":"\"e\":\"trade\""}"#;
    assert_eq!(classify(both), FrameKind::Kline);
    let both = r#"{"e":"kline","x":{"e":"trade"},"bids":[]}"#;
    assert_eq!(classify(both), FrameKind::Trade);
    let spaced = r#"{"e": "trade"}"#;
    assert_eq!(classify(spaced), FrameKind::Other);
}

#[test]
fn a_trade_frame_becomes_a_trade_under_the_topic() {
    let mut engine = engine();
    let events = handle_message(TOPIC, TRADE, &everything(), &mut engine).unwrap();
    let expected = Trade {
        id: 12345,
        symbol: TOPIC.to_string(),
        price: Decimal::new("50000.10"),
        quantity: Decimal::new("0.25"),
        timestamp_ms: 1672515782136,
        side: TradeSide::Sell,
    };
    assert_eq!(events, vec![MarketData::Trade(expected.clone())]);
    assert_eq!(engine.get_recent_trades(TOPIC), vec![expected]);
    assert!(engine.get_recent_trades("BTCUSDT").is_empty());
}

#[test]
fn a_depth_frame_becomes_an_order_book() {
    let mut engine = engine();
    let events = handle_message(TOPIC, DEPTH, &everything(), &mut engine).unwrap();
    let expected = OrderBook {
        symbol: TOPIC.to_string(),
        bids: vec![
            PriceLevel { price: Decimal::new("0.0024"), quantity: Decimal::new("10") },
            PriceLevel { price: Decimal::new("0.0023"), quantity: Decimal::new("7") },
        ],
        asks: vec![PriceLevel { price: Decimal::new("0.0026"), quantity: Decimal::new("100") }],
        last_update_id: 160,
    };
    assert_eq!(events, vec![MarketData::OrderBook(expected.clone())]);
    assert_eq!(engine.get_order_book(TOPIC), Some(expected));
}

#[test]
fn the_final_update_id_is_taken_where_there_is_one() {
    let json = parse(DEPTH_DIFF).unwrap();
    assert_eq!(decode_depth(&json, TOPIC).unwrap().last_update_id, 170);
    let null = parse(r#"{"lastUpdateId":160,"u":null,"bids":[],"asks":[]}"#).unwrap();
    assert_eq!(decode_depth(&null, TOPIC).unwrap().last_update_id, 160);
    let text = parse(r#"{"lastUpdateId":160,"u":"170","bids":[],"asks":[]}"#).unwrap();
    assert_eq!(decode_depth(&text, TOPIC), Err(DecodeError::Unexpected));
    let only_final = parse(r#"{"u":170,"bids":[],"asks":[]}"#).unwrap();
    assert_eq!(decode_depth(&only_final, TOPIC), Err(DecodeError::Unexpected));
}

#[test]
fn a_level_is_an_array_of_exactly_two_strings() {
    let levels = |text: &str| match parse(text).unwrap() {
        Json::Array(items) => parse_raw_levels(&items),
        _ => panic!("not an array"),
    };
    assert_eq!(levels("[]"), Ok(vec![]));
    assert_eq!(
        levels(r#"[["1","2"]]"#),
        Ok(vec![PriceLevel { price: Decimal::new("1"), quantity: Decimal::new("2") }])
    );
    assert_eq!(levels(r#"[["1","2","3"]]"#), Err(DecodeError::Unexpected));
    assert_eq!(levels(r#"[["1"]]"#), Err(DecodeError::Unexpected));
    assert_eq!(levels(r#"[["1",2]]"#), Err(DecodeError::Unexpected));
    assert_eq!(levels(r#"[["1","2"],"x"]"#), Err(DecodeError::Unexpected));
}

#[test]
fn a_kline_frame_becomes_a_candle() {
    let mut engine = engine();
    let events = handle_message(TOPIC, KLINE, &everything(), &mut engine).unwrap();
    assert_eq!(families(&events), vec![Family::Candle]);
    let candles = engine.get_recent_candles(TOPIC);
    assert_eq!(candles.len(), 1);
    let candle = &candles[0];
    assert_eq!(events[0], MarketData::Candle(candle.clone()));
    assert_eq!(candle.symbol, TOPIC);
    assert_eq!(candle.interval, "1m");
    assert_eq!(candle.start_time, 1672515780000);
    assert_eq!(candle.close_time, 1672515839999);
    assert_eq!(candle.open.text, "0.0010");
    assert_eq!(candle.close.text, "0.0020");
    assert_eq!(candle.high.text, "0.0025");
    assert_eq!(candle.low.text, "0.0015");
    assert_eq!(candle.volume.text, "1000");
    assert!(!candle.is_closed);
}

#[test]
fn the_other_families_are_read_too() {
    let mut engine = engine();
    let config = everything();
    let agg = handle_message(TOPIC, AGG_TRADE, &config, &mut engine).unwrap();
    match &agg[..] {
        [MarketData::AggTrade(t)] => {
            assert_eq!((t.id, t.first_trade_id, t.last_trade_id), (777, 100, 105));
            assert_eq!(t.side, TradeSide::Buy);
            assert_eq!(t.symbol, TOPIC);
        }
        other => panic!("unexpected events {:?}", other),
    }
    let ticker = handle_message(TOPIC, TICKER, &config, &mut engine).unwrap();
    match &ticker[..] {
        [MarketData::Ticker(t)] => {
            assert_eq!(t.price_change.text, "0.0015");
            assert_eq!(t.price_change_percent.text, "250.00");
            assert_eq!(t.last_price.text, "0.0025");
            assert_eq!(t.open_price.text, "0.0010");
            assert_eq!(t.high_price.text, "0.0026");
            assert_eq!(t.low_price.text, "0.0009");
            assert_eq!(t.volume.text, "10000");
            assert_eq!(t.quote_volume.text, "18");
            assert_eq!(t.timestamp, 1672515782136);
        }
        other => panic!("unexpected events {:?}", other),
    }
    let book_ticker = handle_message(TOPIC, BOOK_TICKER, &config, &mut engine).unwrap();
    match &book_ticker[..] {
        [MarketData::BookTicker(t)] => {
            assert_eq!(t.best_bid_price.text, "25.35");
            assert_eq!(t.best_bid_qty.text, "31.21");
            assert_eq!(t.best_ask_price.text, "25.36");
            assert_eq!(t.best_ask_qty.text, "40.66");
        }
        other => panic!("unexpected events {:?}", other),
    }
    let liquidation = handle_message(TOPIC, FORCE_ORDER, &config, &mut engine).unwrap();
    match &liquidation[..] {
        [MarketData::Liquidation(l)] => {
            assert_eq!(l.side, TradeSide::Sell);
            assert_eq!(l.price.text, "9910");
            assert_eq!(l.quantity.text, "0.014");
        }
        other => panic!("unexpected events {:?}", other),
    }
    let bought = handle_message(TOPIC, FORCE_ORDER_BUY, &config, &mut engine).unwrap();
    match &bought[..] {
        [MarketData::Liquidation(l)] => assert_eq!(l.side, TradeSide::Buy),
        other => panic!("unexpected events {:?}", other),
    }
    assert_eq!(engine.get_recent_agg_trades(TOPIC).len(), 1);
    assert!(engine.get_ticker(TOPIC).is_some());
    assert!(engine.get_book_ticker(TOPIC).is_some());
    assert_eq!(engine.get_recent_liquidations(TOPIC).len(), 2);
}

#[test]
fn a_mark_price_frame_carries_the_funding_rate() {
    let mut engine = engine();
    let events = handle_message(TOPIC, MARK_PRICE, &everything(), &mut engine).unwrap();
    assert_eq!(families(&events), vec![Family::MarkPrice, Family::FundingRate]);
    let price = engine.get_mark_price(TOPIC).unwrap();
    assert_eq!(price.mark_price.text, "11794.15");
    assert_eq!(price.index_price.text, "11784.62");
    assert_eq!(price.next_funding_time, 1562306400000);
    let rate = engine.get_funding_rate(TOPIC).unwrap();
    assert_eq!(rate.rate.text, "0.00038167");
    assert_eq!(rate.time, 1562306400000);
    assert_eq!(rate.symbol, TOPIC);

    let mut only_rate = nothing();
    only_rate.funding_rate = true;
    let mut engine = self::engine();
    let events = handle_message(TOPIC, MARK_PRICE, &only_rate, &mut engine).unwrap();
    assert_eq!(families(&events), vec![Family::FundingRate]);
    assert!(engine.get_mark_price(TOPIC).is_none());
    assert!(engine.get_funding_rate(TOPIC).is_some());

    let mut only_price = nothing();
    only_price.mark_price = true;
    let mut engine = self::engine();
    let events = handle_message(TOPIC, MARK_PRICE, &only_price, &mut engine).unwrap();
    assert_eq!(families(&events), vec![Family::MarkPrice]);
    assert!(engine.get_funding_rate(TOPIC).is_none());
}

#[test]
fn filter_honesty_one_trade_and_no_order_book() {
    let mut config = nothing();
    config.raw_trades = true;
    let mut engine = engine();
    let mut published = Vec::new();
    for frame in [TRADE, DEPTH] {
        published.extend(handle_message(TOPIC, frame, &config, &mut engine).unwrap());
    }
    assert_eq!(families(&published), vec![Family::Trade]);
    assert_eq!(engine.get_order_book(TOPIC), None);
    assert_eq!(engine.get_recent_trades(TOPIC).len(), 1);
}

#[test]
fn a_configuration_that_asks_for_nothing_lets_nothing_through() {
    let config = nothing();
    let mut engine = engine();
    let frames = [
        TRADE, DEPTH, KLINE, AGG_TRADE, TICKER, BOOK_TICKER, MARK_PRICE, FORCE_ORDER, "not json",
    ];
    for frame in frames {
        assert_eq!(handle_message(TOPIC, frame, &config, &mut engine), Ok(vec![]));
    }
    assert!(engine.get_recent_trades(TOPIC).is_empty());
    assert!(engine.get_recent_candles(TOPIC).is_empty());
    assert!(engine.get_mark_price(TOPIC).is_none());
}

#[test]
fn candles_of_an_interval_that_is_not_listed_are_passed_over() {
    let mut config = nothing();
    config.kline_intervals = vec!["5m".to_string(), "1h".to_string()];
    let mut engine = engine();
    assert_eq!(handle_message(TOPIC, KLINE, &config, &mut engine), Ok(vec![]));
    assert!(engine.get_recent_candles(TOPIC).is_empty());
    config.kline_intervals.push("1m".to_string());
    assert_eq!(handle_message(TOPIC, KLINE, &config, &mut engine).unwrap().len(), 1);
}

#[test]
fn a_frame_that_is_not_json_is_malformed() {
    let mut engine = engine();
    let truncated = r#"{"e":"trade","t":1"#;
    assert_eq!(
        handle_message(TOPIC, truncated, &everything(), &mut engine),
        Err(DecodeError::Malformed)
    );
    assert!(engine.get_recent_trades(TOPIC).is_empty());
}

#[test]
fn a_frame_without_what_its_kind_needs_is_unexpected() {
    let mut engine = engine();
    let config = everything();
    let frames = [
        r#"{"e":"trade","t":1,"p":"1","q":"1","T":1}"#,
        r#"{"e":"trade","t":"1","p":"1","q":"1","T":1,"m":true}"#,
        r#"{"e":"trade","t":-1,"p":"1","q":"1","T":1,"m":true}"#,
        r#"{"e":"trade","t":1,"p":1.5,"q":"1","T":1,"m":true}"#,
        r#"[{"e":"trade"}]"#,
        r#"{"bids":[["1","2"]]}"#,
        r#"{"e":"kline","k":{"t":1}}"#,
        r#"{"e":"kline"}"#,
        r#"{"e":"aggTrade","a":1}"#,
        r#"{"e":"24hrTicker"}"#,
        r#"{"e":"bookTicker","b":"1"}"#,
        r#"{"e":"markPriceUpdate","p":"1","i":"1","T":5}"#,
        r#"{"e":"forceOrder","o":{"S":"SELL"}}"#,
    ];
    for frame in frames {
        assert_eq!(
            handle_message(TOPIC, frame, &config, &mut engine),
            Err(DecodeError::Unexpected),
            "{}",
            frame
        );
    }
    assert!(engine.get_recent_trades(TOPIC).is_empty());
    assert!(engine.get_order_book(TOPIC).is_none());
}

#[test]
fn members_that_are_not_read_are_ignored() {
    let json = parse(r#"{"t":5,"p":"1","q":"2","T":6,"m":false,"zzz":[1,{"a":null}]}"#).unwrap();
    let trade = decode_trade(&json, "X").unwrap();
    assert_eq!((trade.id, trade.timestamp_ms, trade.side), (5, 6, TradeSide::Buy));
    let kline = parse(KLINE).unwrap();
    assert_eq!(decode_kline(&kline, "X").unwrap().symbol, "X");
}

#[test]
fn a_parsed_frame_is_applied_only_where_its_kind_is_admitted() {
    let json = parse(TRADE).unwrap();
    let mut engine = engine();
    let mut config = nothing();
    assert!(!is_admitted(&config, FrameKind::Trade));
    assert_eq!(apply_frame(FrameKind::Trade, &json, TOPIC, &config, &mut engine), Ok(vec![]));
    config.raw_trades = true;
    assert!(is_admitted(&config, FrameKind::Trade));
    assert!(!is_admitted(&config, FrameKind::Other));
    let events = apply_frame(FrameKind::Trade, &json, TOPIC, &config, &mut engine).unwrap();
    assert_eq!(events.len(), 1);
    assert_eq!(
        apply_frame(FrameKind::Other, &json, TOPIC, &everything(), &mut engine),
        Ok(vec![])
    );
}

#[test]
fn every_event_carries_the_topic_it_is_kept_under() {
    let mut engine = engine();
    let config = everything();
    let frames =
        [TRADE, DEPTH, KLINE, AGG_TRADE, TICKER, BOOK_TICKER, MARK_PRICE, FORCE_ORDER];
    for frame in frames {
        for event in handle_message(TOPIC, frame, &config, &mut engine).unwrap() {
            assert_eq!(event.topic().map(|t| t.as_str()), Some(TOPIC));
        }
    }
    assert_eq!(engine.get_order_book(TOPIC).unwrap().symbol, TOPIC);
    assert_eq!(engine.get_recent_candles(TOPIC)[0].symbol, TOPIC);
    assert_eq!(engine.get_ticker(TOPIC).unwrap().symbol, TOPIC);
    assert_eq!(engine.get_book_ticker(TOPIC).unwrap().symbol, TOPIC);
    assert_eq!(engine.get_mark_price(TOPIC).unwrap().symbol, TOPIC);
    assert_eq!(engine.get_recent_liquidations(TOPIC)[0].symbol, TOPIC);
}

fn mock_connector_loop(symbol: &str, engine: &mut Engine, config: &StreamConfig) -> Vec<MarketData> {
    let mut published = Vec::new();
    if config.order_book {
        let book = OrderBook {
            symbol: symbol.to_string(),
            bids: vec![PriceLevel { price: Decimal::new("100.0"), quantity: Decimal::new("1.0") }],
            asks: vec![PriceLevel { price: Decimal::new("101.0"), quantity: Decimal::new("1.0") }],
            last_update_id: 12345,
        };
        published.push(engine.update_order_book(symbol.to_string(), book));
    }
    if config.raw_trades {
        let trade = Trade {
            id: 1,
            symbol: symbol.to_string(),
            price: Decimal::new("100.5"),
            quantity: Decimal::new("0.1"),
            timestamp_ms: 1670000000000,
            side: TradeSide::Buy,
        };
        published.push(engine.add_trade(symbol.to_string(), trade));
    }
    published
}

#[test]
fn test_verify_raw_trades_only_filter() {
    let mut engine = engine();
    let mut safe_config = nothing();
    safe_config.raw_trades = true;
    let published = mock_connector_loop("BTCUSDT", &mut engine, &safe_config);
    let received_trade = published.iter().any(|d| matches!(d, MarketData::Trade(_)));
    let received_ob = published.iter().any(|d| matches!(d, MarketData::OrderBook(_)));
    assert!(received_trade, "CRITICAL: Engine failed to broadcast requested Trade data.");
    assert!(
        !received_ob,
        "FATAL: Data Leak! Engine broadcasted OrderBook data despite 'order_book: false'."
    );
}

#[test]
fn test_verify_order_book_only_filter() {
    let mut engine = engine();
    let mut heavy_config = nothing();
    heavy_config.order_book = true;
    let published = mock_connector_loop("ETHUSDT", &mut engine, &heavy_config);
    let received_trade = published.iter().any(|d| matches!(d, MarketData::Trade(_)));
    let received_ob = published.iter().any(|d| matches!(d, MarketData::OrderBook(_)));
    assert!(received_ob, "CRITICAL: Engine failed to broadcast requested OrderBook.");
    assert!(
        !received_trade,
        "FATAL: Data Leak! Engine broadcasted Trade data despite 'raw_trades: false'."
    );
}

#[test]
fn test_engine_throughput() {
    let mut config = AppConfig::default();
    config.trade_history_limit = 100;
    config.candle_history_limit = 1000;
    let mut engine = Engine::new(&config);
    let total: u64 = 100_000;
    let mut published: usize = 0;
    for i in 0..total {
        let trade = Trade {
            id: i,
            symbol: "BENCHUSDT".to_string(),
            price: Decimal::new("50000.01"),
            quantity: Decimal::new("0.001"),
            timestamp_ms: 1670000000000 + i,
            side: if i % 2 == 0 { TradeSide::Buy } else { TradeSide::Sell },
        };
        if let MarketData::Trade(_) = engine.add_trade("BENCHUSDT".to_string(), trade) {
            published += 1;
        }
    }
    assert!(published > 0, "Consumer received zero messages. Broken pipe?");
    let kept = engine.get_recent_trades("BENCHUSDT");
    assert_eq!(kept.len(), 100);
    assert_eq!(kept[0].id, total - 100);
    assert_eq!(kept[99].id, total - 1);
}
