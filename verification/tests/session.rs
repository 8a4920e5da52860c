use ingestion_engine::command::{decode_command, decode_stream_config, parse_command};
use ingestion_engine::config::AppConfig;
use ingestion_engine::connector::LaunchError;
use ingestion_engine::engine::Engine;
use ingestion_engine::json::parse;
use ingestion_engine::models::{
    Candle, Command, CommandAction, Decimal, Exchange, Family, MarketData, MarketType, OrderBook,
    StreamConfig, Ticker, Trade, TradeSide,
};
use ingestion_engine::rest::HistoryError;
use ingestion_engine::session::{
    apply_history, complete_history, snapshot, ClientFrame, Delivery, HistoryRequest, Reply,
    Session,
};

const TOPIC: &str = "BINANCE_SPOT_BTCUSDT";

fn app() -> AppConfig {
    let mut config = AppConfig::default();
    config.trade_history_limit = 10;
    config.candle_history_limit = 10;
    config.server_history_fetch_limit = 3;
    config
}

fn trade(id: u64, topic: &str) -> Trade {
    Trade {
        id,
        symbol: topic.to_string(),
        price: Decimal::new("100.5"),
        quantity: Decimal::new("0.1"),
        timestamp_ms: 1670000000000 + id,
        side: TradeSide::Buy,
    }
}

fn book(id: u64, topic: &str) -> OrderBook {
    OrderBook { symbol: topic.to_string(), bids: vec![], asks: vec![], last_update_id: id }
}

fn candle(start: u64, interval: &str, topic: &str) -> Candle {
    Candle {
        symbol: topic.to_string(),
        interval: interval.to_string(),
        open: Decimal::new("1"),
        high: Decimal::new("2"),
        low: Decimal::new("0.5"),
        close: Decimal::new("1.5"),
        volume: Decimal::new("10"),
        start_time: start,
        close_time: start + 59,
        is_closed: true,
    }
}

fn families(events: &[MarketData]) -> Vec<Family> {
    events.iter().map(|e| e.family()).collect()
}

#[test]
fn subscribe_delivers_snapshot_and_live_update() {
    let app = app();
    let mut engine = Engine::new(&app);
    engine.update_order_book(TOPIC.to_string(), book(100, TOPIC));
    engine.add_trade(TOPIC.to_string(), trade(9, TOPIC));
    engine.add_trade(TOPIC.to_string(), trade(10, TOPIC));
    let mut session = Session::new();

    let live_before = engine.add_trade(TOPIC.to_string(), trade(11, TOPIC));
    assert_eq!(session.on_message(&live_before), Delivery::Skip);
    let mut engine = Engine::new(&app);
    engine.update_order_book(TOPIC.to_string(), book(100, TOPIC));
    engine.add_trade(TOPIC.to_string(), trade(9, TOPIC));
    engine.add_trade(TOPIC.to_string(), trade(10, TOPIC));

    let text = r#"{"action":"subscribe","channel":"BTCUSDT"}"#;
    let reply = session.on_client_text(text, &mut engine, &app, 1_700_000_000_000);
    match reply {
        Reply::Subscribed { launch, frames } => {
            let connector = launch.expect("first request of the topic").unwrap();
            assert_eq!(connector.unique_id(), TOPIC);
            assert_eq!(
                frames,
                vec![
                    MarketData::OrderBook(book(100, TOPIC)),
                    MarketData::Trade(trade(9, TOPIC)),
                    MarketData::Trade(trade(10, TOPIC)),
                ]
            );
        }
        other => panic!("unexpected reply {:?}", other),
    }
    assert!(session.is_subscribed(TOPIC));
    assert!(engine.is_active(TOPIC));

    let live = engine.add_trade(TOPIC.to_string(), trade(11, TOPIC));
    assert_eq!(session.on_message(&live), Delivery::Forward);
    let elsewhere = engine.add_trade("BINANCE_SPOT_ETHUSDT".to_string(), trade(1, "BINANCE_SPOT_ETHUSDT"));
    assert_eq!(session.on_message(&elsewhere), Delivery::Skip);
}

#[test]
fn a_second_subscriber_launches_nothing() {
    let app = app();
    let mut engine = Engine::new(&app);
    let text = r#"{"action":"subscribe","channel":"btcusdt","exchange":"BINANCE","market_type":"SPOT"}"#;
    let mut first = Session::new();
    let mut second = Session::new();
    match first.on_client_text(text, &mut engine, &app, 0) {
        Reply::Subscribed { launch, frames } => {
            assert!(launch.is_some());
            assert!(frames.is_empty());
        }
        other => panic!("unexpected reply {:?}", other),
    }
    match second.on_client_text(text, &mut engine, &app, 0) {
        Reply::Subscribed { launch, .. } => assert!(launch.is_none()),
        other => panic!("unexpected reply {:?}", other),
    }
    assert!(second.is_subscribed(TOPIC));
}

#[test]
fn a_launch_uses_the_clients_configuration_or_the_default() {
    let app = app();
    let mut engine = Engine::new(&app);
    let mut session = Session::new();
    let own = r#"{"action":"subscribe","channel":"BTCUSDT","market_type":"LINEAR_FUTURE","config":{"raw_trades":false,"agg_trades":true,"order_book":false,"kline_intervals":["5m"],"mark_price":true,"greeks":true}}"#;
    match session.on_client_text(own, &mut engine, &app, 0) {
        Reply::Subscribed { launch, .. } => {
            let connector = launch.unwrap().unwrap();
            assert_eq!(connector.unique_id(), "BINANCE_LINEARFUTURE_BTCUSDT");
            let expected = StreamConfig {
                raw_trades: false,
                agg_trades: true,
                order_book: false,
                kline_intervals: vec!["5m".to_string()],
                ticker: false,
                book_ticker: false,
                mark_price: true,
                index_price: false,
                liquidation: false,
                funding_rate: false,
                open_interest: false,
                greeks: false,
            };
            assert_eq!(connector.config(), &expected);
        }
        other => panic!("unexpected reply {:?}", other),
    }
    let default = r#"{"action":"subscribe","channel":"ETHUSDT"}"#;
    match session.on_client_text(default, &mut engine, &app, 0) {
        Reply::Subscribed { launch, .. } => {
            let connector = launch.unwrap().unwrap();
            assert_eq!(connector.config(), &app.get_stream_config());
        }
        other => panic!("unexpected reply {:?}", other),
    }
    let no_connector = r#"{"action":"subscribe","channel":"ETHUSDT","exchange":"BYBIT"}"#;
    match session.on_client_text(no_connector, &mut engine, &app, 0) {
        Reply::Subscribed { launch, .. } => {
            assert_eq!(launch.unwrap().unwrap_err(), LaunchError::UnsupportedExchange);
        }
        other => panic!("unexpected reply {:?}", other),
    }
    assert!(session.is_subscribed("BYBIT_SPOT_ETHUSDT"));
}

#[test]
fn the_snapshot_burst_is_in_order_and_ends_with_the_history() {
    let app = app();
    let mut engine = Engine::new(&app);
    let ticker = Ticker {
        symbol: TOPIC.to_string(),
        price_change: Decimal::new("1"),
        price_change_percent: Decimal::new("2"),
        last_price: Decimal::new("3"),
        open_price: Decimal::new("4"),
        high_price: Decimal::new("5"),
        low_price: Decimal::new("6"),
        volume: Decimal::new("7"),
        quote_volume: Decimal::new("8"),
        timestamp: 9,
    };
    engine.update_ticker(TOPIC.to_string(), ticker);
    for start in [100u64, 200, 300, 400, 500] {
        engine.add_candle(TOPIC.to_string(), candle(start, "1m", TOPIC));
    }
    engine.add_trade(TOPIC.to_string(), trade(1, TOPIC));
    let frames = snapshot(&engine, TOPIC, 450, 3);
    assert_eq!(
        families(&frames),
        vec![
            Family::Trade,
            Family::Candle,
            Family::Candle,
            Family::Candle,
            Family::Candle,
            Family::Candle,
            Family::Ticker,
            Family::HistoricalCandles,
        ]
    );
    match frames.last() {
        Some(MarketData::HistoricalCandles(candles)) => {
            let starts: Vec<u64> = candles.iter().map(|c| c.start_time).collect();
            assert_eq!(starts, vec![200, 300, 400]);
        }
        other => panic!("unexpected frame {:?}", other),
    }
    assert!(snapshot(&engine, "BINANCE_SPOT_ETHUSDT", 450, 3).is_empty());
    let early = snapshot(&engine, TOPIC, 100, 3);
    assert_eq!(early.len(), 7);
    assert_eq!(early.last().map(|f| f.family()), Some(Family::Ticker));
}

#[test]
fn unsubscribe_then_subscribe_is_subscribe() {
    let app = app();
    let subscribe = r#"{"action":"subscribe","channel":"BTCUSDT"}"#;
    let unsubscribe = r#"{"action":"unsubscribe","channel":"BTCUSDT"}"#;

    let mut engine = Engine::new(&app);
    let mut session = Session::new();
    session.on_client_text(subscribe, &mut engine, &app, 0);
    assert!(matches!(
        session.on_client_text(unsubscribe, &mut engine, &app, 0),
        Reply::Unsubscribed
    ));
    assert!(!session.is_subscribed(TOPIC));
    let event = MarketData::Trade(trade(1, TOPIC));
    assert_eq!(session.on_message(&event), Delivery::Skip);
    session.on_client_text(subscribe, &mut engine, &app, 0);

    let mut fresh_engine = Engine::new(&app);
    let mut fresh = Session::new();
    fresh.on_client_text(subscribe, &mut fresh_engine, &app, 0);

    for topic in [TOPIC, "BINANCE_SPOT_ETHUSDT", "BTCUSDT"] {
        assert_eq!(session.is_subscribed(topic), fresh.is_subscribed(topic));
        assert_eq!(engine.is_active(topic), fresh_engine.is_active(topic));
    }
    assert_eq!(session.on_message(&event), Delivery::Forward);
    assert!(engine.is_active(TOPIC));
}

#[test]
fn unsubscribing_from_what_was_never_subscribed_changes_nothing() {
    let app = app();
    let mut engine = Engine::new(&app);
    let mut session = Session::new();
    let unsubscribe = r#"{"action":"unsubscribe","channel":"BTCUSDT"}"#;
    assert!(matches!(
        session.on_client_text(unsubscribe, &mut engine, &app, 0),
        Reply::Unsubscribed
    ));
    assert!(!session.is_subscribed(TOPIC));
    assert!(!engine.is_active(TOPIC));
}

#[test]
fn a_lagging_subscriber_stays_connected() {
    let app = app();
    let mut engine = Engine::new(&app);
    let mut session = Session::new();
    session.on_client_text(r#"{"action":"subscribe","channel":"BTCUSDT"}"#, &mut engine, &app, 0);
    for skipped in [1u64, 5000, 5001, u64::MAX] {
        assert_eq!(session.on_lagged(skipped), Delivery::Skip);
    }
    assert!(session.is_subscribed(TOPIC));
    let event = MarketData::Trade(trade(1, TOPIC));
    assert_eq!(session.on_message(&event), Delivery::Forward);
    assert_eq!(session.on_closed(), Delivery::End);
}

#[test]
fn a_history_envelope_is_never_forwarded() {
    let app = app();
    let mut engine = Engine::new(&app);
    let mut session = Session::new();
    session.on_client_text(r#"{"action":"subscribe","channel":"BTCUSDT"}"#, &mut engine, &app, 0);
    let envelope = MarketData::HistoricalCandles(vec![candle(1, "1m", TOPIC)]);
    assert_eq!(session.on_message(&envelope), Delivery::Skip);
    assert_eq!(envelope.topic(), None);
}

#[test]
fn anything_but_a_text_frame_ends_the_session() {
    let session = Session::new();
    assert_eq!(session.on_client_frame(ClientFrame::Text), Delivery::Skip);
    assert_eq!(session.on_client_frame(ClientFrame::Other), Delivery::End);
}

#[test]
fn a_text_that_is_no_command_is_passed_over() {
    let app = app();
    let mut engine = Engine::new(&app);
    let mut session = Session::new();
    let texts = [
        "",
        "subscribe",
        "{",
        "[]",
        r#"{"action":"subscribe"}"#,
        r#"{"channel":"BTCUSDT"}"#,
        r#"{"action":"Subscribe","channel":"BTCUSDT"}"#,
        r#"{"action":"resubscribe","channel":"BTCUSDT"}"#,
        r#"{"action":"subscribe","channel":7}"#,
        r#"{"action":"subscribe","channel":"BTCUSDT","exchange":"binance"}"#,
        r#"{"action":"subscribe","channel":"BTCUSDT","exchange":null}"#,
        r#"{"action":"subscribe","channel":"BTCUSDT","market_type":"FUTURE"}"#,
        r#"{"action":"subscribe","channel":"BTCUSDT","end_time":"5"}"#,
        r#"{"action":"subscribe","channel":"BTCUSDT","end_time":-5}"#,
        r#"{"action":"subscribe","channel":"BTCUSDT","config":{}}"#,
        r#"{"action":"subscribe","channel":"BTCUSDT","config":{"raw_trades":true,"agg_trades":true,"order_book":true,"kline_intervals":[1]}}"#,
        r#"{"action":"subscribe","channel":"BTCUSDT","config":{"raw_trades":true,"agg_trades":true,"order_book":true,"kline_intervals":[],"ticker":null}}"#,
    ];
    for text in texts {
        assert!(parse_command(text).is_none(), "{}", text);
        assert!(matches!(session.on_client_text(text, &mut engine, &app, 0), Reply::Ignored));
    }
    assert!(!session.is_subscribed(TOPIC));
    assert!(!engine.is_active(TOPIC));
}

#[test]
fn a_command_is_read_with_its_defaults() {
    let command = parse_command(r#"{"action":"fetchhistory","channel":"BTCUSDT"}"#).unwrap();
    assert_eq!(
        command,
        Command {
            action: CommandAction::FetchHistory,
            channel: "BTCUSDT".to_string(),
            exchange: Exchange::Binance,
            market_type: MarketType::Spot,
            end_time: None,
            config: None,
        }
    );
    let full = r#"{"action":"unsubscribe","channel":"ethusdt","exchange":"COINBASE","market_type":"INVERSE_FUTURE","end_time":1700000000000,"config":null,"extra":1}"#;
    let command = decode_command(&parse(full).unwrap()).unwrap();
    assert_eq!(command.action, CommandAction::Unsubscribe);
    assert_eq!(command.channel, "ethusdt");
    assert_eq!(command.exchange, Exchange::Coinbase);
    assert_eq!(command.market_type, MarketType::InverseFuture);
    assert_eq!(command.end_time, Some(1700000000000));
    assert_eq!(command.config, None);
    for (word, market) in [
        ("SPOT", MarketType::Spot),
        ("LINEAR_FUTURE", MarketType::LinearFuture),
        ("INVERSE_FUTURE", MarketType::InverseFuture),
        ("OPTION", MarketType::Option),
    ] {
        let text = format!(r#"{{"action":"subscribe","channel":"X","market_type":"{}"}}"#, word);
        assert_eq!(parse_command(&text).unwrap().market_type, market);
    }
    for (word, exchange) in [
        ("BINANCE", Exchange::Binance),
        ("BYBIT", Exchange::Bybit),
        ("COINBASE", Exchange::Coinbase),
    ] {
        let text = format!(r#"{{"action":"subscribe","channel":"X","exchange":"{}"}}"#, word);
        assert_eq!(parse_command(&text).unwrap().exchange, exchange);
    }
}

#[test]
fn a_stream_configuration_is_read_with_its_defaults() {
    let json = parse(
        r#"{"raw_trades":true,"agg_trades":false,"order_book":false,"kline_intervals":[]}"#,
    )
    .unwrap();
    let config = decode_stream_config(&json).unwrap();
    assert_eq!(
        config,
        StreamConfig {
            raw_trades: true,
            agg_trades: false,
            order_book: false,
            kline_intervals: vec![],
            ticker: false,
            book_ticker: false,
            mark_price: false,
            index_price: false,
            liquidation: false,
            funding_rate: false,
            open_interest: false,
            greeks: false,
        }
    );
    let json = parse(
        r#"{"raw_trades":false,"agg_trades":false,"order_book":false,"kline_intervals":["1m","1d"],"ticker":true,"book_ticker":true,"mark_price":true,"index_price":true,"liquidation":true,"funding_rate":true,"open_interest":true,"greeks":true}"#,
    )
    .unwrap();
    let config = decode_stream_config(&json).unwrap();
    assert_eq!(config.kline_intervals, vec!["1m", "1d"]);
    assert!(config.ticker && config.book_ticker && config.mark_price && config.index_price);
    assert!(config.liquidation && config.funding_rate && config.open_interest && config.greeks);
    assert!(decode_stream_config(&parse("[]").unwrap()).is_none());
}

#[test]
fn fetch_history_asks_for_the_first_interval_or_one_minute() {
    let app = app();
    let mut engine = Engine::new(&app);
    let mut session = Session::new();
    let plain = r#"{"action":"fetchhistory","channel":"btcusdt","market_type":"LINEAR_FUTURE"}"#;
    match session.on_client_text(plain, &mut engine, &app, 0) {
        Reply::FetchHistory(request) => {
            assert_eq!(
                request,
                HistoryRequest {
                    unique_id: "BINANCE_LINEARFUTURE_BTCUSDT".to_string(),
                    symbol: "btcusdt".to_string(),
                    market_type: MarketType::LinearFuture,
                    interval: "1m".to_string(),
                    limit: 3,
                }
            );
            assert_eq!(
                request.url().unwrap(),
                "https://fapi.binance.com/fapi/v1/klines?symbol=BTCUSDT&interval=1m&limit=3"
            );
        }
        other => panic!("unexpected reply {:?}", other),
    }
    let with = r#"{"action":"fetchhistory","channel":"BTCUSDT","config":{"raw_trades":true,"agg_trades":true,"order_book":true,"kline_intervals":["4h","1d"]}}"#;
    match session.on_client_text(with, &mut engine, &app, 0) {
        Reply::FetchHistory(request) => assert_eq!(request.interval, "4h"),
        other => panic!("unexpected reply {:?}", other),
    }
    let without = r#"{"action":"fetchhistory","channel":"BTCUSDT","config":{"raw_trades":true,"agg_trades":true,"order_book":true,"kline_intervals":[]}}"#;
    match session.on_client_text(without, &mut engine, &app, 0) {
        Reply::FetchHistory(request) => assert_eq!(request.interval, "1m"),
        other => panic!("unexpected reply {:?}", other),
    }
    assert!(!session.is_subscribed(TOPIC));
    assert!(!engine.is_active(TOPIC));
}

fn request() -> HistoryRequest {
    HistoryRequest {
        unique_id: TOPIC.to_string(),
        symbol: "BTCUSDT".to_string(),
        market_type: MarketType::Spot,
        interval: "1m".to_string(),
        limit: 1000,
    }
}

#[test]
fn fetched_history_is_loaded_and_handed_back_without_broadcast() {
    let app = app();
    let mut engine = Engine::new(&app);
    let body = r#"[[300,"3","3.5","2.5","3.2","30",359,"x",1],[100,"1","1.5","0.5","1.2","10",159],[200,"2","2.5","1.5","2.2","20",259]]"#;
    let reply = complete_history(&request(), body, &mut engine).unwrap();
    let candles = match reply {
        MarketData::HistoricalCandles(candles) => candles,
        other => panic!("unexpected reply {:?}", other),
    };
    let starts: Vec<u64> = candles.iter().map(|c| c.start_time).collect();
    assert_eq!(starts, vec![300, 100, 200]);
    assert!(candles.iter().all(|c| c.symbol == TOPIC && c.interval == "1m" && c.is_closed));
    let kept: Vec<u64> =
        engine.get_recent_candles(TOPIC).iter().map(|c| c.start_time).collect();
    assert_eq!(kept, vec![100, 200, 300]);
    assert!(!engine.is_active(TOPIC));
}

#[test]
fn a_refused_answer_changes_nothing() {
    let app = app();
    let mut engine = Engine::new(&app);
    engine.add_candle(TOPIC.to_string(), candle(500, "1m", TOPIC));
    engine.add_candle(TOPIC.to_string(), candle(400, "1m", TOPIC));
    let refused = [
        ("not json", HistoryError::Malformed),
        (r#"{"code":-1121,"msg":"Invalid symbol."}"#, HistoryError::InvalidResponse),
        (r#"[[100,"1","1","1","1","1",159],5]"#, HistoryError::InvalidCandle),
    ];
    for (body, error) in refused {
        assert_eq!(complete_history(&request(), body, &mut engine), Err(error));
    }
    let empty = complete_history(&request(), "[]", &mut engine);
    assert_eq!(empty, Ok(MarketData::HistoricalCandles(vec![])));
    let kept: Vec<u64> =
        engine.get_recent_candles(TOPIC).iter().map(|c| c.start_time).collect();
    assert_eq!(kept, vec![500, 400]);
    let json = parse(r#"[[1,2,3]]"#).unwrap();
    assert_eq!(
        apply_history(&request(), &json, &mut engine),
        Ok(MarketData::HistoricalCandles(vec![]))
    );
}
