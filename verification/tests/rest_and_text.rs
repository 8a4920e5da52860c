use ingestion_engine::json::{parse, Json, JsonNumber};
use ingestion_engine::models::{
    default_exchange, default_market, Decimal, Exchange, MarketData, MarketType, Trade, TradeSide,
};
use ingestion_engine::rest::{
    compose_history_url, get_client, history_url, parse_kline_array, HistoryError, RestClient,
};
use ingestion_engine::simulator::FrontendSimulator;
use ingestion_engine::text::{decimal, joined_id, parse_u64, unique_id};
use ingestion_engine::topics::TopicSet;

#[test]
fn decimal_digits() {
    assert_eq!(decimal(0), "0");
    assert_eq!(decimal(7), "7");
    assert_eq!(decimal(10), "10");
    assert_eq!(decimal(1000), "1000");
    assert_eq!(decimal(1234567890), "1234567890");
    assert_eq!(decimal(u64::MAX), "18446744073709551615");
}

#[test]
fn digits_are_read_back() {
    assert_eq!(parse_u64("0"), Some(0));
    assert_eq!(parse_u64("7"), Some(7));
    assert_eq!(parse_u64("007"), Some(7));
    assert_eq!(parse_u64("1499040000000"), Some(1499040000000));
    assert_eq!(parse_u64("18446744073709551615"), Some(u64::MAX));
    assert_eq!(parse_u64("18446744073709551616"), None);
    assert_eq!(parse_u64("99999999999999999999999"), None);
    assert_eq!(parse_u64(""), None);
    assert_eq!(parse_u64("+7"), None);
    assert_eq!(parse_u64("-7"), None);
    assert_eq!(parse_u64(" 7"), None);
    assert_eq!(parse_u64("7.0"), None);
    assert_eq!(parse_u64("1e3"), None);
    assert_eq!(parse_u64("１２"), None);
    for n in [0u64, 9, 10, 99, 100, 12345, u64::MAX - 1, u64::MAX] {
        assert_eq!(parse_u64(&decimal(n)), Some(n));
    }
}

#[test]
fn times_may_come_as_digits_in_a_string() {
    let json = parse(r#"[["1499040000000","1","2","3","4","5","1499644799999"],["x",1,2,3,4,5,"-1"]]"#)
        .unwrap();
    let candles = parse_kline_array("T", "1m", &json).unwrap();
    assert_eq!(candles[0].start_time, 1499040000000);
    assert_eq!(candles[0].close_time, 1499644799999);
    assert_eq!(candles[1].start_time, 0);
    assert_eq!(candles[1].close_time, 0);
    assert_eq!(candles[1].open.text, "1");
}

#[test]
fn topic_ids_are_upper_cased_as_a_whole() {
    assert_eq!(unique_id(Exchange::Binance, MarketType::Spot, "btcusdt"), "BINANCE_SPOT_BTCUSDT");
    assert_eq!(
        unique_id(Exchange::Binance, MarketType::LinearFuture, "EthUsdt"),
        "BINANCE_LINEARFUTURE_ETHUSDT"
    );
    assert_eq!(
        unique_id(Exchange::Bybit, MarketType::InverseFuture, "BTCUSD"),
        "BYBIT_INVERSEFUTURE_BTCUSD"
    );
    assert_eq!(unique_id(Exchange::Coinbase, MarketType::Option, ""), "COINBASE_OPTION_");
    assert_eq!(unique_id(Exchange::Binance, MarketType::Spot, "straße"), "BINANCE_SPOT_STRASSE");
}

#[test]
fn venues_and_market_types_have_names() {
    assert_eq!(Exchange::Binance.to_string(), "Binance");
    assert_eq!(Exchange::Bybit.to_string(), "Bybit");
    assert_eq!(Exchange::Coinbase.to_string(), "Coinbase");
    assert_eq!(MarketType::Spot.to_string(), "Spot");
    assert_eq!(MarketType::LinearFuture.to_string(), "LinearFuture");
    assert_eq!(MarketType::InverseFuture.to_string(), "InverseFuture");
    assert_eq!(MarketType::Option.to_string(), "Option");
    assert_eq!(default_exchange(), Exchange::Binance);
    assert_eq!(default_market(), MarketType::Spot);
}

#[test]
fn history_urls() {
    assert_eq!(
        history_url("btcusdt", MarketType::Spot, "1m", 1000).unwrap(),
        "https://api.binance.com/api/v3/klines?symbol=BTCUSDT&interval=1m&limit=1000"
    );
    assert_eq!(
        history_url("BTCUSDT", MarketType::LinearFuture, "4h", 5).unwrap(),
        "https://fapi.binance.com/fapi/v1/klines?symbol=BTCUSDT&interval=4h&limit=5"
    );
    assert_eq!(
        history_url("btcusd_perp", MarketType::InverseFuture, "1d", 0).unwrap(),
        "https://dapi.binance.com/dapi/v1/klines?symbol=BTCUSD_PERP&interval=1d&limit=0"
    );
    assert_eq!(
        history_url("BTCUSDT", MarketType::Option, "1m", 10),
        Err(HistoryError::UnsupportedMarket)
    );
}

#[test]
fn a_history_url_is_composed_around_the_symbol_as_given() {
    assert_eq!(
        compose_history_url("btcUSDT", MarketType::Spot, "1m", 7).unwrap(),
        "https://api.binance.com/api/v3/klines?symbol=btcUSDT&interval=1m&limit=7"
    );
    assert_eq!(
        compose_history_url("X", MarketType::Option, "1m", 7),
        Err(HistoryError::UnsupportedMarket)
    );
    assert_eq!(joined_id(Exchange::Binance, MarketType::Spot, "btcusdt"), "Binance_Spot_btcusdt");
    assert_eq!(
        joined_id(Exchange::Coinbase, MarketType::InverseFuture, ""),
        "Coinbase_InverseFuture_"
    );
}

#[test]
fn history_errors_have_words() {
    assert_eq!(HistoryError::UnsupportedMarket.to_string(), "Unsupported market type for REST");
    assert_eq!(HistoryError::Malformed.to_string(), "JSON Parse Error");
    assert_eq!(
        HistoryError::InvalidResponse.to_string(),
        "Invalid response format: Expected array"
    );
    assert_eq!(HistoryError::InvalidCandle.to_string(), "Invalid candle format");
}

#[test]
fn only_the_first_venue_has_a_history_client() {
    assert_eq!(get_client(Exchange::Binance), Some(RestClient::Binance));
    assert_eq!(get_client(Exchange::Bybit), None);
    assert_eq!(get_client(Exchange::Coinbase), None);
}

#[test]
fn klines_are_read_tolerantly() {
    let body = r#"[
        [1499040000000,"0.01634790","0.80000000","0.01575800","0.01577100","148976.11427815",1499644799999,"2434.19055334",308,"1756.87402397","28.46694368","0"],
        [1,2,"x",true,null,1.5,"7"],
        [5,"1","2","3","4","5"],
        [],
        [-3,"1","2","3","4","5",2.5,0]
    ]"#;
    let json = parse(body).unwrap();
    let candles = parse_kline_array("T", "1m", &json).unwrap();
    assert_eq!(candles.len(), 3);
    let first = &candles[0];
    assert_eq!(first.symbol, "T");
    assert_eq!(first.interval, "1m");
    assert_eq!(first.start_time, 1499040000000);
    assert_eq!(first.open.text, "0.01634790");
    assert_eq!(first.high.text, "0.80000000");
    assert_eq!(first.low.text, "0.01575800");
    assert_eq!(first.close.text, "0.01577100");
    assert_eq!(first.volume.text, "148976.11427815");
    assert_eq!(first.close_time, 1499644799999);
    assert!(first.is_closed);
    let second = &candles[1];
    assert_eq!(second.start_time, 1);
    assert_eq!(second.open.text, "2");
    assert_eq!(second.high.text, "x");
    assert_eq!(second.low.text, "0");
    assert_eq!(second.close.text, "0");
    assert_eq!(second.volume.text, "1.5");
    assert_eq!(second.close_time, 7);
    let third = &candles[2];
    assert_eq!(third.start_time, 0);
    assert_eq!(third.close_time, 0);
}

#[test]
fn an_answer_that_is_no_array_of_arrays_is_refused() {
    for body in ["{}", "null", "5", r#""[]""#] {
        let json = parse(body).unwrap();
        assert_eq!(parse_kline_array("T", "1m", &json), Err(HistoryError::InvalidResponse));
    }
    for body in ["[1]", r#"[[1,2,3,4,5,6,7],"x"]"#, "[[],{}]", "[null]"] {
        let json = parse(body).unwrap();
        assert_eq!(parse_kline_array("T", "1m", &json), Err(HistoryError::InvalidCandle));
    }
    assert_eq!(parse_kline_array("T", "1m", &parse("[]").unwrap()), Ok(vec![]));
    assert_eq!(parse_kline_array("T", "1m", &parse("[[1,2,3,4,5,6]]").unwrap()), Ok(vec![]));
}

#[test]
fn json_is_copied_node_for_node() {
    let json = parse(r#"{"b":[1,-2,2.5,"x",true,null,{}],"a":18446744073709551615}"#).unwrap();
    let number = |unsigned: Option<u64>, text: &str| {
        Json::Number(JsonNumber { unsigned, text: text.to_string() })
    };
    assert_eq!(json.get("a"), Some(&number(Some(u64::MAX), "18446744073709551615")));
    assert_eq!(
        json.get("b"),
        Some(&Json::Array(vec![
            number(Some(1), "1"),
            number(None, "-2"),
            number(None, "2.5"),
            Json::Str("x".to_string()),
            Json::Bool(true),
            Json::Null,
            Json::Object(vec![]),
        ]))
    );
    assert_eq!(json.get("c"), None);
    assert_eq!(json.get("a").unwrap().as_u64(), Some(u64::MAX));
    assert_eq!(json.u64_field("a"), Some(u64::MAX));
    assert_eq!(json.u64_field("b"), None);
    assert_eq!(json.str_field("a"), None);
    assert_eq!(json.bool_field("a"), None);
    assert!(json.as_array().is_none());
    assert!(Json::Null.is_null());
    assert!(!json.is_null());
    assert_eq!(Json::Str("s".to_string()).as_str(), Some(&"s".to_string()));
    assert_eq!(Json::Bool(false).as_bool(), Some(false));
    assert_eq!(Json::Null.get("a"), None);
    assert_eq!(parse(r#"{"a":1,"a":2}"#).unwrap().u64_field("a"), Some(2));
    assert_eq!(parse(""), None);
    assert_eq!(parse("{"), None);
    assert_eq!(parse("1 2"), None);
}

#[test]
fn a_topic_set_holds_each_topic_once() {
    let mut set = TopicSet::new();
    assert!(!set.contains("A"));
    assert!(set.insert("A".to_string()));
    assert!(!set.insert("A".to_string()));
    assert!(set.insert("a".to_string()));
    assert!(set.contains("A") && set.contains("a") && !set.contains(""));
    set.remove("A");
    assert!(!set.contains("A") && set.contains("a"));
    set.remove("A");
    set.remove("zzz");
    assert!(set.contains("a"));
    assert!(set.insert("A".to_string()));
}

fn trade_event(id: u64) -> MarketData {
    MarketData::Trade(Trade {
        id,
        symbol: "SOLUSDT".to_string(),
        price: Decimal::new("150.0"),
        quantity: Decimal::new("10.0"),
        timestamp_ms: 1000,
        side: TradeSide::Buy,
    })
}

#[test]
fn test_simulator_logic() {
    let mut sim = FrontendSimulator::new();
    let data = trade_event(100);
    sim.process(&data, 1_700_000_000_000);
    let count = sim.event_counter;
    assert_eq!(count, 1, "Simulator should have counted 1 event");
}

#[test]
fn the_simulator_shows_one_event_of_a_family_every_ten_seconds() {
    let mut sim = FrontendSimulator::new();
    assert_eq!(sim, FrontendSimulator {
        event_counter: 0,
        last_trade_print: 0,
        last_agg_trade_print: 0,
        last_book_print: 0,
        last_candle_print: 0,
    });
    let data = trade_event(1);
    assert!(!sim.process(&data, 10_000));
    assert!(sim.process(&data, 10_001));
    assert_eq!(sim.last_trade_print, 10_001);
    assert!(!sim.process(&data, 20_001));
    assert!(!sim.process(&data, 5));
    assert!(sim.process(&data, 20_002));
    assert_eq!(sim.last_trade_print, 20_002);
    assert_eq!(sim.event_counter, 5);
    assert_eq!(sim.last_book_print, 0);
    let envelope = MarketData::HistoricalCandles(vec![]);
    assert!(!sim.process(&envelope, u64::MAX));
    assert_eq!(sim.event_counter, 6);
    sim.last_trade_print = u64::MAX - 5;
    assert!(!sim.process(&data, u64::MAX));
    sim.event_counter = u64::MAX;
    sim.process(&data, 0);
    assert_eq!(sim.event_counter, 0);
}
