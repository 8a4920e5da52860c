//! Composition of a connector's stream URL from its configuration.
//!
//! One stream is named for each family the sanitized configuration asks for,
//! and one for each candle interval it lists; the names, joined by `/`,
//! follow the base URL of the market type. A family that is switched off
//! names no stream, so the venue is never asked for it.

use vstd::prelude::*;
use vstd::string::StringExecFns;
use crate::config::AppConfig;
use crate::models::{texts, MarketType, StreamConfig, StreamConfigView};
use crate::text::{lowercase, to_lowercase};

verus! {

/// The parts joined into one text, with the separator between neighbours.
pub open spec fn joined(parts: Seq<Seq<char>>, separator: Seq<char>) -> Seq<char>
    decreases parts.len(),
{
    if parts.len() == 0 {
        Seq::empty()
    } else if parts.len() == 1 {
        parts[0]
    } else {
        joined(parts.drop_last(), separator) + separator + parts.last()
    }
}

/// Joins the parts into one text, with the separator between neighbours.
pub fn join(parts: &Vec<String>, separator: &str) -> (text: String)
    ensures
        text@ == joined(texts(parts@), separator@),
{
    let mut text = String::new();
    let ghost all = texts(parts@);
    let mut i: usize = 0;
    while i < parts.len()
        invariant
            i <= parts@.len(),
            all == texts(parts@),
            text@ == joined(all.subrange(0, i as int), separator@),
        decreases parts@.len() - i,
    {
        proof {
            let next = all.subrange(0, i + 1);
            assert(next.drop_last() == all.subrange(0, i as int));
            assert(next.last() == parts@[i as int]@);
            if i == 0 {
                assert(text@ =~= Seq::<char>::empty());
            }
        }
        if i > 0 {
            text.append(separator);
        }
        text.append(parts[i].as_str());
        proof {
            if i == 0 {
                assert(text@ =~= parts@[0]@);
            }
        }
        i = i + 1;
    }
    proof {
        assert(all.subrange(0, i as int) == all);
    }
    text
}

/// One stream name where the family is switched on, none where it is off.
pub open spec fn optional(enabled: bool, name: Seq<char>) -> Seq<Seq<char>> {
    if enabled {
        seq![name]
    } else {
        Seq::empty()
    }
}

/// The candle stream of each interval, in the order the intervals are listed.
pub open spec fn kline_streams(symbol: Seq<char>, intervals: Seq<Seq<char>>) -> Seq<Seq<char>> {
    Seq::new(intervals.len(), |i: int| symbol + "@kline_"@ + intervals[i])
}

/// The names of the streams a configuration asks for, for the lower-case
/// symbol `symbol` and the partial-depth level count `depth`.
pub open spec fn stream_names(symbol: Seq<char>, config: StreamConfigView, depth: Seq<char>) -> Seq<
    Seq<char>,
> {
    optional(config.order_book, symbol + "@depth"@ + depth) + optional(
        config.raw_trades,
        symbol + "@trade"@,
    ) + optional(config.agg_trades, symbol + "@aggTrade"@) + kline_streams(
        symbol,
        config.kline_intervals,
    ) + optional(config.ticker, symbol + "@ticker"@) + optional(
        config.book_ticker,
        symbol + "@bookTicker"@,
    ) + optional(config.mark_price, symbol + "@markPrice"@) + optional(
        config.liquidation,
        symbol + "@forceOrder"@,
    )
}

/// The URL of the combined stream.
pub open spec fn stream_url(base: Seq<char>, names: Seq<Seq<char>>) -> Seq<char> {
    base + "/"@ + joined(names, "/"@)
}

/// The base URL of a market type's stream endpoint; an option market has none.
pub open spec fn stream_base(config: AppConfig, market_type: MarketType) -> Option<Seq<char>> {
    match market_type {
        MarketType::Spot => Some(config.binance_spot_ws_url@),
        MarketType::LinearFuture => Some(config.binance_linear_future_ws_url@),
        MarketType::InverseFuture => Some(config.binance_inverse_future_ws_url@),
        MarketType::Option => None,
    }
}

/// The base URL of a market type's stream endpoint.
pub fn select_base(config: &AppConfig, market_type: MarketType) -> (base: Option<String>)
    ensures
        match base {
            Some(b) => stream_base(*config, market_type) == Some(b@),
            None => stream_base(*config, market_type).is_none(),
        },
{
    match market_type {
        MarketType::Spot => Some(config.binance_spot_ws_url.clone()),
        MarketType::LinearFuture => Some(config.binance_linear_future_ws_url.clone()),
        MarketType::InverseFuture => Some(config.binance_inverse_future_ws_url.clone()),
        MarketType::Option => None,
    }
}

fn stream(symbol: &str, suffix: &str) -> (name: String)
    ensures
        name@ == symbol@ + suffix@,
{
    let mut name = symbol.to_owned();
    name.append(suffix);
    name
}

/// Adds `name` to the names where the family is switched on.
fn push_optional(names: &mut Vec<String>, enabled: bool, name: String)
    ensures
        texts(final(names)@) == texts(old(names)@) + optional(enabled, name@),
{
    if enabled {
        names.push(name);
    }
    assert(texts(names@) =~= texts(old(names)@) + optional(enabled, name@));
}

/// Adds the candle stream of each interval to the names.
fn push_klines(names: &mut Vec<String>, symbol: &str, intervals: &Vec<String>)
    ensures
        texts(final(names)@) == texts(old(names)@) + kline_streams(symbol@, texts(intervals@)),
{
    let ghost before = texts(names@);
    let ghost klines = kline_streams(symbol@, texts(intervals@));
    let mut i: usize = 0;
    assert(texts(names@) =~= before + klines.subrange(0, 0));
    while i < intervals.len()
        invariant
            i <= intervals@.len(),
            klines == kline_streams(symbol@, texts(intervals@)),
            texts(names@) == before + klines.subrange(0, i as int),
        decreases intervals@.len() - i,
    {
        let mut name = stream(symbol, "@kline_");
        name.append(intervals[i].as_str());
        let ghost grown = texts(names@);
        names.push(name);
        proof {
            assert(texts(intervals@)[i as int] == intervals@[i as int]@);
            assert(klines[i as int] == name@);
            assert(texts(names@) =~= grown.push(name@));
            assert(klines.subrange(0, i + 1) =~= klines.subrange(0, i as int).push(name@));
            assert(texts(names@) =~= before + klines.subrange(0, i + 1));
        }
        i = i + 1;
    }
    assert(klines.subrange(0, i as int) == klines);
}

/// The names of the streams that `config` asks for on `symbol`, which is
/// lower-cased first.
pub fn build_streams(symbol: &str, config: &StreamConfig, depth: &str) -> (names: Vec<String>)
    ensures
        texts(names@) == stream_names(lowercase(symbol@), config@, depth@),
{
    let lower = to_lowercase(symbol);
    name_streams(lower.as_str(), config, depth)
}

/// The names of the streams that `config` asks for on a symbol that is in
/// lower case already.
pub fn name_streams(s: &str, config: &StreamConfig, depth: &str) -> (names: Vec<String>)
    ensures
        texts(names@) == stream_names(s@, config@, depth@),
{
    let mut names: Vec<String> = Vec::new();
    assert(texts(names@) =~= Seq::<Seq<char>>::empty());
    let mut depth_stream = stream(s, "@depth");
    depth_stream.append(depth);
    push_optional(&mut names, config.order_book, depth_stream);
    assert(texts(names@) =~= optional(config@.order_book, s@ + "@depth"@ + depth@));
    push_optional(&mut names, config.raw_trades, stream(s, "@trade"));
    push_optional(&mut names, config.agg_trades, stream(s, "@aggTrade"));
    push_klines(&mut names, s, &config.kline_intervals);
    push_optional(&mut names, config.ticker, stream(s, "@ticker"));
    push_optional(&mut names, config.book_ticker, stream(s, "@bookTicker"));
    push_optional(&mut names, config.mark_price, stream(s, "@markPrice"));
    push_optional(&mut names, config.liquidation, stream(s, "@forceOrder"));
    names
}

/// The URL of the combined stream of `names` under `base`.
pub fn build_url(base: &str, names: &Vec<String>) -> (url: String)
    ensures
        url@ == stream_url(base@, texts(names@)),
{
    let mut url = base.to_owned();
    url.append("/");
    url.append(join(names, "/").as_str());
    url
}

/// No stream is named exactly when no interval is listed and none of the
/// families that have a stream of their own is switched on.
pub proof fn lemma_no_streams(symbol: Seq<char>, config: StreamConfigView, depth: Seq<char>)
    ensures
        stream_names(symbol, config, depth).len() == 0 <==> {
            &&& !config.order_book
            &&& !config.raw_trades
            &&& !config.agg_trades
            &&& config.kline_intervals.len() == 0
            &&& !config.ticker
            &&& !config.book_ticker
            &&& !config.mark_price
            &&& !config.liquidation
        },
{
}

} // verus!
