//! The demultiplexer of a connector: from one inbound text frame to the
//! writes it makes to the registry and the events it publishes.
//!
//! A frame of a family that the connector's configuration does not ask for
//! is passed over before it is parsed, whatever the socket delivers: no event
//! of a family that is switched off ever leaves a connector.

use vstd::prelude::*;
use crate::engine::{Engine, EngineView};
use crate::json::{json_of_text, parse, Json, JsonView};
use crate::models::{texts, MarketData, MarketDataView, StreamConfig, StreamConfigView};
use crate::normalize::{
    agg_trade_matches, book_matches, book_ticker_matches, candle_matches, classify,
    decode_agg_trade, decode_book_ticker, decode_depth, decode_kline, decode_liquidation,
    decode_mark_price, decode_ticker, decode_trade, frame_kind, funding_rate_matches,
    is_agg_trade_frame, is_book_ticker_frame, is_depth_frame, is_force_order_frame,
    is_kline_frame, is_mark_price_frame, is_ticker_frame, is_trade_frame, liquidation_matches,
    mark_price_matches, ticker_matches, trade_matches, DecodeError, FrameKind,
};
use crate::text::same_text;

verus! {

/// Whether a configuration lets frames of `kind` in. A mark-price frame
/// carries the funding rate too, so either family lets it in.
pub open spec fn admits(config: StreamConfigView, kind: FrameKind) -> bool {
    match kind {
        FrameKind::Trade => config.raw_trades,
        FrameKind::Depth => config.order_book,
        FrameKind::Kline => config.kline_intervals.len() > 0,
        FrameKind::AggTrade => config.agg_trades,
        FrameKind::Ticker => config.ticker,
        FrameKind::BookTicker => config.book_ticker,
        FrameKind::MarkPrice => config.mark_price || config.funding_rate,
        FrameKind::ForceOrder => config.liquidation,
        FrameKind::Other => false,
    }
}

/// Whether a configuration asks for `event`: its family is switched on, and
/// a candle is of an interval the configuration lists.
pub open spec fn wanted(config: StreamConfigView, event: MarketDataView) -> bool {
    &&& config.enables(event.family())
    &&& event matches MarketDataView::Candle(c) ==> config.kline_intervals.contains(c.interval@)
}

/// Every event carries `topic` and is one the configuration asks for.
pub open spec fn all_wanted(
    events: Seq<MarketData>,
    config: StreamConfigView,
    topic: Seq<char>,
) -> bool {
    forall|i: int|
        0 <= i < events.len() ==> {
            &&& wanted(config, (#[trigger] events[i])@)
            &&& events[i]@.topic() == Some(topic)
        }
}

/// What handling a parsed frame of `kind` comes to: nothing where the
/// configuration does not admit the kind; else the events published, in
/// order, and the registry `post` that is left of `pre`; or the error, with
/// the registry as it was.
pub open spec fn frame_applied(
    kind: FrameKind,
    json: JsonView,
    topic: Seq<char>,
    config: StreamConfigView,
    pre: EngineView,
    post: EngineView,
    outcome: Result<Vec<MarketData>, DecodeError>,
) -> bool {
    if admits(config, kind) {
        admitted_frame_applied(kind, json, topic, config, pre, post, outcome)
    } else {
        outcome matches Ok(events) && events@.len() == 0 && post == pre
    }
}

/// What handling an admitted, parsed frame of `kind` comes to.
pub open spec fn admitted_frame_applied(
    kind: FrameKind,
    json: JsonView,
    topic: Seq<char>,
    config: StreamConfigView,
    pre: EngineView,
    post: EngineView,
    outcome: Result<Vec<MarketData>, DecodeError>,
) -> bool {
    let state = pre.state_of(topic);
    match outcome {
        Err(error) => {
            &&& error == DecodeError::Unexpected
            &&& post == pre
            &&& match kind {
                FrameKind::Trade => !is_trade_frame(json),
                FrameKind::Depth => !is_depth_frame(json),
                FrameKind::Kline => !is_kline_frame(json),
                FrameKind::AggTrade => !is_agg_trade_frame(json),
                FrameKind::Ticker => !is_ticker_frame(json),
                FrameKind::BookTicker => !is_book_ticker_frame(json),
                FrameKind::MarkPrice => !is_mark_price_frame(json),
                FrameKind::ForceOrder => !is_force_order_frame(json),
                FrameKind::Other => false,
            }
        },
        Ok(events) => match kind {
            FrameKind::Trade => {
                &&& events@.len() == 1
                &&& events@[0]@ matches MarketDataView::Trade(trade)
                &&& trade_matches(trade, json, topic)
                &&& post == pre.put(topic, state.with_trade(trade))
            },
            FrameKind::Depth => {
                &&& events@.len() == 1
                &&& events@[0]@ matches MarketDataView::OrderBook(book)
                &&& book_matches(book, json, topic)
                &&& post == pre.put(topic, state.with_order_book(book))
            },
            FrameKind::Kline => {
                &&& is_kline_frame(json)
                &&& if config.kline_intervals.contains(
                    json.field("k"@).unwrap().str_field("i"@).unwrap(),
                ) {
                    &&& events@.len() == 1
                    &&& events@[0]@ matches MarketDataView::Candle(candle)
                    &&& candle_matches(candle, json, topic)
                    &&& post == pre.put(topic, state.with_candle(candle))
                } else {
                    &&& events@.len() == 0
                    &&& post == pre
                }
            },
            FrameKind::AggTrade => {
                &&& events@.len() == 1
                &&& events@[0]@ matches MarketDataView::AggTrade(trade)
                &&& agg_trade_matches(trade, json, topic)
                &&& post == pre.put(topic, state.with_agg_trade(trade))
            },
            FrameKind::Ticker => {
                &&& events@.len() == 1
                &&& events@[0]@ matches MarketDataView::Ticker(ticker)
                &&& ticker_matches(ticker, json, topic)
                &&& post == pre.put(topic, state.with_ticker(ticker))
            },
            FrameKind::BookTicker => {
                &&& events@.len() == 1
                &&& events@[0]@ matches MarketDataView::BookTicker(ticker)
                &&& book_ticker_matches(ticker, json, topic)
                &&& post == pre.put(topic, state.with_book_ticker(ticker))
            },
            FrameKind::MarkPrice => {
                &&& is_mark_price_frame(json)
                &&& if config.mark_price && config.funding_rate {
                    &&& events@.len() == 2
                    &&& events@[0]@ matches MarketDataView::MarkPrice(price)
                    &&& events@[1]@ matches MarketDataView::FundingRate(rate)
                    &&& mark_price_matches(price, json, topic)
                    &&& funding_rate_matches(rate, json, topic)
                    &&& post == pre.put(
                        topic,
                        state.with_mark_price(price).with_funding_rate(rate),
                    )
                } else if config.mark_price {
                    &&& events@.len() == 1
                    &&& events@[0]@ matches MarketDataView::MarkPrice(price)
                    &&& mark_price_matches(price, json, topic)
                    &&& post == pre.put(topic, state.with_mark_price(price))
                } else if config.funding_rate {
                    &&& events@.len() == 1
                    &&& events@[0]@ matches MarketDataView::FundingRate(rate)
                    &&& funding_rate_matches(rate, json, topic)
                    &&& post == pre.put(topic, state.with_funding_rate(rate))
                } else {
                    &&& events@.len() == 0
                    &&& post == pre
                }
            },
            FrameKind::ForceOrder => {
                &&& events@.len() == 1
                &&& events@[0]@ matches MarketDataView::Liquidation(liquidation)
                &&& liquidation_matches(liquidation, json, topic)
                &&& post == pre.put(topic, state.with_liquidation(liquidation))
            },
            FrameKind::Other => events@.len() == 0 && post == pre,
        },
    }
}

/// Whether `interval` is one of `intervals`.
fn lists_interval(intervals: &Vec<String>, interval: &String) -> (listed: bool)
    ensures
        listed == texts(intervals@).contains(interval@),
{
    let ghost all = texts(intervals@);
    let mut i: usize = 0;
    while i < intervals.len()
        invariant
            i <= intervals@.len(),
            all == texts(intervals@),
            forall|j: int| 0 <= j < i ==> all[j] != interval@,
        decreases intervals@.len() - i,
    {
        if same_text(intervals[i].as_str(), interval.as_str()) {
            assert(all[i as int] == interval@);
            return true;
        }
        i = i + 1;
    }
    false
}

/// Whether a configuration lets frames of `kind` in.
pub fn is_admitted(config: &StreamConfig, kind: FrameKind) -> (admitted: bool)
    ensures
        admitted == admits(config@, kind),
{
    match kind {
        FrameKind::Trade => config.raw_trades,
        FrameKind::Depth => config.order_book,
        FrameKind::Kline => config.kline_intervals.len() > 0,
        FrameKind::AggTrade => config.agg_trades,
        FrameKind::Ticker => config.ticker,
        FrameKind::BookTicker => config.book_ticker,
        FrameKind::MarkPrice => config.mark_price || config.funding_rate,
        FrameKind::ForceOrder => config.liquidation,
        FrameKind::Other => false,
    }
}

/// Handles a frame that has been parsed: where the configuration admits
/// its kind, reads the event of that kind, writes it to the registry under
/// `unique_id`, and returns what to publish. A frame that is not admitted,
/// or that lacks what its kind needs, changes nothing.
pub fn apply_frame(
    kind: FrameKind,
    json: &Json,
    unique_id: &str,
    config: &StreamConfig,
    engine: &mut Engine,
) -> (outcome: Result<Vec<MarketData>, DecodeError>)
    ensures
        frame_applied(kind, json@, unique_id@, config@, old(engine)@, final(engine)@, outcome),
        outcome matches Ok(events) ==> all_wanted(events@, config@, unique_id@),
        old(engine)@.well_formed() ==> final(engine)@.well_formed(),
        old(engine)@.topics_agree() ==> final(engine)@.topics_agree(),
{
    let mut events: Vec<MarketData> = Vec::new();
    if !is_admitted(config, kind) {
        return Ok(events);
    }
    match kind {
        FrameKind::Trade => {
            let trade = match decode_trade(json, unique_id) {
                Ok(t) => t,
                Err(error) => return Err(error),
            };
            let published = engine.add_trade(unique_id.to_owned(), trade);
            events.push(published);
        },
        FrameKind::Depth => {
            let book = match decode_depth(json, unique_id) {
                Ok(b) => b,
                Err(error) => return Err(error),
            };
            let published = engine.update_order_book(unique_id.to_owned(), book);
            events.push(published);
        },
        FrameKind::Kline => {
            let candle = match decode_kline(json, unique_id) {
                Ok(c) => c,
                Err(error) => return Err(error),
            };
            if lists_interval(&config.kline_intervals, &candle.interval) {
                let published = engine.add_candle(unique_id.to_owned(), candle);
                events.push(published);
            }
        },
        FrameKind::AggTrade => {
            let trade = match decode_agg_trade(json, unique_id) {
                Ok(t) => t,
                Err(error) => return Err(error),
            };
            let published = engine.add_agg_trade(unique_id.to_owned(), trade);
            events.push(published);
        },
        FrameKind::Ticker => {
            let ticker = match decode_ticker(json, unique_id) {
                Ok(t) => t,
                Err(error) => return Err(error),
            };
            let published = engine.update_ticker(unique_id.to_owned(), ticker);
            events.push(published);
        },
        FrameKind::BookTicker => {
            let ticker = match decode_book_ticker(json, unique_id) {
                Ok(t) => t,
                Err(error) => return Err(error),
            };
            let published = engine.update_book_ticker(unique_id.to_owned(), ticker);
            events.push(published);
        },
        FrameKind::MarkPrice => {
            let (price, rate) = match decode_mark_price(json, unique_id) {
                Ok(pair) => pair,
                Err(error) => return Err(error),
            };
            if config.mark_price {
                let published = engine.update_mark_price(unique_id.to_owned(), price);
                events.push(published);
            }
            if config.funding_rate {
                let published = engine.update_funding_rate(unique_id.to_owned(), rate);
                events.push(published);
            }
            proof {
                let topic = unique_id@;
                let pre = old(engine)@;
                let state = pre.state_of(topic);
                if config.mark_price && config.funding_rate {
                    assert(pre.put(topic, state.with_mark_price(price)).put(
                        topic,
                        state.with_mark_price(price).with_funding_rate(rate),
                    ) == pre.put(topic, state.with_mark_price(price).with_funding_rate(rate))) by {
                        assert(pre.states.insert(topic, state.with_mark_price(price)).insert(
                            topic,
                            state.with_mark_price(price).with_funding_rate(rate),
                        ) =~= pre.states.insert(
                            topic,
                            state.with_mark_price(price).with_funding_rate(rate),
                        ));
                    }
                }
            }
        },
        FrameKind::ForceOrder => {
            let liquidation = match decode_liquidation(json, unique_id) {
                Ok(l) => l,
                Err(error) => return Err(error),
            };
            let published = engine.add_liquidation(unique_id.to_owned(), liquidation);
            events.push(published);
        },
        FrameKind::Other => {},
    }
    Ok(events)
}

/// What handling the raw frame `text` comes to: nothing at all where the
/// configuration does not admit its kind; an error and nothing else where it
/// is not JSON; and otherwise what `frame_applied` says of the parsed frame.
pub open spec fn message_handled(
    text: Seq<char>,
    topic: Seq<char>,
    config: StreamConfigView,
    pre: EngineView,
    post: EngineView,
    outcome: Result<Vec<MarketData>, DecodeError>,
) -> bool {
    let kind = frame_kind(text);
    if !admits(config, kind) {
        outcome matches Ok(events) && events@.len() == 0 && post == pre
    } else {
        match json_of_text(text) {
            None => outcome == Err::<Vec<MarketData>, DecodeError>(DecodeError::Malformed) && post
                == pre,
            Some(json) => frame_applied(kind, json, topic, config, pre, post, outcome),
        }
    }
}

/// Handles one inbound text frame of the connector of `unique_id`, whose
/// sanitized configuration is `config`: tells its kind from the raw text,
/// passes it over where the configuration does not ask for that kind, and
/// otherwise parses it, writes its event to the registry and returns what
/// to publish, in order. An error means that the frame is dropped; the
/// connection goes on.
pub fn handle_message(unique_id: &str, text: &str, config: &StreamConfig, engine: &mut Engine) -> (outcome:
    Result<Vec<MarketData>, DecodeError>)
    ensures
        message_handled(text@, unique_id@, config@, old(engine)@, final(engine)@, outcome),
        outcome matches Ok(events) ==> all_wanted(events@, config@, unique_id@),
        outcome is Err ==> final(engine)@ == old(engine)@,
        final(engine)@.active == old(engine)@.active,
        old(engine)@.well_formed() ==> final(engine)@.well_formed(),
        old(engine)@.topics_agree() ==> final(engine)@.topics_agree(),
{
    let kind = classify(text);
    if !is_admitted(config, kind) {
        return Ok(Vec::new());
    }
    let json = match parse(text) {
        Some(j) => j,
        None => return Err(DecodeError::Malformed),
    };
    apply_frame(kind, &json, unique_id, config, engine)
}

} // verus!
