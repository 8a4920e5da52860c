//! Normalisation of venue frames: which kind of frame a text is, and what
//! market event a parsed frame of each kind holds.
//!
//! A frame is told apart by a marker in its raw text, before anything is
//! parsed. A decoder then reads the members it needs from the parsed frame.
//! Every member it reads must be there and of the right type; members it
//! does not read are ignored. The topic of the event is the one the caller
//! gives, never one read from the frame.

use vstd::prelude::*;
use crate::json::{Json, JsonView};
use crate::models::{
    AggTrade, BookTicker, Candle, Decimal, FundingRate, Liquidation, MarkPrice, OrderBook,
    OrderBookView, PriceLevel, Ticker, Trade, TradeSide,
};
use crate::text::{contains, occurs_in, same_text};

verus! {

/// Why a frame gave no event.
#[derive(Debug, Copy, PartialEq, Eq, Structural)]
pub enum DecodeError {
    /// The text is not JSON.
    Malformed,
    /// The text is JSON, but a member the decoder reads is missing or not
    /// of the type it must have.
    Unexpected,
}

impl Clone for DecodeError {
    fn clone(&self) -> (r: Self)
        ensures
            r == *self,
    {
        *self
    }
}

/// The kinds of frame a connector tells apart.
#[derive(Debug, Copy, PartialEq, Eq, Structural)]
pub enum FrameKind {
    Trade,
    Depth,
    Kline,
    AggTrade,
    Ticker,
    BookTicker,
    MarkPrice,
    ForceOrder,
    /// None of the above: the frame is passed over.
    Other,
}

impl Clone for FrameKind {
    fn clone(&self) -> (r: Self)
        ensures
            r == *self,
    {
        *self
    }
}

/// The kind of a frame: that of the first marker, in this order, that
/// occurs in its text.
pub open spec fn frame_kind(text: Seq<char>) -> FrameKind {
    if occurs_in("\"e\":\"trade\""@, text) {
        FrameKind::Trade
    } else if occurs_in("\"bids\""@, text) {
        FrameKind::Depth
    } else if occurs_in("\"e\":\"kline\""@, text) {
        FrameKind::Kline
    } else if occurs_in("\"e\":\"aggTrade\""@, text) {
        FrameKind::AggTrade
    } else if occurs_in("\"e\":\"24hrTicker\""@, text) {
        FrameKind::Ticker
    } else if occurs_in("\"e\":\"bookTicker\""@, text) {
        FrameKind::BookTicker
    } else if occurs_in("\"e\":\"markPriceUpdate\""@, text) {
        FrameKind::MarkPrice
    } else if occurs_in("\"e\":\"forceOrder\""@, text) {
        FrameKind::ForceOrder
    } else {
        FrameKind::Other
    }
}

/// Tells the kind of a frame from its raw text.
pub fn classify(text: &str) -> (kind: FrameKind)
    ensures
        kind == frame_kind(text@),
{
    if contains(text, "\"e\":\"trade\"") {
        FrameKind::Trade
    } else if contains(text, "\"bids\"") {
        FrameKind::Depth
    } else if contains(text, "\"e\":\"kline\"") {
        FrameKind::Kline
    } else if contains(text, "\"e\":\"aggTrade\"") {
        FrameKind::AggTrade
    } else if contains(text, "\"e\":\"24hrTicker\"") {
        FrameKind::Ticker
    } else if contains(text, "\"e\":\"bookTicker\"") {
        FrameKind::BookTicker
    } else if contains(text, "\"e\":\"markPriceUpdate\"") {
        FrameKind::MarkPrice
    } else if contains(text, "\"e\":\"forceOrder\"") {
        FrameKind::ForceOrder
    } else {
        FrameKind::Other
    }
}

/// The side of a trade: the seller is the aggressor where the buyer was the
/// maker.
pub open spec fn taker_side(is_buyer_maker: bool) -> TradeSide {
    if is_buyer_maker {
        TradeSide::Sell
    } else {
        TradeSide::Buy
    }
}

/// The side of a forced order: a sale where the venue says `SELL`, a
/// purchase for anything else.
pub open spec fn order_side(side: Seq<char>) -> TradeSide {
    if side == "SELL"@ {
        TradeSide::Sell
    } else {
        TradeSide::Buy
    }
}

/// The member `name` as a decimal, where it is a string.
fn decimal_field(json: &Json, name: &str) -> (value: Option<Decimal>)
    ensures
        match value {
            Some(d) => json@.str_field(name@) == Some(d.text@),
            None => json@.str_field(name@).is_none(),
        },
{
    match json.str_field(name) {
        Some(s) => Some(Decimal { text: s.clone() }),
        None => None,
    }
}

/// Whether a parsed frame has what a trade is read from.
pub open spec fn is_trade_frame(json: JsonView) -> bool {
    &&& json.u64_field("t"@).is_some()
    &&& json.str_field("p"@).is_some()
    &&& json.str_field("q"@).is_some()
    &&& json.u64_field("T"@).is_some()
    &&& json.bool_field("m"@).is_some()
}

/// Whether `trade` is what the frame holds, under `topic`.
pub open spec fn trade_matches(trade: Trade, json: JsonView, topic: Seq<char>) -> bool {
    &&& trade.symbol@ == topic
    &&& json.u64_field("t"@) == Some(trade.id)
    &&& json.str_field("p"@) == Some(trade.price.text@)
    &&& json.str_field("q"@) == Some(trade.quantity.text@)
    &&& json.u64_field("T"@) == Some(trade.timestamp_ms)
    &&& json.bool_field("m"@).is_some()
    &&& trade.side == taker_side(json.bool_field("m"@).unwrap())
}

/// Reads a trade from a parsed trade frame.
pub fn decode_trade(json: &Json, topic: &str) -> (decoded: Result<Trade, DecodeError>)
    ensures
        match decoded {
            Ok(trade) => trade_matches(trade, json@, topic@),
            Err(error) => error == DecodeError::Unexpected && !is_trade_frame(json@),
        },
{
    let id = match json.u64_field("t") {
        Some(v) => v,
        None => return Err(DecodeError::Unexpected),
    };
    let price = match decimal_field(json, "p") {
        Some(v) => v,
        None => return Err(DecodeError::Unexpected),
    };
    let quantity = match decimal_field(json, "q") {
        Some(v) => v,
        None => return Err(DecodeError::Unexpected),
    };
    let timestamp_ms = match json.u64_field("T") {
        Some(v) => v,
        None => return Err(DecodeError::Unexpected),
    };
    let is_buyer_maker = match json.bool_field("m") {
        Some(v) => v,
        None => return Err(DecodeError::Unexpected),
    };
    Ok(
        Trade {
            id,
            symbol: topic.to_owned(),
            price,
            quantity,
            timestamp_ms,
            side: if is_buyer_maker {
                TradeSide::Sell
            } else {
                TradeSide::Buy
            },
        },
    )
}

/// Whether a parsed frame has what an aggregated trade is read from.
pub open spec fn is_agg_trade_frame(json: JsonView) -> bool {
    &&& json.u64_field("a"@).is_some()
    &&& json.str_field("p"@).is_some()
    &&& json.str_field("q"@).is_some()
    &&& json.u64_field("T"@).is_some()
    &&& json.bool_field("m"@).is_some()
    &&& json.u64_field("f"@).is_some()
    &&& json.u64_field("l"@).is_some()
}

/// Whether `trade` is what the frame holds, under `topic`.
pub open spec fn agg_trade_matches(trade: AggTrade, json: JsonView, topic: Seq<char>) -> bool {
    &&& trade.symbol@ == topic
    &&& json.u64_field("a"@) == Some(trade.id)
    &&& json.str_field("p"@) == Some(trade.price.text@)
    &&& json.str_field("q"@) == Some(trade.quantity.text@)
    &&& json.u64_field("T"@) == Some(trade.timestamp_ms)
    &&& json.bool_field("m"@).is_some()
    &&& trade.side == taker_side(json.bool_field("m"@).unwrap())
    &&& json.u64_field("f"@) == Some(trade.first_trade_id)
    &&& json.u64_field("l"@) == Some(trade.last_trade_id)
}

/// Reads an aggregated trade from a parsed aggregated-trade frame.
pub fn decode_agg_trade(json: &Json, topic: &str) -> (decoded: Result<AggTrade, DecodeError>)
    ensures
        match decoded {
            Ok(trade) => agg_trade_matches(trade, json@, topic@),
            Err(error) => error == DecodeError::Unexpected && !is_agg_trade_frame(json@),
        },
{
    let id = match json.u64_field("a") {
        Some(v) => v,
        None => return Err(DecodeError::Unexpected),
    };
    let price = match decimal_field(json, "p") {
        Some(v) => v,
        None => return Err(DecodeError::Unexpected),
    };
    let quantity = match decimal_field(json, "q") {
        Some(v) => v,
        None => return Err(DecodeError::Unexpected),
    };
    let timestamp_ms = match json.u64_field("T") {
        Some(v) => v,
        None => return Err(DecodeError::Unexpected),
    };
    let is_buyer_maker = match json.bool_field("m") {
        Some(v) => v,
        None => return Err(DecodeError::Unexpected),
    };
    let first_trade_id = match json.u64_field("f") {
        Some(v) => v,
        None => return Err(DecodeError::Unexpected),
    };
    let last_trade_id = match json.u64_field("l") {
        Some(v) => v,
        None => return Err(DecodeError::Unexpected),
    };
    Ok(
        AggTrade {
            id,
            symbol: topic.to_owned(),
            price,
            quantity,
            timestamp_ms,
            side: if is_buyer_maker {
                TradeSide::Sell
            } else {
                TradeSide::Buy
            },
            first_trade_id,
            last_trade_id,
        },
    )
}

/// Whether a value is a price level on the wire: an array of exactly two
/// strings.
pub open spec fn is_level(json: JsonView) -> bool {
    json.as_array() matches Some(pair) && pair.len() == 2 && pair[0].as_str().is_some()
        && pair[1].as_str().is_some()
}

/// Whether `level` is the price and quantity that the value holds.
pub open spec fn level_matches(level: PriceLevel, json: JsonView) -> bool {
    json.as_array() matches Some(pair) && pair.len() == 2 && pair[0].as_str() == Some(
        level.price.text@,
    ) && pair[1].as_str() == Some(level.quantity.text@)
}

/// Whether every value is a price level on the wire.
pub open spec fn are_levels(raw: Seq<JsonView>) -> bool {
    forall|i: int| 0 <= i < raw.len() ==> is_level(#[trigger] raw[i])
}

/// Whether `levels` are, one for one and in order, what the values hold.
pub open spec fn levels_match(levels: Seq<PriceLevel>, raw: Seq<JsonView>) -> bool {
    levels.len() == raw.len() && forall|i: int|
        0 <= i < raw.len() ==> level_matches(#[trigger] levels[i], raw[i])
}

/// What the items of `raw` hold.
pub open spec fn views_of(raw: Seq<Json>) -> Seq<JsonView> {
    Seq::new(raw.len(), |i: int| raw[i]@)
}

/// Reads the levels of one side of an order book.
pub fn parse_raw_levels(raw: &Vec<Json>) -> (parsed: Result<Vec<PriceLevel>, DecodeError>)
    ensures
        match parsed {
            Ok(levels) => levels_match(levels@, views_of(raw@)),
            Err(error) => error == DecodeError::Unexpected && !are_levels(views_of(raw@)),
        },
{
    let mut levels: Vec<PriceLevel> = Vec::new();
    let mut i: usize = 0;
    while i < raw.len()
        invariant
            i <= raw@.len(),
            levels@.len() == i,
            forall|j: int|
                0 <= j < i ==> level_matches(#[trigger] levels@[j], views_of(raw@)[j]),
        decreases raw@.len() - i,
    {
        let ghost item = views_of(raw@)[i as int];
        assert(item == raw@[i as int]@);
        let pair = match raw[i].as_array() {
            Some(p) => p,
            None => {
                assert(!is_level(item));
                return Err(DecodeError::Unexpected);
            },
        };
        if pair.len() != 2 {
            assert(!is_level(item));
            return Err(DecodeError::Unexpected);
        }
        let price = match pair[0].as_str() {
            Some(s) => Decimal { text: s.clone() },
            None => {
                assert(!is_level(item));
                return Err(DecodeError::Unexpected);
            },
        };
        let quantity = match pair[1].as_str() {
            Some(s) => Decimal { text: s.clone() },
            None => {
                assert(!is_level(item));
                return Err(DecodeError::Unexpected);
            },
        };
        levels.push(PriceLevel { price, quantity });
        i = i + 1;
    }
    Ok(levels)
}

/// The update id of a depth frame: the final update id where the frame has
/// one, else the last update id.
pub open spec fn depth_update_id(json: JsonView) -> Option<u64> {
    if json.lacks("u"@) {
        json.u64_field("lastUpdateId"@)
    } else {
        json.u64_field("u"@)
    }
}

/// Whether a parsed frame has what an order book is read from.
pub open spec fn is_depth_frame(json: JsonView) -> bool {
    &&& json.u64_field("lastUpdateId"@).is_some()
    &&& depth_update_id(json).is_some()
    &&& json.array_field("bids"@) matches Some(bids) && are_levels(bids)
    &&& json.array_field("asks"@) matches Some(asks) && are_levels(asks)
}

/// Whether `book` is what the frame holds, under `topic`.
pub open spec fn book_matches(book: OrderBookView, json: JsonView, topic: Seq<char>) -> bool {
    &&& book.symbol == topic
    &&& json.u64_field("lastUpdateId"@).is_some()
    &&& depth_update_id(json) == Some(book.last_update_id)
    &&& json.array_field("bids"@) matches Some(bids) && levels_match(book.bids, bids)
    &&& json.array_field("asks"@) matches Some(asks) && levels_match(book.asks, asks)
}

/// Reads one side of the book from the member `name`.
fn side_levels(json: &Json, name: &str) -> (parsed: Result<Vec<PriceLevel>, DecodeError>)
    ensures
        match parsed {
            Ok(levels) => json@.array_field(name@) matches Some(raw) && levels_match(levels@, raw),
            Err(error) => error == DecodeError::Unexpected && !(json@.array_field(name@) matches Some(
                raw,
            ) && are_levels(raw)),
        },
{
    let raw = match json.get(name) {
        Some(v) => match v.as_array() {
            Some(items) => items,
            None => return Err(DecodeError::Unexpected),
        },
        None => return Err(DecodeError::Unexpected),
    };
    proof {
        assert(json@.array_field(name@).unwrap() =~= views_of(raw@));
    }
    parse_raw_levels(raw)
}

/// Reads an order book from a parsed depth frame.
pub fn decode_depth(json: &Json, topic: &str) -> (decoded: Result<OrderBook, DecodeError>)
    ensures
        match decoded {
            Ok(book) => book_matches(book@, json@, topic@),
            Err(error) => error == DecodeError::Unexpected && !is_depth_frame(json@),
        },
{
    let last_update_id = match json.u64_field("lastUpdateId") {
        Some(v) => v,
        None => return Err(DecodeError::Unexpected),
    };
    let update_id = match json.get("u") {
        None => last_update_id,
        Some(v) => {
            if v.is_null() {
                last_update_id
            } else {
                match v.as_u64() {
                    Some(u) => u,
                    None => return Err(DecodeError::Unexpected),
                }
            }
        },
    };
    let bids = match side_levels(json, "bids") {
        Ok(levels) => levels,
        Err(error) => return Err(error),
    };
    let asks = match side_levels(json, "asks") {
        Ok(levels) => levels,
        Err(error) => return Err(error),
    };
    Ok(OrderBook { symbol: topic.to_owned(), bids, asks, last_update_id: update_id })
}

/// Whether a parsed frame has what a candle is read from.
pub open spec fn is_kline_frame(json: JsonView) -> bool {
    json.field("k"@) matches Some(k) && {
        &&& k.u64_field("t"@).is_some()
        &&& k.u64_field("T"@).is_some()
        &&& k.str_field("o"@).is_some()
        &&& k.str_field("c"@).is_some()
        &&& k.str_field("h"@).is_some()
        &&& k.str_field("l"@).is_some()
        &&& k.str_field("v"@).is_some()
        &&& k.bool_field("x"@).is_some()
        &&& k.str_field("i"@).is_some()
    }
}

/// Whether `candle` is what the frame holds, under `topic`.
pub open spec fn candle_matches(candle: Candle, json: JsonView, topic: Seq<char>) -> bool {
    json.field("k"@) matches Some(k) && {
        &&& candle.symbol@ == topic
        &&& k.u64_field("t"@) == Some(candle.start_time)
        &&& k.u64_field("T"@) == Some(candle.close_time)
        &&& k.str_field("o"@) == Some(candle.open.text@)
        &&& k.str_field("c"@) == Some(candle.close.text@)
        &&& k.str_field("h"@) == Some(candle.high.text@)
        &&& k.str_field("l"@) == Some(candle.low.text@)
        &&& k.str_field("v"@) == Some(candle.volume.text@)
        &&& k.bool_field("x"@) == Some(candle.is_closed)
        &&& k.str_field("i"@) == Some(candle.interval@)
    }
}

/// Reads a candle from a parsed kline frame.
pub fn decode_kline(json: &Json, topic: &str) -> (decoded: Result<Candle, DecodeError>)
    ensures
        match decoded {
            Ok(candle) => candle_matches(candle, json@, topic@),
            Err(error) => error == DecodeError::Unexpected && !is_kline_frame(json@),
        },
{
    let k = match json.get("k") {
        Some(v) => v,
        None => return Err(DecodeError::Unexpected),
    };
    let start_time = match k.u64_field("t") {
        Some(v) => v,
        None => return Err(DecodeError::Unexpected),
    };
    let close_time = match k.u64_field("T") {
        Some(v) => v,
        None => return Err(DecodeError::Unexpected),
    };
    let open = match decimal_field(k, "o") {
        Some(v) => v,
        None => return Err(DecodeError::Unexpected),
    };
    let close = match decimal_field(k, "c") {
        Some(v) => v,
        None => return Err(DecodeError::Unexpected),
    };
    let high = match decimal_field(k, "h") {
        Some(v) => v,
        None => return Err(DecodeError::Unexpected),
    };
    let low = match decimal_field(k, "l") {
        Some(v) => v,
        None => return Err(DecodeError::Unexpected),
    };
    let volume = match decimal_field(k, "v") {
        Some(v) => v,
        None => return Err(DecodeError::Unexpected),
    };
    let is_closed = match k.bool_field("x") {
        Some(v) => v,
        None => return Err(DecodeError::Unexpected),
    };
    let interval = match k.str_field("i") {
        Some(v) => v.clone(),
        None => return Err(DecodeError::Unexpected),
    };
    Ok(
        Candle {
            symbol: topic.to_owned(),
            interval,
            open,
            high,
            low,
            close,
            volume,
            start_time,
            close_time,
            is_closed,
        },
    )
}

/// Whether a parsed frame has what a ticker is read from.
pub open spec fn is_ticker_frame(json: JsonView) -> bool {
    &&& json.str_field("p"@).is_some()
    &&& json.str_field("P"@).is_some()
    &&& json.str_field("c"@).is_some()
    &&& json.str_field("o"@).is_some()
    &&& json.str_field("h"@).is_some()
    &&& json.str_field("l"@).is_some()
    &&& json.str_field("v"@).is_some()
    &&& json.str_field("q"@).is_some()
    &&& json.u64_field("E"@).is_some()
}

/// Whether `ticker` is what the frame holds, under `topic`.
pub open spec fn ticker_matches(ticker: Ticker, json: JsonView, topic: Seq<char>) -> bool {
    &&& ticker.symbol@ == topic
    &&& json.str_field("p"@) == Some(ticker.price_change.text@)
    &&& json.str_field("P"@) == Some(ticker.price_change_percent.text@)
    &&& json.str_field("c"@) == Some(ticker.last_price.text@)
    &&& json.str_field("o"@) == Some(ticker.open_price.text@)
    &&& json.str_field("h"@) == Some(ticker.high_price.text@)
    &&& json.str_field("l"@) == Some(ticker.low_price.text@)
    &&& json.str_field("v"@) == Some(ticker.volume.text@)
    &&& json.str_field("q"@) == Some(ticker.quote_volume.text@)
    &&& json.u64_field("E"@) == Some(ticker.timestamp)
}

/// Reads a ticker from a parsed 24-hour ticker frame.
pub fn decode_ticker(json: &Json, topic: &str) -> (decoded: Result<Ticker, DecodeError>)
    ensures
        match decoded {
            Ok(ticker) => ticker_matches(ticker, json@, topic@),
            Err(error) => error == DecodeError::Unexpected && !is_ticker_frame(json@),
        },
{
    let price_change = match decimal_field(json, "p") {
        Some(v) => v,
        None => return Err(DecodeError::Unexpected),
    };
    let price_change_percent = match decimal_field(json, "P") {
        Some(v) => v,
        None => return Err(DecodeError::Unexpected),
    };
    let last_price = match decimal_field(json, "c") {
        Some(v) => v,
        None => return Err(DecodeError::Unexpected),
    };
    let open_price = match decimal_field(json, "o") {
        Some(v) => v,
        None => return Err(DecodeError::Unexpected),
    };
    let high_price = match decimal_field(json, "h") {
        Some(v) => v,
        None => return Err(DecodeError::Unexpected),
    };
    let low_price = match decimal_field(json, "l") {
        Some(v) => v,
        None => return Err(DecodeError::Unexpected),
    };
    let volume = match decimal_field(json, "v") {
        Some(v) => v,
        None => return Err(DecodeError::Unexpected),
    };
    let quote_volume = match decimal_field(json, "q") {
        Some(v) => v,
        None => return Err(DecodeError::Unexpected),
    };
    let timestamp = match json.u64_field("E") {
        Some(v) => v,
        None => return Err(DecodeError::Unexpected),
    };
    Ok(
        Ticker {
            symbol: topic.to_owned(),
            price_change,
            price_change_percent,
            last_price,
            open_price,
            high_price,
            low_price,
            volume,
            quote_volume,
            timestamp,
        },
    )
}

/// Whether a parsed frame has what a book ticker is read from.
pub open spec fn is_book_ticker_frame(json: JsonView) -> bool {
    &&& json.str_field("b"@).is_some()
    &&& json.str_field("B"@).is_some()
    &&& json.str_field("a"@).is_some()
    &&& json.str_field("A"@).is_some()
}

/// Whether `ticker` is what the frame holds, under `topic`.
pub open spec fn book_ticker_matches(ticker: BookTicker, json: JsonView, topic: Seq<char>) -> bool {
    &&& ticker.symbol@ == topic
    &&& json.str_field("b"@) == Some(ticker.best_bid_price.text@)
    &&& json.str_field("B"@) == Some(ticker.best_bid_qty.text@)
    &&& json.str_field("a"@) == Some(ticker.best_ask_price.text@)
    &&& json.str_field("A"@) == Some(ticker.best_ask_qty.text@)
}

/// Reads the best bid and ask from a parsed book-ticker frame.
pub fn decode_book_ticker(json: &Json, topic: &str) -> (decoded: Result<BookTicker, DecodeError>)
    ensures
        match decoded {
            Ok(ticker) => book_ticker_matches(ticker, json@, topic@),
            Err(error) => error == DecodeError::Unexpected && !is_book_ticker_frame(json@),
        },
{
    let best_bid_price = match decimal_field(json, "b") {
        Some(v) => v,
        None => return Err(DecodeError::Unexpected),
    };
    let best_bid_qty = match decimal_field(json, "B") {
        Some(v) => v,
        None => return Err(DecodeError::Unexpected),
    };
    let best_ask_price = match decimal_field(json, "a") {
        Some(v) => v,
        None => return Err(DecodeError::Unexpected),
    };
    let best_ask_qty = match decimal_field(json, "A") {
        Some(v) => v,
        None => return Err(DecodeError::Unexpected),
    };
    Ok(
        BookTicker {
            symbol: topic.to_owned(),
            best_bid_price,
            best_bid_qty,
            best_ask_price,
            best_ask_qty,
        },
    )
}

/// Whether a parsed frame has what a mark price and a funding rate are
/// read from.
pub open spec fn is_mark_price_frame(json: JsonView) -> bool {
    &&& json.str_field("p"@).is_some()
    &&& json.str_field("i"@).is_some()
    &&& json.str_field("r"@).is_some()
    &&& json.u64_field("T"@).is_some()
}

/// Whether `price` is the mark price the frame holds, under `topic`.
pub open spec fn mark_price_matches(price: MarkPrice, json: JsonView, topic: Seq<char>) -> bool {
    &&& price.symbol@ == topic
    &&& json.str_field("p"@) == Some(price.mark_price.text@)
    &&& json.str_field("i"@) == Some(price.index_price.text@)
    &&& json.u64_field("T"@) == Some(price.next_funding_time)
}

/// Whether `rate` is the funding rate the frame holds, under `topic`.
pub open spec fn funding_rate_matches(rate: FundingRate, json: JsonView, topic: Seq<char>) -> bool {
    &&& rate.symbol@ == topic
    &&& json.str_field("r"@) == Some(rate.rate.text@)
    &&& json.u64_field("T"@) == Some(rate.time)
}

/// Reads the mark price and the funding rate from a parsed mark-price
/// frame, which carries both.
pub fn decode_mark_price(json: &Json, topic: &str) -> (decoded: Result<
    (MarkPrice, FundingRate),
    DecodeError,
>)
    ensures
        match decoded {
            Ok(pair) => mark_price_matches(pair.0, json@, topic@) && funding_rate_matches(
                pair.1,
                json@,
                topic@,
            ),
            Err(error) => error == DecodeError::Unexpected && !is_mark_price_frame(json@),
        },
{
    let mark_price = match decimal_field(json, "p") {
        Some(v) => v,
        None => return Err(DecodeError::Unexpected),
    };
    let index_price = match decimal_field(json, "i") {
        Some(v) => v,
        None => return Err(DecodeError::Unexpected),
    };
    let rate = match decimal_field(json, "r") {
        Some(v) => v,
        None => return Err(DecodeError::Unexpected),
    };
    let next_funding_time = match json.u64_field("T") {
        Some(v) => v,
        None => return Err(DecodeError::Unexpected),
    };
    Ok(
        (
            MarkPrice { symbol: topic.to_owned(), mark_price, index_price, next_funding_time },
            FundingRate { symbol: topic.to_owned(), rate, time: next_funding_time },
        ),
    )
}

/// Whether a parsed frame has what a liquidation is read from.
pub open spec fn is_force_order_frame(json: JsonView) -> bool {
    json.field("o"@) matches Some(order) && {
        &&& order.str_field("S"@).is_some()
        &&& order.str_field("p"@).is_some()
        &&& order.str_field("q"@).is_some()
    }
}

/// Whether `liquidation` is what the frame holds, under `topic`.
pub open spec fn liquidation_matches(liquidation: Liquidation, json: JsonView, topic: Seq<char>) -> bool {
    json.field("o"@) matches Some(order) && {
        &&& liquidation.symbol@ == topic
        &&& order.str_field("S"@).is_some()
        &&& liquidation.side == order_side(order.str_field("S"@).unwrap())
        &&& order.str_field("p"@) == Some(liquidation.price.text@)
        &&& order.str_field("q"@) == Some(liquidation.quantity.text@)
    }
}

/// Reads a liquidation from a parsed forced-order frame.
pub fn decode_liquidation(json: &Json, topic: &str) -> (decoded: Result<Liquidation, DecodeError>)
    ensures
        match decoded {
            Ok(liquidation) => liquidation_matches(liquidation, json@, topic@),
            Err(error) => error == DecodeError::Unexpected && !is_force_order_frame(json@),
        },
{
    let order = match json.get("o") {
        Some(v) => v,
        None => return Err(DecodeError::Unexpected),
    };
    let side = match order.str_field("S") {
        Some(s) => {
            if same_text(s.as_str(), "SELL") {
                TradeSide::Sell
            } else {
                TradeSide::Buy
            }
        },
        None => return Err(DecodeError::Unexpected),
    };
    let price = match decimal_field(order, "p") {
        Some(v) => v,
        None => return Err(DecodeError::Unexpected),
    };
    let quantity = match decimal_field(order, "q") {
        Some(v) => v,
        None => return Err(DecodeError::Unexpected),
    };
    Ok(Liquidation { symbol: topic.to_owned(), price, quantity, side })
}

} // verus!
