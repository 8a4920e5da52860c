//! The common data model: venues, market types, the stream configuration and
//! the market events that every venue's frames are normalised into.
//!
//! Prices and quantities are never computed with here. They are carried as the
//! decimal text the venue sent (`Decimal`), so that a value leaves the engine
//! exactly as it came in.

use vstd::prelude::*;

verus! {

/// A trading venue.
#[derive(Debug, Copy, PartialEq, Eq, Hash, Structural)]
pub enum Exchange {
    Binance,
    Bybit,
    Coinbase,
}

impl Clone for Exchange {
    fn clone(&self) -> (r: Self)
        ensures
            r == *self,
    {
        *self
    }
}

/// The kind of market a symbol trades on.
#[derive(Debug, Copy, PartialEq, Eq, Hash, Structural)]
pub enum MarketType {
    Spot,
    /// Linear perpetual, margined in the quote currency.
    LinearFuture,
    /// Inverse perpetual, margined in the base currency.
    InverseFuture,
    Option,
}

impl Clone for MarketType {
    fn clone(&self) -> (r: Self)
        ensures
            r == *self,
    {
        *self
    }
}

/// The venue a command names when it names none.
pub fn default_exchange() -> (e: Exchange)
    ensures
        e == Exchange::Binance,
{
    Exchange::Binance
}

/// The market type a command names when it names none.
pub fn default_market() -> (m: MarketType)
    ensures
        m == MarketType::Spot,
{
    MarketType::Spot
}

/// The aggressor side of a trade, or the side of a liquidated order.
#[derive(Debug, Copy, PartialEq, Eq, Structural)]
pub enum TradeSide {
    Buy,
    Sell,
}

impl Clone for TradeSide {
    fn clone(&self) -> (r: Self)
        ensures
            r == *self,
    {
        *self
    }
}

/// A price or quantity, kept as the decimal text in which it arrived. A
/// reader that needs a number parses the text and takes zero where it does
/// not parse.
#[derive(Debug, PartialEq, Eq)]
pub struct Decimal {
    pub text: String,
}

impl Decimal {
    /// The decimal whose text is `text`.
    pub fn new(text: &str) -> (d: Decimal)
        ensures
            d.text@ == text@,
    {
        Decimal { text: text.to_owned() }
    }
}

impl Clone for Decimal {
    fn clone(&self) -> (r: Self)
        ensures
            r == *self,
    {
        Decimal { text: self.text.clone() }
    }
}

/// One level of an order book.
#[derive(Debug, PartialEq, Eq)]
pub struct PriceLevel {
    pub price: Decimal,
    pub quantity: Decimal,
}

impl Clone for PriceLevel {
    fn clone(&self) -> (r: Self)
        ensures
            r == *self,
    {
        PriceLevel { price: self.price.clone(), quantity: self.quantity.clone() }
    }
}

/// A partial-depth snapshot of an order book: absolute levels, best first.
#[derive(Debug, PartialEq, Eq)]
pub struct OrderBook {
    pub symbol: String,
    pub bids: Vec<PriceLevel>,
    pub asks: Vec<PriceLevel>,
    pub last_update_id: u64,
}

/// What an `OrderBook` holds.
pub ghost struct OrderBookView {
    pub symbol: Seq<char>,
    pub bids: Seq<PriceLevel>,
    pub asks: Seq<PriceLevel>,
    pub last_update_id: u64,
}

impl View for OrderBook {
    type V = OrderBookView;

    open spec fn view(&self) -> OrderBookView {
        OrderBookView {
            symbol: self.symbol@,
            bids: self.bids@,
            asks: self.asks@,
            last_update_id: self.last_update_id,
        }
    }
}

impl Clone for OrderBook {
    fn clone(&self) -> (r: Self)
        ensures
            r@ == self@,
    {
        OrderBook {
            symbol: self.symbol.clone(),
            bids: self.bids.clone(),
            asks: self.asks.clone(),
            last_update_id: self.last_update_id,
        }
    }
}

/// A single trade.
#[derive(Debug, PartialEq, Eq)]
pub struct Trade {
    pub id: u64,
    pub symbol: String,
    pub price: Decimal,
    pub quantity: Decimal,
    pub timestamp_ms: u64,
    pub side: TradeSide,
}

impl Clone for Trade {
    fn clone(&self) -> (r: Self)
        ensures
            r == *self,
    {
        Trade {
            id: self.id,
            symbol: self.symbol.clone(),
            price: self.price.clone(),
            quantity: self.quantity.clone(),
            timestamp_ms: self.timestamp_ms,
            side: self.side,
        }
    }
}

/// Trades of one order at one price, reported as one.
#[derive(Debug, PartialEq, Eq)]
pub struct AggTrade {
    pub id: u64,
    pub symbol: String,
    pub price: Decimal,
    pub quantity: Decimal,
    pub timestamp_ms: u64,
    pub side: TradeSide,
    pub first_trade_id: u64,
    pub last_trade_id: u64,
}

impl Clone for AggTrade {
    fn clone(&self) -> (r: Self)
        ensures
            r == *self,
    {
        AggTrade {
            id: self.id,
            symbol: self.symbol.clone(),
            price: self.price.clone(),
            quantity: self.quantity.clone(),
            timestamp_ms: self.timestamp_ms,
            side: self.side,
            first_trade_id: self.first_trade_id,
            last_trade_id: self.last_trade_id,
        }
    }
}

/// One candle of one interval.
#[derive(Debug, PartialEq, Eq)]
pub struct Candle {
    pub symbol: String,
    pub interval: String,
    pub open: Decimal,
    pub high: Decimal,
    pub low: Decimal,
    pub close: Decimal,
    pub volume: Decimal,
    pub start_time: u64,
    pub close_time: u64,
    pub is_closed: bool,
}

impl Clone for Candle {
    fn clone(&self) -> (r: Self)
        ensures
            r == *self,
    {
        Candle {
            symbol: self.symbol.clone(),
            interval: self.interval.clone(),
            open: self.open.clone(),
            high: self.high.clone(),
            low: self.low.clone(),
            close: self.close.clone(),
            volume: self.volume.clone(),
            start_time: self.start_time,
            close_time: self.close_time,
            is_closed: self.is_closed,
        }
    }
}

/// Rolling 24-hour statistics.
#[derive(Debug, PartialEq, Eq)]
pub struct Ticker {
    pub symbol: String,
    pub price_change: Decimal,
    pub price_change_percent: Decimal,
    pub last_price: Decimal,
    pub open_price: Decimal,
    pub high_price: Decimal,
    pub low_price: Decimal,
    pub volume: Decimal,
    pub quote_volume: Decimal,
    pub timestamp: u64,
}

impl Clone for Ticker {
    fn clone(&self) -> (r: Self)
        ensures
            r == *self,
    {
        Ticker {
            symbol: self.symbol.clone(),
            price_change: self.price_change.clone(),
            price_change_percent: self.price_change_percent.clone(),
            last_price: self.last_price.clone(),
            open_price: self.open_price.clone(),
            high_price: self.high_price.clone(),
            low_price: self.low_price.clone(),
            volume: self.volume.clone(),
            quote_volume: self.quote_volume.clone(),
            timestamp: self.timestamp,
        }
    }
}

/// Best bid and ask.
#[derive(Debug, PartialEq, Eq)]
pub struct BookTicker {
    pub symbol: String,
    pub best_bid_price: Decimal,
    pub best_bid_qty: Decimal,
    pub best_ask_price: Decimal,
    pub best_ask_qty: Decimal,
}

impl Clone for BookTicker {
    fn clone(&self) -> (r: Self)
        ensures
            r == *self,
    {
        BookTicker {
            symbol: self.symbol.clone(),
            best_bid_price: self.best_bid_price.clone(),
            best_bid_qty: self.best_bid_qty.clone(),
            best_ask_price: self.best_ask_price.clone(),
            best_ask_qty: self.best_ask_qty.clone(),
        }
    }
}

/// Mark and index price of a derivative.
#[derive(Debug, PartialEq, Eq)]
pub struct MarkPrice {
    pub symbol: String,
    pub mark_price: Decimal,
    pub index_price: Decimal,
    pub next_funding_time: u64,
}

impl Clone for MarkPrice {
    fn clone(&self) -> (r: Self)
        ensures
            r == *self,
    {
        MarkPrice {
            symbol: self.symbol.clone(),
            mark_price: self.mark_price.clone(),
            index_price: self.index_price.clone(),
            next_funding_time: self.next_funding_time,
        }
    }
}

/// A forced order.
#[derive(Debug, PartialEq, Eq)]
pub struct Liquidation {
    pub symbol: String,
    pub price: Decimal,
    pub quantity: Decimal,
    pub side: TradeSide,
}

impl Clone for Liquidation {
    fn clone(&self) -> (r: Self)
        ensures
            r == *self,
    {
        Liquidation {
            symbol: self.symbol.clone(),
            price: self.price.clone(),
            quantity: self.quantity.clone(),
            side: self.side,
        }
    }
}

/// The funding rate of a perpetual.
#[derive(Debug, PartialEq, Eq)]
pub struct FundingRate {
    pub symbol: String,
    pub rate: Decimal,
    pub time: u64,
}

impl Clone for FundingRate {
    fn clone(&self) -> (r: Self)
        ensures
            r == *self,
    {
        FundingRate { symbol: self.symbol.clone(), rate: self.rate.clone(), time: self.time }
    }
}

/// Open interest of a derivative.
#[derive(Debug, PartialEq, Eq)]
pub struct OpenInterest {
    pub symbol: String,
    pub open_interest: Decimal,
    pub time: u64,
}

impl Clone for OpenInterest {
    fn clone(&self) -> (r: Self)
        ensures
            r == *self,
    {
        OpenInterest {
            symbol: self.symbol.clone(),
            open_interest: self.open_interest.clone(),
            time: self.time,
        }
    }
}

/// A market event of any family.
#[derive(Debug, PartialEq, Eq)]
pub enum MarketData {
    OrderBook(OrderBook),
    Trade(Trade),
    AggTrade(AggTrade),
    Candle(Candle),
    /// The reply to a history request and the tail of a snapshot burst. It
    /// is an envelope for one client and is never published.
    HistoricalCandles(Vec<Candle>),
    Ticker(Ticker),
    BookTicker(BookTicker),
    MarkPrice(MarkPrice),
    Liquidation(Liquidation),
    FundingRate(FundingRate),
    OpenInterest(OpenInterest),
}

/// What a `MarketData` holds.
pub ghost enum MarketDataView {
    OrderBook(OrderBookView),
    Trade(Trade),
    AggTrade(AggTrade),
    Candle(Candle),
    HistoricalCandles(Seq<Candle>),
    Ticker(Ticker),
    BookTicker(BookTicker),
    MarkPrice(MarkPrice),
    Liquidation(Liquidation),
    FundingRate(FundingRate),
    OpenInterest(OpenInterest),
}

/// The event families, one per variant of `MarketData`.
#[derive(Debug, Copy, PartialEq, Eq, Structural)]
pub enum Family {
    OrderBook,
    Trade,
    AggTrade,
    Candle,
    HistoricalCandles,
    Ticker,
    BookTicker,
    MarkPrice,
    Liquidation,
    FundingRate,
    OpenInterest,
}

impl Clone for Family {
    fn clone(&self) -> (r: Self)
        ensures
            r == *self,
    {
        *self
    }
}

impl MarketDataView {
    /// The topic the event belongs to; a history envelope has none.
    pub open spec fn topic(self) -> Option<Seq<char>> {
        match self {
            MarketDataView::OrderBook(b) => Some(b.symbol),
            MarketDataView::Trade(t) => Some(t.symbol@),
            MarketDataView::AggTrade(t) => Some(t.symbol@),
            MarketDataView::Candle(c) => Some(c.symbol@),
            MarketDataView::HistoricalCandles(_) => None,
            MarketDataView::Ticker(t) => Some(t.symbol@),
            MarketDataView::BookTicker(t) => Some(t.symbol@),
            MarketDataView::MarkPrice(p) => Some(p.symbol@),
            MarketDataView::Liquidation(l) => Some(l.symbol@),
            MarketDataView::FundingRate(r) => Some(r.symbol@),
            MarketDataView::OpenInterest(o) => Some(o.symbol@),
        }
    }

    /// The family of the event.
    pub open spec fn family(self) -> Family {
        match self {
            MarketDataView::OrderBook(_) => Family::OrderBook,
            MarketDataView::Trade(_) => Family::Trade,
            MarketDataView::AggTrade(_) => Family::AggTrade,
            MarketDataView::Candle(_) => Family::Candle,
            MarketDataView::HistoricalCandles(_) => Family::HistoricalCandles,
            MarketDataView::Ticker(_) => Family::Ticker,
            MarketDataView::BookTicker(_) => Family::BookTicker,
            MarketDataView::MarkPrice(_) => Family::MarkPrice,
            MarketDataView::Liquidation(_) => Family::Liquidation,
            MarketDataView::FundingRate(_) => Family::FundingRate,
            MarketDataView::OpenInterest(_) => Family::OpenInterest,
        }
    }
}

impl View for MarketData {
    type V = MarketDataView;

    open spec fn view(&self) -> MarketDataView {
        match self {
            MarketData::OrderBook(b) => MarketDataView::OrderBook(b@),
            MarketData::Trade(t) => MarketDataView::Trade(*t),
            MarketData::AggTrade(t) => MarketDataView::AggTrade(*t),
            MarketData::Candle(c) => MarketDataView::Candle(*c),
            MarketData::HistoricalCandles(cs) => MarketDataView::HistoricalCandles(cs@),
            MarketData::Ticker(t) => MarketDataView::Ticker(*t),
            MarketData::BookTicker(t) => MarketDataView::BookTicker(*t),
            MarketData::MarkPrice(p) => MarketDataView::MarkPrice(*p),
            MarketData::Liquidation(l) => MarketDataView::Liquidation(*l),
            MarketData::FundingRate(r) => MarketDataView::FundingRate(*r),
            MarketData::OpenInterest(o) => MarketDataView::OpenInterest(*o),
        }
    }
}

impl MarketData {
    /// The topic of the event, or `None` for a history envelope.
    pub fn topic(&self) -> (t: Option<&String>)
        ensures
            match t {
                Some(s) => self@.topic() == Some(s@),
                None => self@.topic().is_none(),
            },
    {
        match self {
            MarketData::OrderBook(b) => Some(&b.symbol),
            MarketData::Trade(t) => Some(&t.symbol),
            MarketData::AggTrade(t) => Some(&t.symbol),
            MarketData::Candle(c) => Some(&c.symbol),
            MarketData::HistoricalCandles(_) => None,
            MarketData::Ticker(t) => Some(&t.symbol),
            MarketData::BookTicker(t) => Some(&t.symbol),
            MarketData::MarkPrice(p) => Some(&p.symbol),
            MarketData::Liquidation(l) => Some(&l.symbol),
            MarketData::FundingRate(r) => Some(&r.symbol),
            MarketData::OpenInterest(o) => Some(&o.symbol),
        }
    }

    /// The family of the event.
    pub fn family(&self) -> (f: Family)
        ensures
            f == self@.family(),
    {
        match self {
            MarketData::OrderBook(_) => Family::OrderBook,
            MarketData::Trade(_) => Family::Trade,
            MarketData::AggTrade(_) => Family::AggTrade,
            MarketData::Candle(_) => Family::Candle,
            MarketData::HistoricalCandles(_) => Family::HistoricalCandles,
            MarketData::Ticker(_) => Family::Ticker,
            MarketData::BookTicker(_) => Family::BookTicker,
            MarketData::MarkPrice(_) => Family::MarkPrice,
            MarketData::Liquidation(_) => Family::Liquidation,
            MarketData::FundingRate(_) => Family::FundingRate,
            MarketData::OpenInterest(_) => Family::OpenInterest,
        }
    }
}

impl Clone for MarketData {
    fn clone(&self) -> (r: Self)
        ensures
            r@ == self@,
    {
        match self {
            MarketData::OrderBook(b) => MarketData::OrderBook(b.clone()),
            MarketData::Trade(t) => MarketData::Trade(t.clone()),
            MarketData::AggTrade(t) => MarketData::AggTrade(t.clone()),
            MarketData::Candle(c) => MarketData::Candle(c.clone()),
            MarketData::HistoricalCandles(cs) => MarketData::HistoricalCandles(cs.clone()),
            MarketData::Ticker(t) => MarketData::Ticker(t.clone()),
            MarketData::BookTicker(t) => MarketData::BookTicker(t.clone()),
            MarketData::MarkPrice(p) => MarketData::MarkPrice(p.clone()),
            MarketData::Liquidation(l) => MarketData::Liquidation(l.clone()),
            MarketData::FundingRate(r) => MarketData::FundingRate(r.clone()),
            MarketData::OpenInterest(o) => MarketData::OpenInterest(o.clone()),
        }
    }
}

/// Which event families a connector subscribes to.
#[derive(Debug, PartialEq, Eq)]
pub struct StreamConfig {
    pub raw_trades: bool,
    pub agg_trades: bool,
    pub order_book: bool,
    /// Candle intervals to subscribe to, in the order requested.
    pub kline_intervals: Vec<String>,
    pub ticker: bool,
    pub book_ticker: bool,
    pub mark_price: bool,
    pub index_price: bool,
    pub liquidation: bool,
    pub funding_rate: bool,
    pub open_interest: bool,
    pub greeks: bool,
}

/// What a `StreamConfig` holds.
pub ghost struct StreamConfigView {
    pub raw_trades: bool,
    pub agg_trades: bool,
    pub order_book: bool,
    pub kline_intervals: Seq<Seq<char>>,
    pub ticker: bool,
    pub book_ticker: bool,
    pub mark_price: bool,
    pub index_price: bool,
    pub liquidation: bool,
    pub funding_rate: bool,
    pub open_interest: bool,
    pub greeks: bool,
}

/// The texts of a sequence of strings.
pub open spec fn texts(strings: Seq<String>) -> Seq<Seq<char>> {
    strings.map_values(|s: String| s@)
}

impl View for StreamConfig {
    type V = StreamConfigView;

    open spec fn view(&self) -> StreamConfigView {
        StreamConfigView {
            raw_trades: self.raw_trades,
            agg_trades: self.agg_trades,
            order_book: self.order_book,
            kline_intervals: texts(self.kline_intervals@),
            ticker: self.ticker,
            book_ticker: self.book_ticker,
            mark_price: self.mark_price,
            index_price: self.index_price,
            liquidation: self.liquidation,
            funding_rate: self.funding_rate,
            open_interest: self.open_interest,
            greeks: self.greeks,
        }
    }
}

/// Whether a market type has the derivative-only families: mark and index
/// price, liquidations, funding rate and open interest.
pub open spec fn has_derivative_streams(market_type: MarketType) -> bool {
    market_type != MarketType::Spot
}

/// Whether a market type quotes option greeks.
pub open spec fn has_greeks(market_type: MarketType) -> bool {
    market_type == MarketType::Option
}

impl StreamConfigView {
    /// The configuration with every family that `market_type` lacks switched
    /// off, and nothing else changed.
    pub open spec fn sanitized(self, market_type: MarketType) -> StreamConfigView {
        StreamConfigView {
            mark_price: self.mark_price && has_derivative_streams(market_type),
            index_price: self.index_price && has_derivative_streams(market_type),
            liquidation: self.liquidation && has_derivative_streams(market_type),
            funding_rate: self.funding_rate && has_derivative_streams(market_type),
            open_interest: self.open_interest && has_derivative_streams(market_type),
            greeks: self.greeks && has_greeks(market_type),
            ..self
        }
    }

    /// Whether the configuration asks for events of `family`. Funding rate
    /// rides on the mark-price stream and open interest has a switch of its
    /// own; a history envelope is never asked of a connector.
    pub open spec fn enables(self, family: Family) -> bool {
        match family {
            Family::OrderBook => self.order_book,
            Family::Trade => self.raw_trades,
            Family::AggTrade => self.agg_trades,
            Family::Candle => self.kline_intervals.len() > 0,
            Family::HistoricalCandles => false,
            Family::Ticker => self.ticker,
            Family::BookTicker => self.book_ticker,
            Family::MarkPrice => self.mark_price,
            Family::Liquidation => self.liquidation,
            Family::FundingRate => self.funding_rate,
            Family::OpenInterest => self.open_interest,
        }
    }
}

impl StreamConfig {
    /// Clears the families that do not exist on `market_type`: a spot market
    /// has no mark price, index price, liquidations, funding rate, open
    /// interest or greeks; a future has no greeks; an option keeps all.
    pub fn sanitize_for_market(&self, market_type: MarketType) -> (clean: StreamConfig)
        ensures
            clean@ == self@.sanitized(market_type),
    {
        let derivative = match market_type {
            MarketType::Spot => false,
            _ => true,
        };
        let option = match market_type {
            MarketType::Option => true,
            _ => false,
        };
        StreamConfig {
            raw_trades: self.raw_trades,
            agg_trades: self.agg_trades,
            order_book: self.order_book,
            kline_intervals: self.kline_intervals.clone(),
            ticker: self.ticker,
            book_ticker: self.book_ticker,
            mark_price: self.mark_price && derivative,
            index_price: self.index_price && derivative,
            liquidation: self.liquidation && derivative,
            funding_rate: self.funding_rate && derivative,
            open_interest: self.open_interest && derivative,
            greeks: self.greeks && option,
        }
    }
}

impl Clone for StreamConfig {
    fn clone(&self) -> (r: Self)
        ensures
            r@ == self@,
    {
        StreamConfig {
            raw_trades: self.raw_trades,
            agg_trades: self.agg_trades,
            order_book: self.order_book,
            kline_intervals: self.kline_intervals.clone(),
            ticker: self.ticker,
            book_ticker: self.book_ticker,
            mark_price: self.mark_price,
            index_price: self.index_price,
            liquidation: self.liquidation,
            funding_rate: self.funding_rate,
            open_interest: self.open_interest,
            greeks: self.greeks,
        }
    }
}

/// The intervals a configuration subscribes to when it is not told which.
pub open spec fn default_intervals() -> Seq<Seq<char>> {
    seq!["1m"@, "5m"@, "15m"@, "1h"@, "4h"@, "1d"@]
}

/// The configuration a connector gets when nothing else is said: trades,
/// aggregated trades, the order book and the common candle intervals, and
/// none of the other families.
pub open spec fn default_stream_config() -> StreamConfigView {
    StreamConfigView {
        raw_trades: true,
        agg_trades: true,
        order_book: true,
        kline_intervals: default_intervals(),
        ticker: false,
        book_ticker: false,
        mark_price: false,
        index_price: false,
        liquidation: false,
        funding_rate: false,
        open_interest: false,
        greeks: false,
    }
}

impl Default for StreamConfig {
    fn default() -> (c: StreamConfig)
        ensures
            c@ == default_stream_config(),
    {
        let mut intervals: Vec<String> = Vec::new();
        intervals.push("1m".to_owned());
        intervals.push("5m".to_owned());
        intervals.push("15m".to_owned());
        intervals.push("1h".to_owned());
        intervals.push("4h".to_owned());
        intervals.push("1d".to_owned());
        assert(texts(intervals@) =~= default_intervals());
        StreamConfig {
            raw_trades: true,
            agg_trades: true,
            order_book: true,
            kline_intervals: intervals,
            ticker: false,
            book_ticker: false,
            mark_price: false,
            index_price: false,
            liquidation: false,
            funding_rate: false,
            open_interest: false,
            greeks: false,
        }
    }
}

/// What a client asks of the server.
#[derive(Debug, Copy, PartialEq, Eq, Structural)]
pub enum CommandAction {
    Subscribe,
    Unsubscribe,
    FetchHistory,
}

impl Clone for CommandAction {
    fn clone(&self) -> (r: Self)
        ensures
            r == *self,
    {
        *self
    }
}

/// One client command.
#[derive(Debug, PartialEq, Eq)]
pub struct Command {
    pub action: CommandAction,
    /// The raw symbol, as the venue names it.
    pub channel: String,
    pub exchange: Exchange,
    pub market_type: MarketType,
    /// Upper bound of a history request, in milliseconds since the epoch.
    pub end_time: Option<u64>,
    /// The stream configuration to launch a connector with, if the client
    /// brings one.
    pub config: Option<StreamConfig>,
}

/// What a `Command` holds.
pub ghost struct CommandView {
    pub action: CommandAction,
    pub channel: Seq<char>,
    pub exchange: Exchange,
    pub market_type: MarketType,
    pub end_time: Option<u64>,
    pub config: Option<StreamConfigView>,
}

impl View for Command {
    type V = CommandView;

    open spec fn view(&self) -> CommandView {
        CommandView {
            action: self.action,
            channel: self.channel@,
            exchange: self.exchange,
            market_type: self.market_type,
            end_time: self.end_time,
            config: match self.config {
                Some(c) => Some(c@),
                None => None,
            },
        }
    }
}

} // verus!
