//! The state kept for one topic: a slot for each single-valued family and a
//! bounded queue for each family that keeps a recent history.

use vstd::prelude::*;
use std::collections::VecDeque;
use crate::models::{
    AggTrade, BookTicker, Candle, FundingRate, Liquidation, MarkPrice, OpenInterest, OrderBook,
    OrderBookView, Ticker, Trade,
};
use crate::sorting::{keep_last, sort_by_start, sort_queue, sorted_by_start};
use crate::sorting::{lemma_keep_last_sorted, lemma_sort_by_start};

verus! {

/// A bounded queue after `item` has come in at its back: where that takes it
/// over `capacity`, the oldest items leave at the front.
pub open spec fn fifo_push<T>(queue: Seq<T>, item: T, capacity: nat) -> Seq<T> {
    keep_last(queue.push(item), capacity)
}

/// The test for a candle that starts before `end_time`.
pub open spec fn starts_before(end_time: u64) -> spec_fn(Candle) -> bool {
    |candle: Candle| candle.start_time < end_time
}

/// What a `SymbolState` holds.
pub ghost struct SymbolStateView {
    pub order_book: Option<OrderBookView>,
    /// Oldest first.
    pub trades: Seq<Trade>,
    pub agg_trades: Seq<AggTrade>,
    /// The intervals that have a candle queue, in the order they first came.
    pub intervals: Seq<Seq<char>>,
    /// The candle queue of each such interval.
    pub candles: Map<Seq<char>, Seq<Candle>>,
    pub ticker: Option<Ticker>,
    pub book_ticker: Option<BookTicker>,
    pub mark_price: Option<MarkPrice>,
    pub liquidations: Seq<Liquidation>,
    pub funding_rate: Option<FundingRate>,
    pub open_interest: Option<OpenInterest>,
    /// Capacity of the trade, aggregated-trade and liquidation queues.
    pub trade_limit: nat,
    /// Capacity of each candle queue.
    pub candle_limit: nat,
}

impl SymbolStateView {
    /// The state of a topic nothing has been written to.
    pub open spec fn empty(trade_limit: nat, candle_limit: nat) -> SymbolStateView {
        SymbolStateView {
            order_book: None,
            trades: Seq::empty(),
            agg_trades: Seq::empty(),
            intervals: Seq::empty(),
            candles: Map::empty(),
            ticker: None,
            book_ticker: None,
            mark_price: None,
            liquidations: Seq::empty(),
            funding_rate: None,
            open_interest: None,
            trade_limit,
            candle_limit,
        }
    }

    /// The candles kept for `interval`, oldest first; none where the interval
    /// has no queue.
    pub open spec fn candles_of(self, interval: Seq<char>) -> Seq<Candle> {
        if self.candles.dom().contains(interval) {
            self.candles[interval]
        } else {
            Seq::empty()
        }
    }

    pub open spec fn with_order_book(self, book: OrderBookView) -> SymbolStateView {
        SymbolStateView { order_book: Some(book), ..self }
    }

    pub open spec fn with_trade(self, trade: Trade) -> SymbolStateView {
        SymbolStateView { trades: fifo_push(self.trades, trade, self.trade_limit), ..self }
    }

    pub open spec fn with_agg_trade(self, trade: AggTrade) -> SymbolStateView {
        SymbolStateView {
            agg_trades: fifo_push(self.agg_trades, trade, self.trade_limit),
            ..self
        }
    }

    /// The state after `candle` has come in at the back of the queue of its
    /// interval.
    pub open spec fn with_candle(self, candle: Candle) -> SymbolStateView {
        let interval = candle.interval@;
        SymbolStateView {
            intervals: if self.intervals.contains(interval) {
                self.intervals
            } else {
                self.intervals.push(interval)
            },
            candles: self.candles.insert(
                interval,
                fifo_push(self.candles_of(interval), candle, self.candle_limit),
            ),
            ..self
        }
    }

    /// The state after each of `candles` has come in, in turn.
    pub open spec fn with_candles(self, candles: Seq<Candle>) -> SymbolStateView
        decreases candles.len(),
    {
        if candles.len() == 0 {
            self
        } else {
            self.with_candles(candles.drop_last()).with_candle(candles.last())
        }
    }

    /// The state with every candle queue put in order of start time.
    pub open spec fn sorted(self) -> SymbolStateView {
        SymbolStateView {
            candles: self.candles.map_values(|queue: Seq<Candle>| sort_by_start(queue)),
            ..self
        }
    }

    /// The state after a bulk load: each candle comes in at the back of the
    /// queue of its interval, each queue keeps its newest `candle_limit`, and
    /// then every queue of the topic is put in order. An empty load leaves
    /// the state as it is.
    pub open spec fn with_history(self, candles: Seq<Candle>) -> SymbolStateView {
        if candles.len() == 0 {
            self
        } else {
            self.with_candles(candles).sorted()
        }
    }

    pub open spec fn with_ticker(self, ticker: Ticker) -> SymbolStateView {
        SymbolStateView { ticker: Some(ticker), ..self }
    }

    pub open spec fn with_book_ticker(self, ticker: BookTicker) -> SymbolStateView {
        SymbolStateView { book_ticker: Some(ticker), ..self }
    }

    pub open spec fn with_mark_price(self, price: MarkPrice) -> SymbolStateView {
        SymbolStateView { mark_price: Some(price), ..self }
    }

    pub open spec fn with_liquidation(self, liquidation: Liquidation) -> SymbolStateView {
        SymbolStateView {
            liquidations: fifo_push(self.liquidations, liquidation, self.trade_limit),
            ..self
        }
    }

    pub open spec fn with_funding_rate(self, rate: FundingRate) -> SymbolStateView {
        SymbolStateView { funding_rate: Some(rate), ..self }
    }

    pub open spec fn with_open_interest(self, interest: OpenInterest) -> SymbolStateView {
        SymbolStateView { open_interest: Some(interest), ..self }
    }

    /// The candle queues, in the order their intervals first came.
    pub open spec fn candle_queues(self) -> Seq<Seq<Candle>> {
        Seq::new(self.intervals.len(), |k: int| self.candles_of(self.intervals[k]))
    }

    /// The candles of all intervals, interval after interval in the order the
    /// intervals first came, each interval's candles oldest first.
    pub open spec fn all_candles(self) -> Seq<Candle> {
        self.candle_queues().flatten()
    }

    /// The answer to a history query: of the candles of all intervals that
    /// start before `end_time`, in order of start time, the last `limit`.
    pub open spec fn history(self, end_time: u64, limit: nat) -> Seq<Candle> {
        keep_last(sort_by_start(self.all_candles().filter(starts_before(end_time))), limit)
    }

    /// No queue holds more than its capacity.
    pub open spec fn bounded(self) -> bool {
        &&& self.trades.len() <= self.trade_limit
        &&& self.agg_trades.len() <= self.trade_limit
        &&& self.liquidations.len() <= self.trade_limit
        &&& forall|interval: Seq<char>| #[trigger]
            self.candles.dom().contains(interval) ==> self.candles[interval].len()
                <= self.candle_limit
    }

    /// Every candle queue is in non-decreasing order of start time.
    pub open spec fn candles_sorted(self) -> bool {
        forall|interval: Seq<char>| #[trigger]
            self.candles.dom().contains(interval) ==> sorted_by_start(self.candles[interval])
    }

    /// The queues are bounded, and the intervals listed are exactly those
    /// that have a queue, each listed once.
    pub open spec fn well_formed(self) -> bool {
        &&& self.bounded()
        &&& self.intervals.no_duplicates()
        &&& forall|interval: Seq<char>|
            self.intervals.contains(interval) <==> #[trigger] self.candles.dom().contains(
                interval,
            )
    }

    /// Every event kept carries `topic` as its symbol.
    pub open spec fn agrees_with(self, topic: Seq<char>) -> bool {
        &&& self.order_book matches Some(b) ==> b.symbol == topic
        &&& forall|i: int| 0 <= i < self.trades.len() ==> (#[trigger] self.trades[i]).symbol@ == topic
        &&& forall|i: int|
            0 <= i < self.agg_trades.len() ==> (#[trigger] self.agg_trades[i]).symbol@ == topic
        &&& forall|interval: Seq<char>, i: int|
            self.candles.dom().contains(interval) && 0 <= i < self.candles[interval].len() ==> (
            #[trigger] self.candles[interval][i]).symbol@ == topic
        &&& self.ticker matches Some(t) ==> t.symbol@ == topic
        &&& self.book_ticker matches Some(t) ==> t.symbol@ == topic
        &&& self.mark_price matches Some(p) ==> p.symbol@ == topic
        &&& forall|i: int|
            0 <= i < self.liquidations.len() ==> (#[trigger] self.liquidations[i]).symbol@
                == topic
        &&& self.funding_rate matches Some(r) ==> r.symbol@ == topic
        &&& self.open_interest matches Some(o) ==> o.symbol@ == topic
    }
}

/// A bounded queue stays within its capacity when an item comes in, and
/// holds nothing but what it held and the item.
pub proof fn lemma_fifo_push<T>(queue: Seq<T>, item: T, capacity: nat)
    ensures
        fifo_push(queue, item, capacity).len() <= capacity,
        forall|i: int|
            0 <= i < fifo_push(queue, item, capacity).len() ==> {
                let x = #[trigger] fifo_push(queue, item, capacity)[i];
                x == item || queue.contains(x)
            },
        queue.len() < capacity ==> fifo_push(queue, item, capacity) == queue.push(item),
        queue.len() == capacity && capacity > 0 ==> fifo_push(queue, item, capacity)
            == queue.drop_first().push(item),
{
    let grown = queue.push(item);
    let out = fifo_push(queue, item, capacity);
    assert forall|i: int| 0 <= i < out.len() implies {
        let x = #[trigger] out[i];
        x == item || queue.contains(x)
    } by {
        let j = if grown.len() > capacity {
            i + grown.len() - capacity
        } else {
            i
        };
        assert(out[i] == grown[j]);
        if j < queue.len() {
            assert(queue[j] == grown[j]);
        }
    }
    if queue.len() == capacity && capacity > 0 {
        assert(out =~= queue.drop_first().push(item));
    }
}

/// The candle queue of one interval.
pub struct CandleSeries {
    interval: String,
    candles: VecDeque<Candle>,
}

/// Whether the `k`-th series is the one of `interval`.
spec fn is_series_of(series: Seq<CandleSeries>, k: int, interval: Seq<char>) -> bool {
    0 <= k < series.len() && series[k].interval@ == interval
}

spec fn series_intervals(series: Seq<CandleSeries>) -> Seq<Seq<char>> {
    Seq::new(series.len(), |k: int| series[k].interval@)
}

spec fn series_candles(series: Seq<CandleSeries>) -> Seq<Seq<Candle>> {
    Seq::new(series.len(), |k: int| series[k].candles@)
}

spec fn series_map(series: Seq<CandleSeries>) -> Map<Seq<char>, Seq<Candle>> {
    Map::new(
        |interval: Seq<char>| exists|k: int| is_series_of(series, k, interval),
        |interval: Seq<char>| series[choose|k: int| is_series_of(series, k, interval)].candles@,
    )
}

/// No two series are of the same interval.
spec fn series_distinct(series: Seq<CandleSeries>) -> bool {
    forall|j: int, k: int|
        0 <= j < k < series.len() ==> (#[trigger] series[j]).interval@ != (
        #[trigger] series[k]).interval@
}

spec fn series_bounded(series: Seq<CandleSeries>, limit: nat) -> bool {
    forall|k: int| 0 <= k < series.len() ==> (#[trigger] series[k]).candles@.len() <= limit
}

proof fn lemma_series_map(series: Seq<CandleSeries>)
    requires
        series_distinct(series),
    ensures
        forall|k: int|
            0 <= k < series.len() ==> {
                &&& #[trigger] series_map(series).dom().contains(series[k].interval@)
                &&& series_map(series)[series[k].interval@] == series[k].candles@
            },
        forall|interval: Seq<char>| #[trigger]
            series_map(series).dom().contains(interval) <==> exists|k: int|
                is_series_of(series, k, interval),
        forall|interval: Seq<char>| #[trigger]
            series_intervals(series).contains(interval) <==> series_map(series).dom().contains(
                interval,
            ),
        series_intervals(series).no_duplicates(),
{
    assert forall|k: int| 0 <= k < series.len() implies {
        &&& #[trigger] series_map(series).dom().contains(series[k].interval@)
        &&& series_map(series)[series[k].interval@] == series[k].candles@
    } by {
        let interval = series[k].interval@;
        assert(is_series_of(series, k, interval));
        let c = choose|c: int| is_series_of(series, c, interval);
        assert(is_series_of(series, c, interval));
        if c < k {
            assert(series[c].interval@ != series[k].interval@);
        } else if k < c {
            assert(series[k].interval@ != series[c].interval@);
        }
    }
    assert forall|interval: Seq<char>| #[trigger]
        series_intervals(series).contains(interval) <==> series_map(series).dom().contains(
            interval,
        ) by {
        if series_intervals(series).contains(interval) {
            let k = choose|k: int|
                0 <= k < series_intervals(series).len() && series_intervals(series)[k] == interval;
            assert(is_series_of(series, k, interval));
        }
        if series_map(series).dom().contains(interval) {
            let k = choose|k: int| is_series_of(series, k, interval);
            assert(series_intervals(series)[k] == interval);
        }
    }
    assert forall|j: int, k: int|
        0 <= j < series_intervals(series).len() && 0 <= k < series_intervals(series).len() && j
            != k implies series_intervals(series)[j] != series_intervals(series)[k] by {
        if j < k {
            assert(series[j].interval@ != series[k].interval@);
        } else {
            assert(series[k].interval@ != series[j].interval@);
        }
    }
}

/// The series that holds the candles of `interval`, or the number of series
/// where none does.
fn position_of(series: &Vec<CandleSeries>, interval: &String) -> (k: usize)
    ensures
        k <= series@.len(),
        k < series@.len() ==> series@[k as int].interval@ == interval@,
        forall|j: int| 0 <= j < k ==> (#[trigger] series@[j]).interval@ != interval@,
{
    let mut k: usize = 0;
    while k < series.len()
        invariant
            k <= series@.len(),
            forall|j: int| 0 <= j < k ==> (#[trigger] series@[j]).interval@ != interval@,
        decreases series@.len() - k,
    {
        if series[k].interval == *interval {
            return k;
        }
        k = k + 1;
    }
    k
}

/// Lets `item` in at the back of `queue` and the oldest item out at the
/// front where the queue would otherwise hold more than `capacity`.
fn push_bounded<T>(queue: &mut VecDeque<T>, item: T, capacity: usize)
    requires
        old(queue)@.len() <= capacity,
    ensures
        final(queue)@ == fifo_push(old(queue)@, item, capacity as nat),
        final(queue)@.len() <= capacity,
{
    queue.push_back(item);
    if queue.len() > capacity {
        let _ = queue.pop_front();
    }
}

/// The bounded state of one topic.
pub struct SymbolState {
    order_book: Option<OrderBook>,
    trades: VecDeque<Trade>,
    agg_trades: VecDeque<AggTrade>,
    candles: Vec<CandleSeries>,
    ticker: Option<Ticker>,
    book_ticker: Option<BookTicker>,
    mark_price: Option<MarkPrice>,
    liquidations: VecDeque<Liquidation>,
    funding_rate: Option<FundingRate>,
    open_interest: Option<OpenInterest>,
    trade_limit: usize,
    candle_limit: usize,
}

impl View for SymbolState {
    type V = SymbolStateView;

    closed spec fn view(&self) -> SymbolStateView {
        SymbolStateView {
            order_book: match self.order_book {
                Some(b) => Some(b@),
                None => None,
            },
            trades: self.trades@,
            agg_trades: self.agg_trades@,
            intervals: series_intervals(self.candles@),
            candles: series_map(self.candles@),
            ticker: self.ticker,
            book_ticker: self.book_ticker,
            mark_price: self.mark_price,
            liquidations: self.liquidations@,
            funding_rate: self.funding_rate,
            open_interest: self.open_interest,
            trade_limit: self.trade_limit as nat,
            candle_limit: self.candle_limit as nat,
        }
    }
}

impl SymbolState {
    #[verifier::type_invariant]
    spec fn inv(self) -> bool {
        &&& self.trades@.len() <= self.trade_limit
        &&& self.agg_trades@.len() <= self.trade_limit
        &&& self.liquidations@.len() <= self.trade_limit
        &&& series_distinct(self.candles@)
        &&& series_bounded(self.candles@, self.candle_limit as nat)
    }

    proof fn lemma_well_formed(self)
        requires
            self.inv(),
        ensures
            self@.well_formed(),
    {
        lemma_series_map(self.candles@);
        assert forall|interval: Seq<char>| #[trigger]
            self@.candles.dom().contains(interval) implies self@.candles[interval].len()
            <= self@.candle_limit by {
            let k = choose|k: int| is_series_of(self.candles@, k, interval);
            assert(is_series_of(self.candles@, k, interval));
            assert(self@.candles[self.candles@[k].interval@] == self.candles@[k].candles@);
        }
    }

    /// The state of a topic nothing has been written to, with the given
    /// capacities.
    pub fn new(trade_cap: usize, candle_cap: usize) -> (state: SymbolState)
        ensures
            state@ == SymbolStateView::empty(trade_cap as nat, candle_cap as nat),
            state@.well_formed(),
    {
        let state = SymbolState {
            order_book: None,
            trades: VecDeque::new(),
            agg_trades: VecDeque::new(),
            candles: Vec::new(),
            ticker: None,
            book_ticker: None,
            mark_price: None,
            liquidations: VecDeque::new(),
            funding_rate: None,
            open_interest: None,
            trade_limit: trade_cap,
            candle_limit: candle_cap,
        };
        proof {
            state.lemma_well_formed();
            assert(state@.intervals =~= Seq::empty());
            assert(state@.candles =~= Map::empty());
        }
        state
    }

    /// Replaces the order book.
    pub fn update_order_book(&mut self, book: OrderBook)
        ensures
            final(self)@ == old(self)@.with_order_book(book@),
            final(self)@.well_formed(),
    {
        proof {
            use_type_invariant(&*self);
        }
        self.order_book = Some(book);
        proof {
            self.lemma_well_formed();
        }
    }

    /// Appends a trade; the oldest leaves where the queue is full.
    pub fn add_trade(&mut self, trade: Trade)
        ensures
            final(self)@ == old(self)@.with_trade(trade),
            final(self)@.well_formed(),
    {
        proof {
            use_type_invariant(&*self);
        }
        let mut queue: VecDeque<Trade> = VecDeque::new();
        std::mem::swap(&mut queue, &mut self.trades);
        push_bounded(&mut queue, trade, self.trade_limit);
        self.trades = queue;
        proof {
            self.lemma_well_formed();
        }
    }

    /// Appends an aggregated trade; the oldest leaves where the queue is full.
    pub fn add_agg_trade(&mut self, trade: AggTrade)
        ensures
            final(self)@ == old(self)@.with_agg_trade(trade),
            final(self)@.well_formed(),
    {
        proof {
            use_type_invariant(&*self);
        }
        let mut queue: VecDeque<AggTrade> = VecDeque::new();
        std::mem::swap(&mut queue, &mut self.agg_trades);
        push_bounded(&mut queue, trade, self.trade_limit);
        self.agg_trades = queue;
        proof {
            self.lemma_well_formed();
        }
    }

    /// Appends a candle to the queue of its interval, which is made where
    /// the interval is new; the oldest candle leaves where the queue is full.
    pub fn add_candle(&mut self, candle: Candle)
        ensures
            final(self)@ == old(self)@.with_candle(candle),
            final(self)@.well_formed(),
    {
        proof {
            use_type_invariant(&*self);
            lemma_series_map(self.candles@);
        }
        let ghost before = self.candles@;
        let ghost interval = candle.interval@;
        let mut series: Vec<CandleSeries> = Vec::new();
        std::mem::swap(&mut series, &mut self.candles);
        let k = position_of(&series, &candle.interval);
        if k == series.len() {
            series.push(CandleSeries { interval: candle.interval.clone(), candles: VecDeque::new() });
        }
        let ghost grown = series@;
        push_bounded(&mut series[k].candles, candle, self.candle_limit);
        proof {
            let after = series@;
            assert(after.len() == grown.len());
            assert(after[k as int].interval@ == interval);
            assert forall|j: int| 0 <= j < after.len() && j != k implies after[j] == grown[j] by {}
            assert forall|j: int| 0 <= j < before.len() implies #[trigger] grown[j] == before[j] by {}
            assert(series_distinct(after)) by {
                assert forall|i: int, j: int| 0 <= i < j < after.len() implies (
                #[trigger] after[i]).interval@ != (#[trigger] after[j]).interval@ by {
                    assert(after[i].interval@ == grown[i].interval@);
                    assert(after[j].interval@ == grown[j].interval@);
                    if j < before.len() {
                        assert(before[i].interval@ != before[j].interval@);
                    } else {
                        assert(before[i].interval@ != interval);
                    }
                }
            }
            lemma_series_map(after);
            let found = old(self)@.intervals.contains(interval);
            if k < before.len() {
                assert(is_series_of(before, k as int, interval));
                assert(old(self)@.candles_of(interval) == before[k as int].candles@);
                assert(series_intervals(after) =~= series_intervals(before));
            } else {
                assert(!old(self)@.candles.dom().contains(interval)) by {
                    if exists|j: int| is_series_of(before, j, interval) {
                        let j = choose|j: int| is_series_of(before, j, interval);
                        assert(before[j].interval@ != interval);
                    }
                }
                assert(series_intervals(after) =~= series_intervals(before).push(interval));
            }
            assert(series_map(after) =~= old(self)@.with_candle(candle).candles) by {
                let want = old(self)@.with_candle(candle).candles;
                assert forall|i: Seq<char>| series_map(after).dom().contains(i)
                    <==> want.dom().contains(i) by {
                    if series_map(after).dom().contains(i) {
                        let j = choose|j: int| is_series_of(after, j, i);
                        if j != k && j < before.len() {
                            assert(is_series_of(before, j, i));
                        }
                    }
                    if want.dom().contains(i) && i != interval {
                        let j = choose|j: int| is_series_of(before, j, i);
                        assert(is_series_of(after, j, i));
                    }
                    if i == interval {
                        assert(is_series_of(after, k as int, i));
                    }
                }
                assert forall|i: Seq<char>| series_map(after).dom().contains(i) implies series_map(
                    after,
                )[i] == want[i] by {
                    let j = choose|j: int| is_series_of(after, j, i);
                    assert(series_map(after)[after[j].interval@] == after[j].candles@);
                    if i != interval {
                        assert(j != k);
                        assert(is_series_of(before, j, i));
                        assert(series_map(before)[before[j].interval@] == before[j].candles@);
                    } else {
                        assert(series_map(after)[after[k as int].interval@] == after[k
                            as int].candles@);
                    }
                }
            }
            assert(series_bounded(after, self.candle_limit as nat));
        }
        self.candles = series;
        proof {
            self.lemma_well_formed();
        }
    }

    /// Replaces the ticker.
    pub fn update_ticker(&mut self, ticker: Ticker)
        ensures
            final(self)@ == old(self)@.with_ticker(ticker),
            final(self)@.well_formed(),
    {
        proof {
            use_type_invariant(&*self);
        }
        self.ticker = Some(ticker);
        proof {
            self.lemma_well_formed();
        }
    }

    /// Replaces the best bid and ask.
    pub fn update_book_ticker(&mut self, ticker: BookTicker)
        ensures
            final(self)@ == old(self)@.with_book_ticker(ticker),
            final(self)@.well_formed(),
    {
        proof {
            use_type_invariant(&*self);
        }
        self.book_ticker = Some(ticker);
        proof {
            self.lemma_well_formed();
        }
    }

    /// Replaces the mark price.
    pub fn update_mark_price(&mut self, price: MarkPrice)
        ensures
            final(self)@ == old(self)@.with_mark_price(price),
            final(self)@.well_formed(),
    {
        proof {
            use_type_invariant(&*self);
        }
        self.mark_price = Some(price);
        proof {
            self.lemma_well_formed();
        }
    }

    /// Appends a liquidation; the oldest leaves where the queue is full.
    pub fn add_liquidation(&mut self, liquidation: Liquidation)
        ensures
            final(self)@ == old(self)@.with_liquidation(liquidation),
            final(self)@.well_formed(),
    {
        proof {
            use_type_invariant(&*self);
        }
        let mut queue: VecDeque<Liquidation> = VecDeque::new();
        std::mem::swap(&mut queue, &mut self.liquidations);
        push_bounded(&mut queue, liquidation, self.trade_limit);
        self.liquidations = queue;
        proof {
            self.lemma_well_formed();
        }
    }

    /// Replaces the funding rate.
    pub fn update_funding_rate(&mut self, rate: FundingRate)
        ensures
            final(self)@ == old(self)@.with_funding_rate(rate),
            final(self)@.well_formed(),
    {
        proof {
            use_type_invariant(&*self);
        }
        self.funding_rate = Some(rate);
        proof {
            self.lemma_well_formed();
        }
    }

    /// Replaces the open interest.
    pub fn update_open_interest(&mut self, interest: OpenInterest)
        ensures
            final(self)@ == old(self)@.with_open_interest(interest),
            final(self)@.well_formed(),
    {
        proof {
            use_type_invariant(&*self);
        }
        self.open_interest = Some(interest);
        proof {
            self.lemma_well_formed();
        }
    }

    /// Puts every candle queue in order of start time.
    fn sort_candles(&mut self)
        ensures
            final(self)@ == old(self)@.sorted(),
            final(self)@.well_formed(),
            final(self)@.candles_sorted(),
    {
        proof {
            use_type_invariant(&*self);
            lemma_series_map(self.candles@);
        }
        let ghost before = self.candles@;
        let mut series: Vec<CandleSeries> = Vec::new();
        std::mem::swap(&mut series, &mut self.candles);
        let mut k: usize = 0;
        while k < series.len()
            invariant
                k <= series@.len(),
                series@.len() == before.len(),
                forall|j: int|
                    0 <= j < series@.len() ==> (#[trigger] series@[j]).interval@
                        == before[j].interval@,
                forall|j: int|
                    0 <= j < k ==> (#[trigger] series@[j]).candles@ == sort_by_start(
                        before[j].candles@,
                    ),
                forall|j: int| k <= j < series@.len() ==> (#[trigger] series@[j]) == before[j],
            decreases series@.len() - k,
        {
            sort_queue(&mut series[k].candles);
            k = k + 1;
        }
        proof {
            let after = series@;
            assert(series_intervals(after) =~= series_intervals(before));
            assert(series_distinct(after)) by {
                assert forall|i: int, j: int| 0 <= i < j < after.len() implies (
                #[trigger] after[i]).interval@ != (#[trigger] after[j]).interval@ by {
                    assert(before[i].interval@ != before[j].interval@);
                }
            }
            assert(series_bounded(after, self.candle_limit as nat)) by {
                assert forall|j: int| 0 <= j < after.len() implies (
                #[trigger] after[j]).candles@.len() <= self.candle_limit as nat by {
                    lemma_sort_by_start(before[j].candles@);
                    assert(before[j].candles@.len() <= self.candle_limit as nat);
                }
            }
            lemma_series_map(after);
            let want = old(self)@.sorted().candles;
            assert(series_map(after) =~= want) by {
                assert forall|i: Seq<char>| series_map(after).dom().contains(i)
                    <==> want.dom().contains(i) by {
                    if series_map(after).dom().contains(i) {
                        let j = choose|j: int| is_series_of(after, j, i);
                        assert(is_series_of(before, j, i));
                    }
                    if want.dom().contains(i) {
                        let j = choose|j: int| is_series_of(before, j, i);
                        assert(is_series_of(after, j, i));
                    }
                }
                assert forall|i: Seq<char>| series_map(after).dom().contains(i) implies series_map(
                    after,
                )[i] == want[i] by {
                    let j = choose|j: int| is_series_of(after, j, i);
                    assert(is_series_of(before, j, i));
                    assert(series_map(after)[after[j].interval@] == after[j].candles@);
                    assert(series_map(before)[before[j].interval@] == before[j].candles@);
                }
            }
            assert forall|i: Seq<char>| #[trigger] series_map(after).dom().contains(i) implies sorted_by_start(
                series_map(after)[i],
            ) by {
                let j = choose|j: int| is_series_of(after, j, i);
                assert(series_map(after)[after[j].interval@] == after[j].candles@);
                lemma_sort_by_start(before[j].candles@);
            }
        }
        self.candles = series;
        proof {
            self.lemma_well_formed();
        }
    }

    /// Loads candles in bulk: each comes in at the back of the queue of its
    /// interval, each queue keeps its newest, and then every candle queue of
    /// the topic is put in order of start time. An empty load changes nothing.
    pub fn load_historical_candles(&mut self, candles: Vec<Candle>)
        ensures
            final(self)@ == old(self)@.with_history(candles@),
            final(self)@.well_formed(),
            final(self)@.trade_limit == old(self)@.trade_limit,
            final(self)@.candle_limit == old(self)@.candle_limit,
            candles@.len() > 0 ==> final(self)@.candles_sorted(),
    {
        if candles.len() == 0 {
            proof {
                use_type_invariant(&*self);
                self.lemma_well_formed();
            }
            return ;
        }
        let mut i: usize = 0;
        while i < candles.len()
            invariant
                i <= candles@.len(),
                self@ == old(self)@.with_candles(candles@.subrange(0, i as int)),
                self@.trade_limit == old(self)@.trade_limit,
                self@.candle_limit == old(self)@.candle_limit,
            decreases candles@.len() - i,
        {
            let candle = candles[i].clone();
            proof {
                let next = candles@.subrange(0, i + 1);
                assert(next.drop_last() == candles@.subrange(0, i as int));
                assert(next.last() == candle);
            }
            self.add_candle(candle);
            i = i + 1;
        }
        proof {
            assert(candles@.subrange(0, i as int) == candles@);
        }
        self.sort_candles();
    }

    /// The order book, if one has come.
    pub fn get_order_book(&self) -> (book: Option<OrderBook>)
        ensures
            match book {
                Some(b) => self@.order_book == Some(b@),
                None => self@.order_book.is_none(),
            },
    {
        match &self.order_book {
            Some(b) => Some(b.clone()),
            None => None,
        }
    }

    /// The ticker, if one has come.
    pub fn get_ticker(&self) -> (ticker: Option<Ticker>)
        ensures
            ticker == self@.ticker,
    {
        match &self.ticker {
            Some(t) => Some(t.clone()),
            None => None,
        }
    }

    /// The best bid and ask, if they have come.
    pub fn get_book_ticker(&self) -> (ticker: Option<BookTicker>)
        ensures
            ticker == self@.book_ticker,
    {
        match &self.book_ticker {
            Some(t) => Some(t.clone()),
            None => None,
        }
    }

    /// The mark price, if one has come.
    pub fn get_mark_price(&self) -> (price: Option<MarkPrice>)
        ensures
            price == self@.mark_price,
    {
        match &self.mark_price {
            Some(p) => Some(p.clone()),
            None => None,
        }
    }

    /// The funding rate, if one has come.
    pub fn get_funding_rate(&self) -> (rate: Option<FundingRate>)
        ensures
            rate == self@.funding_rate,
    {
        match &self.funding_rate {
            Some(r) => Some(r.clone()),
            None => None,
        }
    }

    /// The open interest, if it has come.
    pub fn get_open_interest(&self) -> (interest: Option<OpenInterest>)
        ensures
            interest == self@.open_interest,
    {
        match &self.open_interest {
            Some(o) => Some(o.clone()),
            None => None,
        }
    }

    /// The trades kept, oldest first.
    pub fn get_recent_trades(&self) -> (trades: Vec<Trade>)
        ensures
            trades@ == self@.trades,
            trades@.len() <= self@.trade_limit,
    {
        proof {
            use_type_invariant(self);
        }
        let mut out: Vec<Trade> = Vec::new();
        let mut i: usize = 0;
        while i < self.trades.len()
            invariant
                i <= self.trades@.len(),
                out@ == self.trades@.subrange(0, i as int),
            decreases self.trades@.len() - i,
        {
            out.push(self.trades[i].clone());
            i = i + 1;
        }
        out
    }

    /// The aggregated trades kept, oldest first.
    pub fn get_recent_agg_trades(&self) -> (trades: Vec<AggTrade>)
        ensures
            trades@ == self@.agg_trades,
            trades@.len() <= self@.trade_limit,
    {
        proof {
            use_type_invariant(self);
        }
        let mut out: Vec<AggTrade> = Vec::new();
        let mut i: usize = 0;
        while i < self.agg_trades.len()
            invariant
                i <= self.agg_trades@.len(),
                out@ == self.agg_trades@.subrange(0, i as int),
            decreases self.agg_trades@.len() - i,
        {
            out.push(self.agg_trades[i].clone());
            i = i + 1;
        }
        out
    }

    /// The liquidations kept, oldest first.
    pub fn get_recent_liquidations(&self) -> (liquidations: Vec<Liquidation>)
        ensures
            liquidations@ == self@.liquidations,
            liquidations@.len() <= self@.trade_limit,
    {
        proof {
            use_type_invariant(self);
        }
        let mut out: Vec<Liquidation> = Vec::new();
        let mut i: usize = 0;
        while i < self.liquidations.len()
            invariant
                i <= self.liquidations@.len(),
                out@ == self.liquidations@.subrange(0, i as int),
            decreases self.liquidations@.len() - i,
        {
            out.push(self.liquidations[i].clone());
            i = i + 1;
        }
        out
    }

    proof fn lemma_candle_queues(self)
        requires
            self.inv(),
        ensures
            self@.candle_queues() == series_candles(self.candles@),
    {
        lemma_series_map(self.candles@);
        assert(self@.candle_queues() =~= series_candles(self.candles@)) by {
            assert forall|k: int| 0 <= k < self.candles@.len() implies self@.candle_queues()[k]
                == series_candles(self.candles@)[k] by {
                assert(series_map(self.candles@).dom().contains(self.candles@[k].interval@));
            }
        }
    }

    /// The candles of all intervals, interval after interval in the order the
    /// intervals first came, each interval's candles oldest first.
    pub fn get_recent_candles(&self) -> (candles: Vec<Candle>)
        ensures
            candles@ == self@.all_candles(),
    {
        proof {
            use_type_invariant(self);
            self.lemma_candle_queues();
        }
        let ghost queues = series_candles(self.candles@);
        let mut out: Vec<Candle> = Vec::new();
        let mut k: usize = 0;
        while k < self.candles.len()
            invariant
                k <= self.candles@.len(),
                queues == series_candles(self.candles@),
                out@ == queues.subrange(0, k as int).flatten(),
            decreases self.candles@.len() - k,
        {
            let queue = &self.candles[k].candles;
            let ghost base = out@;
            let mut j: usize = 0;
            while j < queue.len()
                invariant
                    j <= queue@.len(),
                    out@ == base + queue@.subrange(0, j as int),
                decreases queue@.len() - j,
            {
                out.push(queue[j].clone());
                proof {
                    assert(queue@.subrange(0, j + 1) == queue@.subrange(0, j as int).push(
                        queue@[j as int],
                    ));
                }
                j = j + 1;
            }
            proof {
                let head = queues.subrange(0, k as int);
                assert(queue@.subrange(0, j as int) == queue@);
                assert(queues.subrange(0, k + 1) == head + seq![queue@]);
                vstd::seq_lib::lemma_flatten_concat(head, seq![queue@]);
                seq![queue@].lemma_flatten_one_element();
            }
            k = k + 1;
        }
        proof {
            assert(queues.subrange(0, k as int) == queues);
        }
        out
    }

    /// Of the candles of all intervals that start before `end_time`, in
    /// order of start time, the last `limit`. Candles that start at the same
    /// time come in the order of `get_recent_candles`.
    pub fn get_history(&self, end_time: u64, limit: usize) -> (candles: Vec<Candle>)
        ensures
            candles@ == self@.history(end_time, limit as nat),
            candles@.len() <= limit,
            sorted_by_start(candles@),
            forall|i: int| 0 <= i < candles@.len() ==> (#[trigger] candles@[i]).start_time < end_time,
    {
        proof {
            use_type_invariant(self);
            self.lemma_candle_queues();
        }
        let ghost queues = series_candles(self.candles@);
        let ghost pred = starts_before(end_time);
        let mut picked: VecDeque<Candle> = VecDeque::new();
        let mut k: usize = 0;
        proof {
            reveal(Seq::filter);
            assert(queues.subrange(0, 0).flatten().filter(pred) =~= Seq::<Candle>::empty());
        }
        while k < self.candles.len()
            invariant
                k <= self.candles@.len(),
                queues == series_candles(self.candles@),
                pred == starts_before(end_time),
                picked@ == queues.subrange(0, k as int).flatten().filter(pred),
            decreases self.candles@.len() - k,
        {
            let queue = &self.candles[k].candles;
            let ghost base = picked@;
            let mut j: usize = 0;
            proof {
                reveal(Seq::filter);
                assert(queue@.subrange(0, 0).filter(pred) =~= Seq::<Candle>::empty());
            }
            while j < queue.len()
                invariant
                    j <= queue@.len(),
                    pred == starts_before(end_time),
                    picked@ == base + queue@.subrange(0, j as int).filter(pred),
                decreases queue@.len() - j,
            {
                proof {
                    reveal(Seq::filter);
                    let next = queue@.subrange(0, j + 1);
                    assert(next.drop_last() == queue@.subrange(0, j as int));
                    assert(next.last() == queue@[j as int]);
                }
                if queue[j].start_time < end_time {
                    picked.push_back(queue[j].clone());
                }
                j = j + 1;
            }
            proof {
                let head = queues.subrange(0, k as int);
                assert(queue@.subrange(0, j as int) == queue@);
                assert(queues.subrange(0, k + 1) == head + seq![queue@]);
                vstd::seq_lib::lemma_flatten_concat(head, seq![queue@]);
                seq![queue@].lemma_flatten_one_element();
                Seq::filter_distributes_over_add(head.flatten(), queue@, pred);
            }
            k = k + 1;
        }
        proof {
            assert(queues.subrange(0, k as int) == queues);
        }
        let ghost matching = picked@;
        sort_queue(&mut picked);
        let total = picked.len();
        let skip: usize = if total > limit {
            total - limit
        } else {
            0
        };
        let mut out: Vec<Candle> = Vec::new();
        let mut i: usize = skip;
        while i < total
            invariant
                skip <= i <= total,
                total == picked@.len(),
                out@ == picked@.subrange(skip as int, i as int),
            decreases total - i,
        {
            out.push(picked[i].clone());
            i = i + 1;
        }
        proof {
            lemma_sort_by_start(matching);
            lemma_keep_last_sorted(picked@, limit as nat);
            assert(out@ == keep_last(picked@, limit as nat));
            assert forall|i: int| 0 <= i < out@.len() implies (#[trigger] out@[i]).start_time
                < end_time by {
                let c = out@[i];
                assert(picked@[i + skip] == c);
                assert(picked@.to_multiset().count(c) > 0) by {
                    vstd::seq_lib::to_multiset_contains(picked@, c);
                    assert(picked@.contains(c));
                }
                vstd::seq_lib::to_multiset_contains(matching, c);
                assert(matching.contains(c));
                let m = choose|m: int| 0 <= m < matching.len() && matching[m] == c;
                self@.all_candles().lemma_filter_pred(pred, m);
            }
        }
        out
    }
}

} // verus!
