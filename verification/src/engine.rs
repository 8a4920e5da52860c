//! The symbol registry: the bounded state of every topic, and the set of
//! topics that have a connector.
//!
//! The engine is plain sequential data. Each write says what it leaves in the
//! registry and hands back the event to publish; the program around it owns
//! the lock the engine sits behind and the bus the event goes out on.

use vstd::prelude::*;
use crate::agreement::{
    candles_carry, lemma_agg_trade_agrees, lemma_candle_agrees, lemma_empty_agrees,
    lemma_history_agrees, lemma_liquidation_agrees, lemma_trade_agrees,
};
use crate::config::AppConfig;
use crate::models::{
    AggTrade, BookTicker, Candle, FundingRate, Liquidation, MarkPrice, MarketData,
    MarketDataView, OpenInterest, OrderBook, Ticker, Trade,
};
use crate::sorting::sorted_by_start;
use crate::state::{SymbolState, SymbolStateView};
use crate::text::same_text;
use crate::topics::TopicSet;

verus! {

/// What an `Engine` holds.
pub ghost struct EngineView {
    /// The state of each topic that has been written to.
    pub states: Map<Seq<char>, SymbolStateView>,
    /// The topics a connector has been asked for.
    pub active: Set<Seq<char>>,
    pub trade_limit: nat,
    pub candle_limit: nat,
}

impl EngineView {
    /// The state of `topic`; that of a topic never written to is empty.
    pub open spec fn state_of(self, topic: Seq<char>) -> SymbolStateView {
        if self.states.dom().contains(topic) {
            self.states[topic]
        } else {
            SymbolStateView::empty(self.trade_limit, self.candle_limit)
        }
    }

    /// The engine with `state` as the state of `topic` and all else as it is.
    pub open spec fn put(self, topic: Seq<char>, state: SymbolStateView) -> EngineView {
        EngineView { states: self.states.insert(topic, state), ..self }
    }

    /// Whether no connector has been asked for `topic` yet.
    pub open spec fn is_new(self, topic: Seq<char>) -> bool {
        !self.active.contains(topic)
    }

    /// The engine after a connector has been asked for `topic`.
    pub open spec fn request(self, topic: Seq<char>) -> EngineView {
        EngineView { active: self.active.insert(topic), ..self }
    }

    /// Every topic's state is well formed under the engine's capacities; in
    /// particular no queue of any topic holds more than its capacity.
    pub open spec fn well_formed(self) -> bool {
        forall|topic: Seq<char>| #[trigger]
            self.states.dom().contains(topic) ==> {
                &&& self.states[topic].well_formed()
                &&& self.states[topic].trade_limit == self.trade_limit
                &&& self.states[topic].candle_limit == self.candle_limit
            }
    }

    /// Every event kept under a topic carries that topic as its symbol.
    pub open spec fn topics_agree(self) -> bool {
        forall|topic: Seq<char>| #[trigger]
            self.states.dom().contains(topic) ==> self.states[topic].agrees_with(topic)
    }
}

/// Asking for a topic a second time finds it taken and changes nothing.
pub proof fn lemma_request_is_idempotent(engine: EngineView, topic: Seq<char>)
    ensures
        !engine.request(topic).is_new(topic),
        engine.request(topic).request(topic) == engine.request(topic),
{
    assert(engine.active.insert(topic).insert(topic) =~= engine.active.insert(topic));
}

/// A topic that has been asked for stays taken: neither a request for any
/// topic nor a write to any topic makes it new again. So a request answers
/// "first" for a given topic at most once.
pub proof fn lemma_taken_stays_taken(
    engine: EngineView,
    topic: Seq<char>,
    other: Seq<char>,
    state: SymbolStateView,
)
    requires
        !engine.is_new(topic),
    ensures
        !engine.request(other).is_new(topic),
        !engine.put(other, state).is_new(topic),
{
}

struct TopicEntry {
    topic: String,
    state: SymbolState,
}

spec fn is_entry_of(entries: Seq<TopicEntry>, k: int, topic: Seq<char>) -> bool {
    0 <= k < entries.len() && entries[k].topic@ == topic
}

spec fn entries_map(entries: Seq<TopicEntry>) -> Map<Seq<char>, SymbolStateView> {
    Map::new(
        |topic: Seq<char>| exists|k: int| is_entry_of(entries, k, topic),
        |topic: Seq<char>| entries[choose|k: int| is_entry_of(entries, k, topic)].state@,
    )
}

spec fn entries_distinct(entries: Seq<TopicEntry>) -> bool {
    forall|j: int, k: int|
        0 <= j < k < entries.len() ==> (#[trigger] entries[j]).topic@ != (
        #[trigger] entries[k]).topic@
}

spec fn entries_sound(entries: Seq<TopicEntry>, trade_limit: nat, candle_limit: nat) -> bool {
    forall|k: int|
        0 <= k < entries.len() ==> {
            &&& (#[trigger] entries[k]).state@.well_formed()
            &&& entries[k].state@.trade_limit == trade_limit
            &&& entries[k].state@.candle_limit == candle_limit
        }
}

proof fn lemma_entries_map(entries: Seq<TopicEntry>)
    requires
        entries_distinct(entries),
    ensures
        forall|k: int|
            0 <= k < entries.len() ==> {
                &&& #[trigger] entries_map(entries).dom().contains(entries[k].topic@)
                &&& entries_map(entries)[entries[k].topic@] == entries[k].state@
            },
{
    assert forall|k: int| 0 <= k < entries.len() implies {
        &&& #[trigger] entries_map(entries).dom().contains(entries[k].topic@)
        &&& entries_map(entries)[entries[k].topic@] == entries[k].state@
    } by {
        let topic = entries[k].topic@;
        assert(is_entry_of(entries, k, topic));
        let c = choose|c: int| is_entry_of(entries, c, topic);
        assert(is_entry_of(entries, c, topic));
        if c < k {
            assert(entries[c].topic@ != entries[k].topic@);
        } else if k < c {
            assert(entries[k].topic@ != entries[c].topic@);
        }
    }
}

/// What `locate` leaves: the entry of `topic` at `k`, made empty where the
/// topic had none, and every other entry as it was.
spec fn located(
    before: Seq<TopicEntry>,
    grown: Seq<TopicEntry>,
    k: int,
    topic: Seq<char>,
    trade_limit: nat,
    candle_limit: nat,
) -> bool {
    &&& 0 <= k < grown.len()
    &&& grown[k].topic@ == topic
    &&& if k < before.len() {
        grown == before
    } else {
        &&& grown.len() == before.len() + 1
        &&& forall|j: int| 0 <= j < before.len() ==> #[trigger] grown[j] == before[j]
        &&& forall|j: int| 0 <= j < before.len() ==> (#[trigger] before[j]).topic@ != topic
        &&& grown[k].state@ == SymbolStateView::empty(trade_limit, candle_limit)
        &&& grown[k].state@.well_formed()
    }
}

/// After the entry at `k` has been written to, the registry maps its topic
/// to the new state and every other topic to what it had.
proof fn lemma_written(
    before: Seq<TopicEntry>,
    grown: Seq<TopicEntry>,
    after: Seq<TopicEntry>,
    k: int,
    topic: Seq<char>,
    trade_limit: nat,
    candle_limit: nat,
)
    requires
        entries_distinct(before),
        entries_sound(before, trade_limit, candle_limit),
        located(before, grown, k, topic, trade_limit, candle_limit),
        after.len() == grown.len(),
        after[k].topic@ == topic,
        forall|j: int| 0 <= j < after.len() && j != k ==> #[trigger] after[j] == grown[j],
        after[k].state@.well_formed(),
        after[k].state@.trade_limit == trade_limit,
        after[k].state@.candle_limit == candle_limit,
    ensures
        entries_distinct(after),
        entries_sound(after, trade_limit, candle_limit),
        entries_map(after) == entries_map(before).insert(topic, after[k].state@),
        grown[k].state@ == (if entries_map(before).dom().contains(topic) {
            entries_map(before)[topic]
        } else {
            SymbolStateView::empty(trade_limit, candle_limit)
        }),
{
    lemma_entries_map(before);
    assert(entries_distinct(after)) by {
        assert forall|i: int, j: int| 0 <= i < j < after.len() implies (
        #[trigger] after[i]).topic@ != (#[trigger] after[j]).topic@ by {
            assert(after[i].topic@ == grown[i].topic@);
            assert(after[j].topic@ == grown[j].topic@);
            if j < before.len() {
                assert(before[i].topic@ != before[j].topic@);
                assert(grown[i] == before[i] && grown[j] == before[j]);
            } else {
                assert(grown[i] == before[i]);
                assert(before[i].topic@ != topic);
            }
        }
    }
    assert(entries_sound(after, trade_limit, candle_limit)) by {
        assert forall|j: int| 0 <= j < after.len() implies {
            &&& (#[trigger] after[j]).state@.well_formed()
            &&& after[j].state@.trade_limit == trade_limit
            &&& after[j].state@.candle_limit == candle_limit
        } by {
            if j != k {
                assert(after[j] == grown[j]);
                assert(grown[j] == before[j]);
            }
        }
    }
    lemma_entries_map(after);
    if k < before.len() {
        assert(is_entry_of(before, k, topic));
    } else {
        assert(!entries_map(before).dom().contains(topic)) by {
            if exists|j: int| is_entry_of(before, j, topic) {
                let j = choose|j: int| is_entry_of(before, j, topic);
                assert(before[j].topic@ != topic);
            }
        }
    }
    let want = entries_map(before).insert(topic, after[k].state@);
    assert(entries_map(after) =~= want) by {
        assert forall|t: Seq<char>| entries_map(after).dom().contains(t) <==> want.dom().contains(
            t,
        ) by {
            if entries_map(after).dom().contains(t) {
                let j = choose|j: int| is_entry_of(after, j, t);
                if j != k {
                    assert(after[j] == grown[j]);
                    assert(grown[j] == before[j]);
                    assert(is_entry_of(before, j, t));
                }
            }
            if want.dom().contains(t) && t != topic {
                let j = choose|j: int| is_entry_of(before, j, t);
                assert(grown[j] == before[j]);
                assert(j != k);
                assert(after[j] == grown[j]);
                assert(is_entry_of(after, j, t));
            }
            if t == topic {
                assert(is_entry_of(after, k, t));
            }
        }
        assert forall|t: Seq<char>| entries_map(after).dom().contains(t) implies entries_map(
            after,
        )[t] == want[t] by {
            let j = choose|j: int| is_entry_of(after, j, t);
            assert(entries_map(after)[after[j].topic@] == after[j].state@);
            if t != topic {
                assert(j != k);
                assert(after[j] == grown[j]);
                assert(grown[j] == before[j]);
                assert(entries_map(before).dom().contains(before[j].topic@));
                assert(entries_map(before)[before[j].topic@] == before[j].state@);
            } else {
                assert(entries_map(after)[after[k].topic@] == after[k].state@);
            }
        }
    }
}

/// The index of the entry of `symbol`, or the number of entries where the
/// topic has none.
fn find(entries: &Vec<TopicEntry>, symbol: &str) -> (k: usize)
    ensures
        k <= entries@.len(),
        k < entries@.len() ==> entries@[k as int].topic@ == symbol@,
        forall|j: int| 0 <= j < k ==> (#[trigger] entries@[j]).topic@ != symbol@,
{
    let mut k: usize = 0;
    while k < entries.len()
        invariant
            k <= entries@.len(),
            forall|j: int| 0 <= j < k ==> (#[trigger] entries@[j]).topic@ != symbol@,
        decreases entries@.len() - k,
    {
        if same_text(entries[k].topic.as_str(), symbol) {
            return k;
        }
        k = k + 1;
    }
    k
}

/// The index of the entry of `symbol`, which is made, empty, where the
/// topic has none.
fn locate(entries: &mut Vec<TopicEntry>, symbol: String, trade_limit: usize, candle_limit: usize) -> (k:
    usize)
    ensures
        located(
            old(entries)@,
            final(entries)@,
            k as int,
            symbol@,
            trade_limit as nat,
            candle_limit as nat,
        ),
{
    let k = find(entries, symbol.as_str());
    if k == entries.len() {
        entries.push(TopicEntry { topic: symbol, state: SymbolState::new(trade_limit, candle_limit) });
    }
    k
}

/// The registry of topic states and of running ingestions.
pub struct Engine {
    registry: Vec<TopicEntry>,
    active_ingestions: TopicSet,
    trade_limit: usize,
    candle_limit: usize,
}

impl View for Engine {
    type V = EngineView;

    closed spec fn view(&self) -> EngineView {
        EngineView {
            states: entries_map(self.registry@),
            active: self.active_ingestions@,
            trade_limit: self.trade_limit as nat,
            candle_limit: self.candle_limit as nat,
        }
    }
}

impl Engine {
    #[verifier::type_invariant]
    spec fn inv(self) -> bool {
        &&& entries_distinct(self.registry@)
        &&& entries_sound(self.registry@, self.trade_limit as nat, self.candle_limit as nat)
    }

    proof fn lemma_well_formed(self)
        requires
            self.inv(),
        ensures
            self@.well_formed(),
    {
        lemma_entries_map(self.registry@);
        assert forall|topic: Seq<char>| #[trigger]
            self@.states.dom().contains(topic) implies {
            &&& self@.states[topic].well_formed()
            &&& self@.states[topic].trade_limit == self@.trade_limit
            &&& self@.states[topic].candle_limit == self@.candle_limit
        } by {
            let k = choose|k: int| is_entry_of(self.registry@, k, topic);
            assert(is_entry_of(self.registry@, k, topic));
            assert(self@.states[self.registry@[k].topic@] == self.registry@[k].state@);
        }
    }

    /// An engine with no topic and no ingestion, whose queues take their
    /// capacities from `config`.
    pub fn new(config: &AppConfig) -> (engine: Engine)
        ensures
            engine@ == (EngineView {
                states: Map::empty(),
                active: Set::empty(),
                trade_limit: config.trade_history_limit as nat,
                candle_limit: config.candle_history_limit as nat,
            }),
            engine@.well_formed(),
            engine@.topics_agree(),
    {
        let engine = Engine {
            registry: Vec::new(),
            active_ingestions: TopicSet::new(),
            trade_limit: config.trade_history_limit,
            candle_limit: config.candle_history_limit,
        };
        proof {
            assert(engine@.states =~= Map::empty());
        }
        engine
    }

    /// Capacity of the trade, aggregated-trade and liquidation queues. An
    /// engine is well formed whenever it is looked at: no queue of any topic
    /// holds more than its capacity.
    pub fn trade_limit(&self) -> (limit: usize)
        ensures
            limit == self@.trade_limit,
            self@.well_formed(),
    {
        proof {
            use_type_invariant(self);
            self.lemma_well_formed();
        }
        self.trade_limit
    }

    /// Capacity of each candle queue. An engine is well formed whenever it
    /// is looked at: no queue of any topic holds more than its capacity.
    pub fn candle_limit(&self) -> (limit: usize)
        ensures
            limit == self@.candle_limit,
            self@.well_formed(),
    {
        proof {
            use_type_invariant(self);
            self.lemma_well_formed();
        }
        self.candle_limit
    }

    /// Records that a connector is wanted for `symbol`. The answer is true
    /// for the first request of a topic and false for every later one: the
    /// caller launches a connector exactly when it is true.
    pub fn request_ingestion(&mut self, symbol: String) -> (first: bool)
        ensures
            first == old(self)@.is_new(symbol@),
            final(self)@ == old(self)@.request(symbol@),
            final(self)@.well_formed(),
    {
        proof {
            use_type_invariant(&*self);
        }
        let mut active = TopicSet::new();
        std::mem::swap(&mut active, &mut self.active_ingestions);
        let first = active.insert(symbol);
        self.active_ingestions = active;
        proof {
            self.lemma_well_formed();
        }
        first
    }

    /// Whether a connector has been asked for `symbol`.
    pub fn is_active(&self, symbol: &str) -> (active: bool)
        ensures
            active == !self@.is_new(symbol@),
    {
        self.active_ingestions.contains(symbol)
    }

    /// Replaces the order book of `symbol`. Returns the event to publish.
    pub fn update_order_book(&mut self, symbol: String, book: OrderBook) -> (published: MarketData)
        ensures
            final(self)@ == old(self)@.put(
                symbol@,
                old(self)@.state_of(symbol@).with_order_book(book@),
            ),
            published@ == MarketDataView::OrderBook(book@),
            final(self)@.well_formed(),
            old(self)@.topics_agree() && book.symbol@ == symbol@ ==> final(self)@.topics_agree(),
    {
        proof {
            use_type_invariant(&*self);
        }
        let ghost topic = symbol@;
        let ghost before = self.registry@;
        let mut entries: Vec<TopicEntry> = Vec::new();
        std::mem::swap(&mut entries, &mut self.registry);
        let k = locate(&mut entries, symbol, self.trade_limit, self.candle_limit);
        let ghost grown = entries@;
        entries[k].state.update_order_book(book.clone());
        proof {
            lemma_written(
                before,
                grown,
                entries@,
                k as int,
                topic,
                self.trade_limit as nat,
                self.candle_limit as nat,
            );
        }
        self.registry = entries;
        proof {
            self.lemma_well_formed();
            lemma_empty_agrees(self.trade_limit as nat, self.candle_limit as nat, topic);
        }
        MarketData::OrderBook(book)
    }

    /// Appends a trade to the queue of `symbol`. Returns the event to publish.
    pub fn add_trade(&mut self, symbol: String, trade: Trade) -> (published: MarketData)
        ensures
            final(self)@ == old(self)@.put(symbol@, old(self)@.state_of(symbol@).with_trade(trade)),
            published@ == MarketDataView::Trade(trade),
            final(self)@.well_formed(),
            old(self)@.topics_agree() && trade.symbol@ == symbol@ ==> final(self)@.topics_agree(),
    {
        proof {
            use_type_invariant(&*self);
        }
        let ghost topic = symbol@;
        let ghost before = self.registry@;
        let mut entries: Vec<TopicEntry> = Vec::new();
        std::mem::swap(&mut entries, &mut self.registry);
        let k = locate(&mut entries, symbol, self.trade_limit, self.candle_limit);
        let ghost grown = entries@;
        entries[k].state.add_trade(trade.clone());
        proof {
            lemma_written(
                before,
                grown,
                entries@,
                k as int,
                topic,
                self.trade_limit as nat,
                self.candle_limit as nat,
            );
        }
        self.registry = entries;
        proof {
            self.lemma_well_formed();
            lemma_empty_agrees(self.trade_limit as nat, self.candle_limit as nat, topic);
            if old(self)@.topics_agree() && trade.symbol@ == topic {
                lemma_trade_agrees(old(self)@.state_of(topic), trade, topic);
            }
        }
        MarketData::Trade(trade)
    }

    /// Appends an aggregated trade to the queue of `symbol`. Returns the
    /// event to publish.
    pub fn add_agg_trade(&mut self, symbol: String, trade: AggTrade) -> (published: MarketData)
        ensures
            final(self)@ == old(self)@.put(
                symbol@,
                old(self)@.state_of(symbol@).with_agg_trade(trade),
            ),
            published@ == MarketDataView::AggTrade(trade),
            final(self)@.well_formed(),
            old(self)@.topics_agree() && trade.symbol@ == symbol@ ==> final(self)@.topics_agree(),
    {
        proof {
            use_type_invariant(&*self);
        }
        let ghost topic = symbol@;
        let ghost before = self.registry@;
        let mut entries: Vec<TopicEntry> = Vec::new();
        std::mem::swap(&mut entries, &mut self.registry);
        let k = locate(&mut entries, symbol, self.trade_limit, self.candle_limit);
        let ghost grown = entries@;
        entries[k].state.add_agg_trade(trade.clone());
        proof {
            lemma_written(
                before,
                grown,
                entries@,
                k as int,
                topic,
                self.trade_limit as nat,
                self.candle_limit as nat,
            );
        }
        self.registry = entries;
        proof {
            self.lemma_well_formed();
            lemma_empty_agrees(self.trade_limit as nat, self.candle_limit as nat, topic);
            if old(self)@.topics_agree() && trade.symbol@ == topic {
                lemma_agg_trade_agrees(old(self)@.state_of(topic), trade, topic);
            }
        }
        MarketData::AggTrade(trade)
    }

    /// Appends a candle to the queue of its interval under `symbol`.
    /// Returns the event to publish.
    pub fn add_candle(&mut self, symbol: String, candle: Candle) -> (published: MarketData)
        ensures
            final(self)@ == old(self)@.put(
                symbol@,
                old(self)@.state_of(symbol@).with_candle(candle),
            ),
            published@ == MarketDataView::Candle(candle),
            final(self)@.well_formed(),
            old(self)@.topics_agree() && candle.symbol@ == symbol@ ==> final(self)@.topics_agree(),
    {
        proof {
            use_type_invariant(&*self);
        }
        let ghost topic = symbol@;
        let ghost before = self.registry@;
        let mut entries: Vec<TopicEntry> = Vec::new();
        std::mem::swap(&mut entries, &mut self.registry);
        let k = locate(&mut entries, symbol, self.trade_limit, self.candle_limit);
        let ghost grown = entries@;
        entries[k].state.add_candle(candle.clone());
        proof {
            lemma_written(
                before,
                grown,
                entries@,
                k as int,
                topic,
                self.trade_limit as nat,
                self.candle_limit as nat,
            );
        }
        self.registry = entries;
        proof {
            self.lemma_well_formed();
            lemma_empty_agrees(self.trade_limit as nat, self.candle_limit as nat, topic);
            if old(self)@.topics_agree() && candle.symbol@ == topic {
                lemma_candle_agrees(old(self)@.state_of(topic), candle, topic);
            }
        }
        MarketData::Candle(candle)
    }

    /// Loads candles in bulk under `symbol`: each comes in at the back of the
    /// queue of its interval, each queue keeps its newest, and then every
    /// candle queue of the topic is put in order of start time. Nothing is
    /// published, and an empty load changes nothing.
    pub fn load_historical_candles(&mut self, symbol: String, candles: Vec<Candle>)
        ensures
            candles@.len() == 0 ==> final(self)@ == old(self)@,
            candles@.len() > 0 ==> final(self)@ == old(self)@.put(
                symbol@,
                old(self)@.state_of(symbol@).with_history(candles@),
            ),
            candles@.len() > 0 ==> final(self)@.state_of(symbol@).candles_sorted(),
            final(self)@.well_formed(),
            old(self)@.topics_agree() && candles_carry(candles@, symbol@)
                ==> final(self)@.topics_agree(),
    {
        proof {
            use_type_invariant(&*self);
            self.lemma_well_formed();
        }
        if candles.len() == 0 {
            return ;
        }
        let ghost topic = symbol@;
        let ghost before = self.registry@;
        let mut entries: Vec<TopicEntry> = Vec::new();
        std::mem::swap(&mut entries, &mut self.registry);
        let k = locate(&mut entries, symbol, self.trade_limit, self.candle_limit);
        let ghost grown = entries@;
        entries[k].state.load_historical_candles(candles);
        proof {
            lemma_written(
                before,
                grown,
                entries@,
                k as int,
                topic,
                self.trade_limit as nat,
                self.candle_limit as nat,
            );
        }
        self.registry = entries;
        proof {
            self.lemma_well_formed();
            lemma_empty_agrees(self.trade_limit as nat, self.candle_limit as nat, topic);
            if old(self)@.topics_agree() && candles_carry(candles@, topic) {
                lemma_history_agrees(old(self)@.state_of(topic), candles@, topic);
            }
        }
    }

    /// Replaces the ticker of `symbol`. Returns the event to publish.
    pub fn update_ticker(&mut self, symbol: String, ticker: Ticker) -> (published: MarketData)
        ensures
            final(self)@ == old(self)@.put(
                symbol@,
                old(self)@.state_of(symbol@).with_ticker(ticker),
            ),
            published@ == MarketDataView::Ticker(ticker),
            final(self)@.well_formed(),
            old(self)@.topics_agree() && ticker.symbol@ == symbol@ ==> final(self)@.topics_agree(),
    {
        proof {
            use_type_invariant(&*self);
        }
        let ghost topic = symbol@;
        let ghost before = self.registry@;
        let mut entries: Vec<TopicEntry> = Vec::new();
        std::mem::swap(&mut entries, &mut self.registry);
        let k = locate(&mut entries, symbol, self.trade_limit, self.candle_limit);
        let ghost grown = entries@;
        entries[k].state.update_ticker(ticker.clone());
        proof {
            lemma_written(
                before,
                grown,
                entries@,
                k as int,
                topic,
                self.trade_limit as nat,
                self.candle_limit as nat,
            );
        }
        self.registry = entries;
        proof {
            self.lemma_well_formed();
            lemma_empty_agrees(self.trade_limit as nat, self.candle_limit as nat, topic);
        }
        MarketData::Ticker(ticker)
    }

    /// Replaces the best bid and ask of `symbol`. Returns the event to publish.
    pub fn update_book_ticker(&mut self, symbol: String, ticker: BookTicker) -> (published:
        MarketData)
        ensures
            final(self)@ == old(self)@.put(
                symbol@,
                old(self)@.state_of(symbol@).with_book_ticker(ticker),
            ),
            published@ == MarketDataView::BookTicker(ticker),
            final(self)@.well_formed(),
            old(self)@.topics_agree() && ticker.symbol@ == symbol@ ==> final(self)@.topics_agree(),
    {
        proof {
            use_type_invariant(&*self);
        }
        let ghost topic = symbol@;
        let ghost before = self.registry@;
        let mut entries: Vec<TopicEntry> = Vec::new();
        std::mem::swap(&mut entries, &mut self.registry);
        let k = locate(&mut entries, symbol, self.trade_limit, self.candle_limit);
        let ghost grown = entries@;
        entries[k].state.update_book_ticker(ticker.clone());
        proof {
            lemma_written(
                before,
                grown,
                entries@,
                k as int,
                topic,
                self.trade_limit as nat,
                self.candle_limit as nat,
            );
        }
        self.registry = entries;
        proof {
            self.lemma_well_formed();
            lemma_empty_agrees(self.trade_limit as nat, self.candle_limit as nat, topic);
        }
        MarketData::BookTicker(ticker)
    }

    /// Replaces the mark price of `symbol`. Returns the event to publish.
    pub fn update_mark_price(&mut self, symbol: String, price: MarkPrice) -> (published: MarketData)
        ensures
            final(self)@ == old(self)@.put(
                symbol@,
                old(self)@.state_of(symbol@).with_mark_price(price),
            ),
            published@ == MarketDataView::MarkPrice(price),
            final(self)@.well_formed(),
            old(self)@.topics_agree() && price.symbol@ == symbol@ ==> final(self)@.topics_agree(),
    {
        proof {
            use_type_invariant(&*self);
        }
        let ghost topic = symbol@;
        let ghost before = self.registry@;
        let mut entries: Vec<TopicEntry> = Vec::new();
        std::mem::swap(&mut entries, &mut self.registry);
        let k = locate(&mut entries, symbol, self.trade_limit, self.candle_limit);
        let ghost grown = entries@;
        entries[k].state.update_mark_price(price.clone());
        proof {
            lemma_written(
                before,
                grown,
                entries@,
                k as int,
                topic,
                self.trade_limit as nat,
                self.candle_limit as nat,
            );
        }
        self.registry = entries;
        proof {
            self.lemma_well_formed();
            lemma_empty_agrees(self.trade_limit as nat, self.candle_limit as nat, topic);
        }
        MarketData::MarkPrice(price)
    }

    /// Appends a liquidation to the queue of `symbol`. Returns the event to
    /// publish.
    pub fn add_liquidation(&mut self, symbol: String, liq: Liquidation) -> (published: MarketData)
        ensures
            final(self)@ == old(self)@.put(
                symbol@,
                old(self)@.state_of(symbol@).with_liquidation(liq),
            ),
            published@ == MarketDataView::Liquidation(liq),
            final(self)@.well_formed(),
            old(self)@.topics_agree() && liq.symbol@ == symbol@ ==> final(self)@.topics_agree(),
    {
        proof {
            use_type_invariant(&*self);
        }
        let ghost topic = symbol@;
        let ghost before = self.registry@;
        let mut entries: Vec<TopicEntry> = Vec::new();
        std::mem::swap(&mut entries, &mut self.registry);
        let k = locate(&mut entries, symbol, self.trade_limit, self.candle_limit);
        let ghost grown = entries@;
        entries[k].state.add_liquidation(liq.clone());
        proof {
            lemma_written(
                before,
                grown,
                entries@,
                k as int,
                topic,
                self.trade_limit as nat,
                self.candle_limit as nat,
            );
        }
        self.registry = entries;
        proof {
            self.lemma_well_formed();
            lemma_empty_agrees(self.trade_limit as nat, self.candle_limit as nat, topic);
            if old(self)@.topics_agree() && liq.symbol@ == topic {
                lemma_liquidation_agrees(old(self)@.state_of(topic), liq, topic);
            }
        }
        MarketData::Liquidation(liq)
    }

    /// Replaces the funding rate of `symbol`. Returns the event to publish.
    pub fn update_funding_rate(&mut self, symbol: String, rate: FundingRate) -> (published:
        MarketData)
        ensures
            final(self)@ == old(self)@.put(
                symbol@,
                old(self)@.state_of(symbol@).with_funding_rate(rate),
            ),
            published@ == MarketDataView::FundingRate(rate),
            final(self)@.well_formed(),
            old(self)@.topics_agree() && rate.symbol@ == symbol@ ==> final(self)@.topics_agree(),
    {
        proof {
            use_type_invariant(&*self);
        }
        let ghost topic = symbol@;
        let ghost before = self.registry@;
        let mut entries: Vec<TopicEntry> = Vec::new();
        std::mem::swap(&mut entries, &mut self.registry);
        let k = locate(&mut entries, symbol, self.trade_limit, self.candle_limit);
        let ghost grown = entries@;
        entries[k].state.update_funding_rate(rate.clone());
        proof {
            lemma_written(
                before,
                grown,
                entries@,
                k as int,
                topic,
                self.trade_limit as nat,
                self.candle_limit as nat,
            );
        }
        self.registry = entries;
        proof {
            self.lemma_well_formed();
            lemma_empty_agrees(self.trade_limit as nat, self.candle_limit as nat, topic);
        }
        MarketData::FundingRate(rate)
    }

    /// Replaces the open interest of `symbol`. Returns the event to publish.
    pub fn update_open_interest(&mut self, symbol: String, oi: OpenInterest) -> (published:
        MarketData)
        ensures
            final(self)@ == old(self)@.put(
                symbol@,
                old(self)@.state_of(symbol@).with_open_interest(oi),
            ),
            published@ == MarketDataView::OpenInterest(oi),
            final(self)@.well_formed(),
            old(self)@.topics_agree() && oi.symbol@ == symbol@ ==> final(self)@.topics_agree(),
    {
        proof {
            use_type_invariant(&*self);
        }
        let ghost topic = symbol@;
        let ghost before = self.registry@;
        let mut entries: Vec<TopicEntry> = Vec::new();
        std::mem::swap(&mut entries, &mut self.registry);
        let k = locate(&mut entries, symbol, self.trade_limit, self.candle_limit);
        let ghost grown = entries@;
        entries[k].state.update_open_interest(oi.clone());
        proof {
            lemma_written(
                before,
                grown,
                entries@,
                k as int,
                topic,
                self.trade_limit as nat,
                self.candle_limit as nat,
            );
        }
        self.registry = entries;
        proof {
            self.lemma_well_formed();
            lemma_empty_agrees(self.trade_limit as nat, self.candle_limit as nat, topic);
        }
        MarketData::OpenInterest(oi)
    }

    /// The state of `symbol`, if the topic has been written to.
    fn state(&self, symbol: &str) -> (state: Option<&SymbolState>)
        ensures
            match state {
                Some(s) => self@.states.dom().contains(symbol@) && s@ == self@.states[symbol@],
                None => !self@.states.dom().contains(symbol@),
            },
    {
        proof {
            use_type_invariant(self);
            lemma_entries_map(self.registry@);
        }
        let k = find(&self.registry, symbol);
        if k < self.registry.len() {
            Some(&self.registry[k].state)
        } else {
            proof {
                if exists|j: int| is_entry_of(self.registry@, j, symbol@) {
                    let j = choose|j: int| is_entry_of(self.registry@, j, symbol@);
                    assert(self.registry@[j].topic@ != symbol@);
                }
            }
            None
        }
    }

    /// The order book of `symbol`, if one has come.
    pub fn get_order_book(&self, symbol: &str) -> (book: Option<OrderBook>)
        ensures
            match book {
                Some(b) => self@.state_of(symbol@).order_book == Some(b@),
                None => self@.state_of(symbol@).order_book.is_none(),
            },
    {
        match self.state(symbol) {
            Some(s) => s.get_order_book(),
            None => None,
        }
    }

    /// The ticker of `symbol`, if one has come.
    pub fn get_ticker(&self, symbol: &str) -> (ticker: Option<Ticker>)
        ensures
            ticker == self@.state_of(symbol@).ticker,
    {
        match self.state(symbol) {
            Some(s) => s.get_ticker(),
            None => None,
        }
    }

    /// The best bid and ask of `symbol`, if they have come.
    pub fn get_book_ticker(&self, symbol: &str) -> (ticker: Option<BookTicker>)
        ensures
            ticker == self@.state_of(symbol@).book_ticker,
    {
        match self.state(symbol) {
            Some(s) => s.get_book_ticker(),
            None => None,
        }
    }

    /// The mark price of `symbol`, if one has come.
    pub fn get_mark_price(&self, symbol: &str) -> (price: Option<MarkPrice>)
        ensures
            price == self@.state_of(symbol@).mark_price,
    {
        match self.state(symbol) {
            Some(s) => s.get_mark_price(),
            None => None,
        }
    }

    /// The liquidations kept for `symbol`, oldest first.
    pub fn get_recent_liquidations(&self, symbol: &str) -> (liquidations: Vec<Liquidation>)
        ensures
            liquidations@ == self@.state_of(symbol@).liquidations,
            liquidations@.len() <= self@.trade_limit,
    {
        proof {
            use_type_invariant(self);
            self.lemma_well_formed();
        }
        match self.state(symbol) {
            Some(s) => s.get_recent_liquidations(),
            None => Vec::new(),
        }
    }

    /// The funding rate of `symbol`, if one has come.
    pub fn get_funding_rate(&self, symbol: &str) -> (rate: Option<FundingRate>)
        ensures
            rate == self@.state_of(symbol@).funding_rate,
    {
        match self.state(symbol) {
            Some(s) => s.get_funding_rate(),
            None => None,
        }
    }

    /// The open interest of `symbol`, if it has come.
    pub fn get_open_interest(&self, symbol: &str) -> (interest: Option<OpenInterest>)
        ensures
            interest == self@.state_of(symbol@).open_interest,
    {
        match self.state(symbol) {
            Some(s) => s.get_open_interest(),
            None => None,
        }
    }

    /// The trades kept for `symbol`, oldest first.
    pub fn get_recent_trades(&self, symbol: &str) -> (trades: Vec<Trade>)
        ensures
            trades@ == self@.state_of(symbol@).trades,
            trades@.len() <= self@.trade_limit,
    {
        proof {
            use_type_invariant(self);
            self.lemma_well_formed();
        }
        match self.state(symbol) {
            Some(s) => s.get_recent_trades(),
            None => Vec::new(),
        }
    }

    /// The aggregated trades kept for `symbol`, oldest first.
    pub fn get_recent_agg_trades(&self, symbol: &str) -> (trades: Vec<AggTrade>)
        ensures
            trades@ == self@.state_of(symbol@).agg_trades,
            trades@.len() <= self@.trade_limit,
    {
        proof {
            use_type_invariant(self);
            self.lemma_well_formed();
        }
        match self.state(symbol) {
            Some(s) => s.get_recent_agg_trades(),
            None => Vec::new(),
        }
    }

    /// The candles kept for `symbol`: interval after interval in the order
    /// the intervals first came, each interval's candles oldest first.
    pub fn get_recent_candles(&self, symbol: &str) -> (candles: Vec<Candle>)
        ensures
            candles@ == self@.state_of(symbol@).all_candles(),
    {
        match self.state(symbol) {
            Some(s) => s.get_recent_candles(),
            None => {
                proof {
                    lemma_empty_history(self@.trade_limit, self@.candle_limit, 0, 0);
                }
                Vec::new()
            },
        }
    }

    /// The history of `symbol`: of its candles of all intervals that start
    /// before `end_time`, in order of start time, the last `limit`.
    pub fn get_history(&self, symbol: &str, end_time: u64, limit: usize) -> (candles: Vec<Candle>)
        ensures
            candles@ == self@.state_of(symbol@).history(end_time, limit as nat),
            candles@.len() <= limit,
            sorted_by_start(candles@),
            forall|i: int| 0 <= i < candles@.len() ==> (#[trigger] candles@[i]).start_time < end_time,
    {
        match self.state(symbol) {
            Some(s) => s.get_history(end_time, limit),
            None => {
                proof {
                    lemma_empty_history(
                        self@.trade_limit,
                        self@.candle_limit,
                        end_time,
                        limit as nat,
                    );
                }
                Vec::new()
            },
        }
    }
}

/// A topic never written to has no candles and an empty history.
pub proof fn lemma_empty_history(trade_limit: nat, candle_limit: nat, end_time: u64, limit: nat)
    ensures
        SymbolStateView::empty(trade_limit, candle_limit).all_candles() == Seq::<Candle>::empty(),
        SymbolStateView::empty(trade_limit, candle_limit).history(end_time, limit) == Seq::<
            Candle,
        >::empty(),
{
    reveal(Seq::filter);
    let empty = SymbolStateView::empty(trade_limit, candle_limit);
    assert(empty.candle_queues() =~= Seq::<Seq<Candle>>::empty());
    assert(empty.all_candles() =~= Seq::<Candle>::empty());
}

} // verus!
