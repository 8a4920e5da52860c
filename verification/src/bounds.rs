//! Bounded memory and candle order, as laws of the model: whatever is
//! written, no queue comes to hold more than its capacity, and a bulk load
//! leaves every candle queue of its topic in order.

use vstd::prelude::*;
use crate::engine::EngineView;
use crate::models::{AggTrade, Candle, Liquidation, Trade};
use crate::sorting::{lemma_sort_by_start, sort_by_start};
use crate::state::{lemma_fifo_push, SymbolStateView};

verus! {

/// A state nothing has been written to is well formed.
pub proof fn lemma_empty_is_well_formed(trade_limit: nat, candle_limit: nat)
    ensures
        SymbolStateView::empty(trade_limit, candle_limit).well_formed(),
{
}

/// A trade leaves the queues within their capacities.
pub proof fn lemma_trade_keeps_bounds(state: SymbolStateView, trade: Trade)
    requires
        state.well_formed(),
    ensures
        state.with_trade(trade).well_formed(),
{
    lemma_fifo_push(state.trades, trade, state.trade_limit);
}

/// An aggregated trade leaves the queues within their capacities.
pub proof fn lemma_agg_trade_keeps_bounds(state: SymbolStateView, trade: AggTrade)
    requires
        state.well_formed(),
    ensures
        state.with_agg_trade(trade).well_formed(),
{
    lemma_fifo_push(state.agg_trades, trade, state.trade_limit);
}

/// A liquidation leaves the queues within their capacities.
pub proof fn lemma_liquidation_keeps_bounds(state: SymbolStateView, liquidation: Liquidation)
    requires
        state.well_formed(),
    ensures
        state.with_liquidation(liquidation).well_formed(),
{
    lemma_fifo_push(state.liquidations, liquidation, state.trade_limit);
}

/// A candle leaves the queues within their capacities and the intervals
/// listed once each.
pub proof fn lemma_candle_keeps_bounds(state: SymbolStateView, candle: Candle)
    requires
        state.well_formed(),
    ensures
        state.with_candle(candle).well_formed(),
        state.with_candle(candle).trade_limit == state.trade_limit,
        state.with_candle(candle).candle_limit == state.candle_limit,
{
    let interval = candle.interval@;
    let after = state.with_candle(candle);
    lemma_fifo_push(state.candles_of(interval), candle, state.candle_limit);
    assert forall|other: Seq<char>| #[trigger]
        after.candles.dom().contains(other) implies after.candles[other].len()
        <= after.candle_limit by {
        if other != interval {
            assert(state.candles.dom().contains(other));
        }
    }
    assert forall|other: Seq<char>|
        after.intervals.contains(other) <==> #[trigger] after.candles.dom().contains(other) by {
        if state.intervals.contains(interval) {
            assert(state.candles.dom().contains(interval));
        } else {
            let grown = state.intervals.push(interval);
            if grown.contains(other) {
                let k = choose|k: int| 0 <= k < grown.len() && grown[k] == other;
                if k < state.intervals.len() {
                    assert(state.intervals[k] == other);
                    assert(state.intervals.contains(other));
                    assert(state.candles.dom().contains(other));
                }
            }
            if after.candles.dom().contains(other) {
                if other == interval {
                    assert(grown[state.intervals.len() as int] == other);
                } else {
                    assert(state.candles.dom().contains(other));
                    assert(state.intervals.contains(other));
                    let k = choose|k: int|
                        0 <= k < state.intervals.len() && state.intervals[k] == other;
                    assert(grown[k] == other);
                }
            }
        }
    }
    if !state.intervals.contains(interval) {
        let grown = state.intervals.push(interval);
        assert forall|i: int, j: int| 0 <= i < grown.len() && 0 <= j < grown.len() && i
            != j implies grown[i] != grown[j] by {
            if i < state.intervals.len() && j < state.intervals.len() {
                assert(state.intervals[i] != state.intervals[j]);
            } else if i < state.intervals.len() {
                assert(state.intervals[i] == grown[i]);
                assert(state.intervals.contains(grown[i]));
            } else {
                assert(state.intervals[j] == grown[j]);
                assert(state.intervals.contains(grown[j]));
            }
        }
    }
}

/// However many candles come in, the queues stay within their capacities.
pub proof fn lemma_candles_keep_bounds(state: SymbolStateView, candles: Seq<Candle>)
    requires
        state.well_formed(),
    ensures
        state.with_candles(candles).well_formed(),
        state.with_candles(candles).trade_limit == state.trade_limit,
        state.with_candles(candles).candle_limit == state.candle_limit,
    decreases candles.len(),
{
    if candles.len() > 0 {
        lemma_candles_keep_bounds(state, candles.drop_last());
        lemma_candle_keeps_bounds(state.with_candles(candles.drop_last()), candles.last());
    }
}

/// Putting the candle queues in order leaves each as long as it was, and
/// every one of them in non-decreasing order of start time.
pub proof fn lemma_sorted_keeps_bounds(state: SymbolStateView)
    requires
        state.well_formed(),
    ensures
        state.sorted().well_formed(),
        state.sorted().candles_sorted(),
{
    let after = state.sorted();
    assert forall|interval: Seq<char>| #[trigger]
        after.candles.dom().contains(interval) implies after.candles[interval].len()
        <= after.candle_limit && crate::sorting::sorted_by_start(after.candles[interval]) by {
        assert(state.candles.dom().contains(interval));
        assert(after.candles[interval] == sort_by_start(state.candles[interval]));
        lemma_sort_by_start(state.candles[interval]);
    }
    assert forall|interval: Seq<char>|
        after.intervals.contains(interval) <==> #[trigger] after.candles.dom().contains(
            interval,
        ) by {
        assert(state.intervals.contains(interval) <==> state.candles.dom().contains(interval));
    }
}

/// After a bulk load the queues are within their capacities, and, unless
/// the load was empty, every candle queue of the topic is in non-decreasing
/// order of start time.
pub proof fn lemma_history_keeps_bounds(state: SymbolStateView, candles: Seq<Candle>)
    requires
        state.well_formed(),
    ensures
        state.with_history(candles).well_formed(),
        candles.len() > 0 ==> state.with_history(candles).candles_sorted(),
        state.with_history(candles).trade_limit == state.trade_limit,
        state.with_history(candles).candle_limit == state.candle_limit,
{
    if candles.len() > 0 {
        lemma_candles_keep_bounds(state, candles);
        lemma_sorted_keeps_bounds(state.with_candles(candles));
    }
}

/// An engine stays well formed when a well-formed state with the engine's
/// capacities is put into it, and when a connector is asked for.
pub proof fn lemma_engine_keeps_bounds(
    engine: EngineView,
    topic: Seq<char>,
    state: SymbolStateView,
)
    requires
        engine.well_formed(),
        state.well_formed(),
        state.trade_limit == engine.trade_limit,
        state.candle_limit == engine.candle_limit,
    ensures
        engine.put(topic, state).well_formed(),
        engine.request(topic).well_formed(),
        engine.state_of(topic).well_formed(),
        engine.state_of(topic).trade_limit == engine.trade_limit,
        engine.state_of(topic).candle_limit == engine.candle_limit,
{
    let after = engine.put(topic, state);
    assert forall|other: Seq<char>| #[trigger] after.states.dom().contains(other) implies {
        &&& after.states[other].well_formed()
        &&& after.states[other].trade_limit == after.trade_limit
        &&& after.states[other].candle_limit == after.candle_limit
    } by {
        if other != topic {
            assert(engine.states.dom().contains(other));
        }
    }
    if engine.states.dom().contains(topic) {
    } else {
        lemma_empty_is_well_formed(engine.trade_limit, engine.candle_limit);
    }
}

} // verus!
