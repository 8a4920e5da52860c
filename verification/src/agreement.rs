//! Topic agreement: what is kept for a topic carries that topic as its
//! symbol, and every write of an event that carries it keeps it so.

use vstd::prelude::*;
use crate::models::{AggTrade, Candle, Liquidation, Trade};
use crate::sorting::{lemma_sort_by_start, sort_by_start};
use crate::state::{fifo_push, lemma_fifo_push, SymbolStateView};

verus! {

/// Every candle of `candles` carries `topic`.
pub open spec fn candles_carry(candles: Seq<Candle>, topic: Seq<char>) -> bool {
    forall|i: int| 0 <= i < candles.len() ==> (#[trigger] candles[i]).symbol@ == topic
}

/// A state nothing has been written to agrees with every topic.
pub proof fn lemma_empty_agrees(trade_limit: nat, candle_limit: nat, topic: Seq<char>)
    ensures
        SymbolStateView::empty(trade_limit, candle_limit).agrees_with(topic),
{
}

/// A trade that carries the topic keeps the agreement.
pub proof fn lemma_trade_agrees(state: SymbolStateView, trade: Trade, topic: Seq<char>)
    requires
        state.agrees_with(topic),
        trade.symbol@ == topic,
    ensures
        state.with_trade(trade).agrees_with(topic),
{
    lemma_fifo_push(state.trades, trade, state.trade_limit);
    let after = state.with_trade(trade);
    assert forall|i: int| 0 <= i < after.trades.len() implies (#[trigger] after.trades[i]).symbol@
        == topic by {
        let x = after.trades[i];
        if x != trade {
            let j = choose|j: int| 0 <= j < state.trades.len() && state.trades[j] == x;
            assert(state.trades[j].symbol@ == topic);
        }
    }
}

/// An aggregated trade that carries the topic keeps the agreement.
pub proof fn lemma_agg_trade_agrees(state: SymbolStateView, trade: AggTrade, topic: Seq<char>)
    requires
        state.agrees_with(topic),
        trade.symbol@ == topic,
    ensures
        state.with_agg_trade(trade).agrees_with(topic),
{
    lemma_fifo_push(state.agg_trades, trade, state.trade_limit);
    let after = state.with_agg_trade(trade);
    assert forall|i: int| 0 <= i < after.agg_trades.len() implies (
    #[trigger] after.agg_trades[i]).symbol@ == topic by {
        let x = after.agg_trades[i];
        if x != trade {
            let j = choose|j: int| 0 <= j < state.agg_trades.len() && state.agg_trades[j] == x;
            assert(state.agg_trades[j].symbol@ == topic);
        }
    }
}

/// A liquidation that carries the topic keeps the agreement.
pub proof fn lemma_liquidation_agrees(
    state: SymbolStateView,
    liquidation: Liquidation,
    topic: Seq<char>,
)
    requires
        state.agrees_with(topic),
        liquidation.symbol@ == topic,
    ensures
        state.with_liquidation(liquidation).agrees_with(topic),
{
    lemma_fifo_push(state.liquidations, liquidation, state.trade_limit);
    let after = state.with_liquidation(liquidation);
    assert forall|i: int| 0 <= i < after.liquidations.len() implies (
    #[trigger] after.liquidations[i]).symbol@ == topic by {
        let x = after.liquidations[i];
        if x != liquidation {
            let j = choose|j: int| 0 <= j < state.liquidations.len() && state.liquidations[j] == x;
            assert(state.liquidations[j].symbol@ == topic);
        }
    }
}

/// A candle that carries the topic keeps the agreement.
pub proof fn lemma_candle_agrees(state: SymbolStateView, candle: Candle, topic: Seq<char>)
    requires
        state.agrees_with(topic),
        candle.symbol@ == topic,
    ensures
        state.with_candle(candle).agrees_with(topic),
{
    let interval = candle.interval@;
    let queue = state.candles_of(interval);
    lemma_fifo_push(queue, candle, state.candle_limit);
    let after = state.with_candle(candle);
    assert forall|other: Seq<char>, i: int|
        after.candles.dom().contains(other) && 0 <= i < after.candles[other].len() implies (
    #[trigger] after.candles[other][i]).symbol@ == topic by {
        if other == interval {
            let x = after.candles[other][i];
            assert(x == fifo_push(queue, candle, state.candle_limit)[i]);
            if x != candle {
                let j = choose|j: int| 0 <= j < queue.len() && queue[j] == x;
                assert(state.candles[interval][j].symbol@ == topic);
            }
        } else {
            assert(state.candles[other][i].symbol@ == topic);
        }
    }
}

/// Candles that carry the topic keep the agreement, however many come.
pub proof fn lemma_candles_agree(state: SymbolStateView, candles: Seq<Candle>, topic: Seq<char>)
    requires
        state.agrees_with(topic),
        candles_carry(candles, topic),
    ensures
        state.with_candles(candles).agrees_with(topic),
    decreases candles.len(),
{
    if candles.len() > 0 {
        let front = candles.drop_last();
        assert(candles_carry(front, topic)) by {
            assert forall|i: int| 0 <= i < front.len() implies (#[trigger] front[i]).symbol@
                == topic by {
                assert(front[i] == candles[i]);
            }
        }
        lemma_candles_agree(state, front, topic);
        lemma_candle_agrees(state.with_candles(front), candles.last(), topic);
    }
}

/// Putting the candle queues in order keeps the agreement.
pub proof fn lemma_sorted_agrees(state: SymbolStateView, topic: Seq<char>)
    requires
        state.agrees_with(topic),
    ensures
        state.sorted().agrees_with(topic),
{
    let after = state.sorted();
    assert forall|interval: Seq<char>, i: int|
        after.candles.dom().contains(interval) && 0 <= i < after.candles[interval].len() implies (
    #[trigger] after.candles[interval][i]).symbol@ == topic by {
        let queue = state.candles[interval];
        let x = after.candles[interval][i];
        assert(after.candles[interval] == sort_by_start(queue));
        lemma_sort_by_start(queue);
        vstd::seq_lib::to_multiset_contains(sort_by_start(queue), x);
        vstd::seq_lib::to_multiset_contains(queue, x);
        assert(sort_by_start(queue).contains(x));
        let j = choose|j: int| 0 <= j < queue.len() && queue[j] == x;
        assert(state.candles[interval][j].symbol@ == topic);
    }
}

/// A bulk load of candles that carry the topic keeps the agreement.
pub proof fn lemma_history_agrees(state: SymbolStateView, candles: Seq<Candle>, topic: Seq<char>)
    requires
        state.agrees_with(topic),
        candles_carry(candles, topic),
    ensures
        state.with_history(candles).agrees_with(topic),
{
    if candles.len() > 0 {
        lemma_candles_agree(state, candles, topic);
        lemma_sorted_agrees(state.with_candles(candles), topic);
    }
}

} // verus!
