//! Stable ordering of candles by start time, and the "last n" of a sequence.

use vstd::prelude::*;
use std::collections::VecDeque;
use crate::models::Candle;

verus! {

/// Whether `s` is in non-decreasing order of start time.
pub open spec fn sorted_by_start(s: Seq<Candle>) -> bool {
    forall|i: int, j: int| 0 <= i <= j < s.len() ==> s[i].start_time <= s[j].start_time
}

/// Where a candle that starts at `start` goes into the ordered sequence
/// `sorted`: behind the last candle that starts no later.
pub open spec fn insert_position(sorted: Seq<Candle>, start: u64) -> int
    decreases sorted.len(),
{
    if sorted.len() == 0 || sorted.last().start_time <= start {
        sorted.len() as int
    } else {
        insert_position(sorted.drop_last(), start)
    }
}

/// `sorted` with `candle` put in its place.
pub open spec fn insert_by_start(sorted: Seq<Candle>, candle: Candle) -> Seq<Candle> {
    sorted.insert(insert_position(sorted, candle.start_time), candle)
}

/// The candles of `s` in non-decreasing order of start time, candles of equal
/// start time in the order they have in `s`.
pub open spec fn sort_by_start(s: Seq<Candle>) -> Seq<Candle>
    decreases s.len(),
{
    if s.len() == 0 {
        s
    } else {
        insert_by_start(sort_by_start(s.drop_last()), s.last())
    }
}

/// The last `n` elements of `s`, or all of `s` where it has no more than `n`.
pub open spec fn keep_last<T>(s: Seq<T>, n: nat) -> Seq<T> {
    if s.len() > n {
        s.subrange(s.len() - n, s.len() as int)
    } else {
        s
    }
}

/// The place found for a candle lies inside the sequence, everything before
/// it starts no later, and everything from it on starts later.
pub proof fn lemma_insert_position(sorted: Seq<Candle>, start: u64)
    requires
        sorted_by_start(sorted),
    ensures
        0 <= insert_position(sorted, start) <= sorted.len(),
        forall|i: int|
            0 <= i < insert_position(sorted, start) ==> sorted[i].start_time <= start,
        forall|i: int|
            insert_position(sorted, start) <= i < sorted.len() ==> sorted[i].start_time > start,
    decreases sorted.len(),
{
    if sorted.len() == 0 || sorted.last().start_time <= start {
    } else {
        let front = sorted.drop_last();
        assert(sorted_by_start(front)) by {
            assert forall|i: int, j: int| 0 <= i <= j < front.len() implies front[i].start_time
                <= front[j].start_time by {
                assert(front[i] == sorted[i] && front[j] == sorted[j]);
            }
        }
        lemma_insert_position(front, start);
        assert forall|i: int| 0 <= i < insert_position(sorted, start) implies sorted[i].start_time
            <= start by {
            assert(front[i] == sorted[i]);
        }
        assert forall|i: int|
            insert_position(sorted, start) <= i < sorted.len() implies sorted[i].start_time
            > start by {
            if i < front.len() {
                assert(front[i] == sorted[i]);
            }
        }
    }
}

/// Putting a candle in its place keeps the order and adds exactly that candle.
pub proof fn lemma_insert_by_start(sorted: Seq<Candle>, candle: Candle)
    requires
        sorted_by_start(sorted),
    ensures
        sorted_by_start(insert_by_start(sorted, candle)),
        insert_by_start(sorted, candle).len() == sorted.len() + 1,
        insert_by_start(sorted, candle).to_multiset() == sorted.to_multiset().insert(candle),
{
    lemma_insert_position(sorted, candle.start_time);
    let p = insert_position(sorted, candle.start_time);
    let out = insert_by_start(sorted, candle);
    assert forall|i: int, j: int| 0 <= i <= j < out.len() implies out[i].start_time
        <= out[j].start_time by {
        if i < p && j < p {
            assert(out[i] == sorted[i] && out[j] == sorted[j]);
        } else if i < p && j == p {
            assert(out[i] == sorted[i]);
        } else if i < p && j > p {
            assert(out[i] == sorted[i] && out[j] == sorted[j - 1]);
        } else if i == p && j > p {
            assert(out[j] == sorted[j - 1]);
        } else if i > p {
            assert(out[i] == sorted[i - 1] && out[j] == sorted[j - 1]);
        }
    }
    vstd::seq_lib::to_multiset_insert(sorted, p, candle);
}

/// Sorting yields an ordered sequence that holds each candle of the input as
/// often as the input does.
pub proof fn lemma_sort_by_start(s: Seq<Candle>)
    ensures
        sorted_by_start(sort_by_start(s)),
        sort_by_start(s).len() == s.len(),
        sort_by_start(s).to_multiset() == s.to_multiset(),
    decreases s.len(),
{
    if s.len() == 0 {
    } else {
        let front = s.drop_last();
        lemma_sort_by_start(front);
        lemma_insert_by_start(sort_by_start(front), s.last());
        assert(s == front.push(s.last()));
        vstd::seq_lib::to_multiset_insert(front, front.len() as int, s.last());
        assert(front.insert(front.len() as int, s.last()) == s);
    }
}

/// A sequence that is in order already is left as it is.
pub proof fn lemma_sort_of_sorted(s: Seq<Candle>)
    requires
        sorted_by_start(s),
    ensures
        sort_by_start(s) == s,
    decreases s.len(),
{
    if s.len() == 0 {
    } else {
        let front = s.drop_last();
        assert(sorted_by_start(front)) by {
            assert forall|i: int, j: int| 0 <= i <= j < front.len() implies front[i].start_time
                <= front[j].start_time by {
                assert(front[i] == s[i] && front[j] == s[j]);
            }
        }
        lemma_sort_of_sorted(front);
        if front.len() > 0 {
            assert(front.last() == s[s.len() - 2]);
        }
        assert(insert_position(front, s.last().start_time) == front.len());
        assert(front.insert(front.len() as int, s.last()) == s);
    }
}

/// The last `n` of an ordered sequence are in order.
pub proof fn lemma_keep_last_sorted(s: Seq<Candle>, n: nat)
    requires
        sorted_by_start(s),
    ensures
        sorted_by_start(keep_last(s, n)),
        keep_last(s, n).len() <= n,
        keep_last(s, n).len() <= s.len(),
{
    let k = keep_last(s, n);
    if s.len() > n {
        assert forall|i: int, j: int| 0 <= i <= j < k.len() implies k[i].start_time
            <= k[j].start_time by {
            assert(k[i] == s[i + s.len() - n] && k[j] == s[j + s.len() - n]);
        }
    }
}

/// Puts `candle` into the ordered queue `out`, behind the candles that start
/// no later than it.
fn insert_sorted(out: &mut VecDeque<Candle>, candle: Candle)
    ensures
        final(out)@ == insert_by_start(old(out)@, candle),
{
    let mut p: usize = out.len();
    assert(out@.subrange(0, p as int) == out@);
    while p > 0 && out[p - 1].start_time > candle.start_time
        invariant
            p <= out.len(),
            out@ == old(out)@,
            insert_position(out@, candle.start_time) == insert_position(
                out@.subrange(0, p as int),
                candle.start_time,
            ),
        decreases p,
    {
        proof {
            let head = out@.subrange(0, p as int);
            assert(head.last() == out@[p - 1]);
            assert(head.drop_last() == out@.subrange(0, p - 1));
        }
        p = p - 1;
    }
    proof {
        let head = out@.subrange(0, p as int);
        if p > 0 {
            assert(head.last() == out@[p - 1]);
        }
        assert(insert_position(head, candle.start_time) == p);
    }
    out.insert(p, candle);
}

/// Orders the queue by start time. Candles that start at the same time keep
/// their order. A queue that is almost in order costs little more than a
/// pass over it.
pub fn sort_queue(queue: &mut VecDeque<Candle>)
    ensures
        final(queue)@ == sort_by_start(old(queue)@),
{
    let mut out: VecDeque<Candle> = VecDeque::new();
    let ghost all = queue@;
    let ghost mut done: int = 0;
    while queue.len() > 0
        invariant
            0 <= done <= all.len(),
            queue@ == all.subrange(done, all.len() as int),
            out@ == sort_by_start(all.subrange(0, done)),
        decreases queue.len(),
    {
        let candle = queue.pop_front().unwrap();
        proof {
            let next = all.subrange(0, done + 1);
            assert(candle == all[done]);
            assert(next.last() == candle);
            assert(next.drop_last() == all.subrange(0, done));
            assert(queue@ == all.subrange(done + 1, all.len() as int));
            done = done + 1;
        }
        insert_sorted(&mut out, candle);
    }
    proof {
        assert(all.subrange(0, done) == all);
    }
    *queue = out;
}

} // verus!
