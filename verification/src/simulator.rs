//! A stand-in for a front end: it counts every event it is given and picks,
//! for each of four families, one event to show every ten seconds.

use vstd::prelude::*;
use crate::models::{Family, MarketData};

verus! {

/// Milliseconds between two samples of one family.
pub const SAMPLE_INTERVAL_MS: u64 = 10_000;

/// Whether a sample is due at `now`: more than the sample interval has
/// passed since the last one, both in milliseconds since the epoch.
pub open spec fn sample_due(last: u64, now: u64) -> bool {
    now > last + SAMPLE_INTERVAL_MS
}

/// The count after one more event; it starts over past the largest value.
pub open spec fn counted(count: u64) -> u64 {
    if count == u64::MAX {
        0
    } else {
        (count + 1) as u64
    }
}

/// The counters of a simulated front end.
#[derive(Debug, PartialEq, Eq, Structural)]
pub struct FrontendSimulator {
    /// Events seen so far.
    pub event_counter: u64,
    /// When the last trade was shown, in milliseconds since the epoch.
    pub last_trade_print: u64,
    pub last_agg_trade_print: u64,
    pub last_book_print: u64,
    pub last_candle_print: u64,
}

impl FrontendSimulator {
    /// The simulator after `now` has been noted for `family`, where a
    /// sample of it was due; families that are not sampled note nothing.
    pub open spec fn sampled(self, family: Family, now: u64) -> FrontendSimulator {
        match family {
            Family::Trade => FrontendSimulator { last_trade_print: now, ..self },
            Family::AggTrade => FrontendSimulator { last_agg_trade_print: now, ..self },
            Family::OrderBook => FrontendSimulator { last_book_print: now, ..self },
            Family::Candle => FrontendSimulator { last_candle_print: now, ..self },
            _ => self,
        }
    }

    /// When an event of `family` was last shown; `None` for a family that
    /// is not sampled.
    pub open spec fn last_print(self, family: Family) -> Option<u64> {
        match family {
            Family::Trade => Some(self.last_trade_print),
            Family::AggTrade => Some(self.last_agg_trade_print),
            Family::OrderBook => Some(self.last_book_print),
            Family::Candle => Some(self.last_candle_print),
            _ => None,
        }
    }

    /// Whether an event of `family` that comes at `now` is to be shown.
    pub open spec fn shows(self, family: Family, now: u64) -> bool {
        self.last_print(family) matches Some(last) && sample_due(last, now)
    }

    /// The simulator after an event of `family` has come at `now`.
    pub open spec fn after(self, family: Family, now: u64) -> FrontendSimulator {
        let noted = if self.shows(family, now) {
            self.sampled(family, now)
        } else {
            self
        };
        FrontendSimulator { event_counter: counted(self.event_counter), ..noted }
    }

    /// A simulator that has seen nothing.
    pub fn new() -> (simulator: FrontendSimulator)
        ensures
            simulator == (FrontendSimulator {
                event_counter: 0,
                last_trade_print: 0,
                last_agg_trade_print: 0,
                last_book_print: 0,
                last_candle_print: 0,
            }),
    {
        FrontendSimulator {
            event_counter: 0,
            last_trade_print: 0,
            last_agg_trade_print: 0,
            last_book_print: 0,
            last_candle_print: 0,
        }
    }

    /// Notes `now` in `last_print` where a sample is due, and says whether
    /// one was.
    fn check_and_print(last_print: &mut u64, now: u64) -> (due: bool)
        ensures
            due == sample_due(*old(last_print), now),
            *final(last_print) == (if due {
                now
            } else {
                *old(last_print)
            }),
    {
        if now > *last_print && now - *last_print > SAMPLE_INTERVAL_MS {
            *last_print = now;
            true
        } else {
            false
        }
    }

    /// Counts the event and says whether it is to be shown: the first of
    /// its family to come more than ten seconds after the last one shown.
    /// Only trades, aggregated trades, order books and candles are sampled.
    pub fn process(&mut self, data: &MarketData, now: u64) -> (show: bool)
        ensures
            show == old(self).shows(data@.family(), now),
            *final(self) == old(self).after(data@.family(), now),
    {
        self.event_counter = if self.event_counter == u64::MAX {
            0
        } else {
            self.event_counter + 1
        };
        match data {
            MarketData::Trade(_) => Self::check_and_print(&mut self.last_trade_print, now),
            MarketData::AggTrade(_) => Self::check_and_print(&mut self.last_agg_trade_print, now),
            MarketData::OrderBook(_) => Self::check_and_print(&mut self.last_book_print, now),
            MarketData::Candle(_) => Self::check_and_print(&mut self.last_candle_print, now),
            _ => false,
        }
    }
}

} // verus!
