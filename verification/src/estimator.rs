//! Smoothed mid-price tracking.
//!
//! The estimator consumes top-of-book ticks from the source venue and
//! keeps an exponentially weighted mid-price: each tick contributes a
//! quarter of the new mid, the previous estimate keeps three quarters.
//! A tick that is missing one side retains the previous price for that
//! side only.

use vstd::prelude::*;

use crate::fixed::amount_ok;

verus! {

/// One side of the book: best price and the size resting there.
#[derive(Clone, Copy, Debug, PartialEq, Eq, Structural)]
pub struct Level {
    pub price: u64,
    pub size: u64,
}

/// A top-of-book update.  A side that the tick did not carry is `None`.
#[derive(Clone, Copy, Debug)]
pub struct BookTick {
    pub bid: Option<Level>,
    pub ask: Option<Level>,
}

/// The price state quoting works from: smoothed mid plus the last best
/// bid and ask actually seen.
#[derive(Clone, Copy, Debug, PartialEq, Eq, Structural)]
pub struct PriceEstimate {
    pub smoothed_mid: u64,
    pub last_bid: u64,
    pub last_ask: u64,
}

pub open spec fn level_wf(l: Level) -> bool {
    amount_ok(l.price) && amount_ok(l.size)
}

pub open spec fn tick_wf(t: BookTick) -> bool {
    &&& (t.bid is Some ==> level_wf(t.bid->0))
    &&& (t.ask is Some ==> level_wf(t.ask->0))
}

pub open spec fn estimate_wf(e: PriceEstimate) -> bool {
    amount_ok(e.smoothed_mid) && amount_ok(e.last_bid) && amount_ok(e.last_ask)
}

/// The estimate after the very first two-sided tick: the plain mid.
pub open spec fn spec_first_estimate(t: BookTick) -> PriceEstimate {
    let b = t.bid->0.price;
    let a = t.ask->0.price;
    PriceEstimate {
        smoothed_mid: ((a + b) / 2) as u64,
        last_bid: b,
        last_ask: a,
    }
}

/// One smoothing step: prices missing from the tick are retained, the
/// smoothed mid blends a quarter of the new mid with three quarters of
/// the previous estimate (integer arithmetic, truncated).
pub open spec fn spec_update(e: PriceEstimate, t: BookTick) -> PriceEstimate {
    let b = if t.bid is Some {
        t.bid->0.price
    } else {
        e.last_bid
    };
    let a = if t.ask is Some {
        t.ask->0.price
    } else {
        e.last_ask
    };
    let mid = (a + b) / 2;
    PriceEstimate {
        smoothed_mid: ((mid + 3 * e.smoothed_mid) / 4) as u64,
        last_bid: b,
        last_ask: a,
    }
}

impl PriceEstimate {
    /// Seed the estimate from the first tick, which must carry both
    /// sides; until then no estimate exists and no quoting may happen.
    pub fn from_first_tick(t: &BookTick) -> (r: PriceEstimate)
        requires
            t.bid is Some,
            t.ask is Some,
            tick_wf(*t),
        ensures
            r == spec_first_estimate(*t),
            estimate_wf(r),
    {
        let b = match t.bid {
            Some(l) => l.price,
            None => 0,
        };
        let a = match t.ask {
            Some(l) => l.price,
            None => 0,
        };
        PriceEstimate { smoothed_mid: (a + b) / 2, last_bid: b, last_ask: a }
    }

    /// Apply one tick.
    pub fn update(&self, t: &BookTick) -> (r: PriceEstimate)
        requires
            estimate_wf(*self),
            tick_wf(*t),
        ensures
            r == spec_update(*self, *t),
            estimate_wf(r),
    {
        let b = match t.bid {
            Some(l) => l.price,
            None => self.last_bid,
        };
        let a = match t.ask {
            Some(l) => l.price,
            None => self.last_ask,
        };
        let mid = (a + b) / 2;
        PriceEstimate { smoothed_mid: (mid + 3 * self.smoothed_mid) / 4, last_bid: b, last_ask: a }
    }
}

/// A tick missing one side leaves that side's last price unchanged while
/// the other side updates.
pub proof fn lemma_missing_side_retained(e: PriceEstimate, t: BookTick)
    ensures
        t.bid is None ==> spec_update(e, t).last_bid == e.last_bid,
        t.ask is None ==> spec_update(e, t).last_ask == e.last_ask,
        t.bid is Some ==> spec_update(e, t).last_bid == t.bid->0.price,
        t.ask is Some ==> spec_update(e, t).last_ask == t.ask->0.price,
{
}

/// The smoothed mid never leaves the interval spanned by the previous
/// estimate and the tick's mid: each step is a convex combination (up to
/// truncation toward the lower end, which stays inside the interval).
pub proof fn lemma_smoothed_mid_convex(e: PriceEstimate, t: BookTick)
    requires
        estimate_wf(e),
        tick_wf(t),
    ensures
        ({
            let b = if t.bid is Some {
                t.bid->0.price as int
            } else {
                e.last_bid as int
            };
            let a = if t.ask is Some {
                t.ask->0.price as int
            } else {
                e.last_ask as int
            };
            let mid = (a + b) / 2;
            let sm = spec_update(e, t).smoothed_mid as int;
            &&& (if mid <= e.smoothed_mid {
                mid
            } else {
                e.smoothed_mid as int
            }) <= sm
            &&& sm <= (if mid >= e.smoothed_mid {
                mid
            } else {
                e.smoothed_mid as int
            })
        }),
{
}

} // verus!
