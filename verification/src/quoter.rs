//! Inventory-skewed quote construction.
//!
//! From the current price estimate and the two balances on the source
//! venue, this module derives a buy and a sell order intent for the
//! hedge venue.  Sizing is weighted by a piecewise-linear logistic
//! curve of the inventory skew; prices sit outside the current spread
//! (2% below the last bid, 2% above the last ask).

use vstd::prelude::*;

use crate::estimator::{estimate_wf, PriceEstimate};
use crate::fixed::{amount_ok, AMOUNT_MAX};

verus! {

/// Order direction.
#[derive(Clone, Copy, Debug, PartialEq, Eq, Structural)]
pub enum Side {
    Buy,
    Sell,
}

/// A desired resting order, created fresh each quoting cycle and
/// submitted once.
#[derive(Clone, Debug)]
pub struct OrderIntent {
    pub symbol: String,
    pub side: Side,
    /// Limit price, fixed-point.
    pub price: u64,
    /// Order size in base units, fixed-point.
    pub quantity: u64,
}

/// Inventory skew: how far the held base value (at the smoothed mid)
/// exceeds the quote holdings.  Positive means over-long the base asset.
pub open spec fn spec_skew(base: int, quote: int, mid: int) -> int {
    base * mid / 10000 - quote
}

/// Piecewise-linear logistic weight in fixed-point: one half plus a
/// quarter of the argument, clamped to [0, 1].  This is the logistic
/// curve's tangent at zero, saturating at the ends; it keeps the exact
/// symmetry `w(x) + w(-x) == 1`.
pub open spec fn spec_sigmoid(x: int) -> int {
    if x >= 0 {
        if 5000 + x / 4 >= 10000 {
            10000
        } else {
            5000 + x / 4
        }
    } else {
        if (-x) / 4 >= 5000 {
            0
        } else {
            5000 - (-x) / 4
        }
    }
}

/// Buy size: a quarter of the base balance re-expressed at the mid,
/// weighted by the skew.
pub open spec fn spec_buy_qty(base: int, mid: int, w: int) -> int {
    base * 10000 / mid * w / 10000 / 4
}

/// Sell size: a quarter of the quote balance, weighted by the opposite
/// skew.
pub open spec fn spec_sell_qty(quote: int, w: int) -> int {
    quote * w / 10000 / 4
}

/// Buy quote price: 2% below the last best bid.
pub open spec fn spec_buy_price(last_bid: int) -> int {
    last_bid * 98 / 100
}

/// Sell quote price: 2% above the last best ask.  In fixed-point the
/// 2% markup truncates: below 0.0050 it is under one grid step, and
/// the sell price equals the ask instead of sitting above it.
pub open spec fn spec_sell_price(last_ask: int) -> int {
    last_ask * 102 / 100
}

/// Both quotes sit strictly outside the spread: the buy strictly below
/// every positive bid, the sell strictly above every ask of at least
/// 0.0050 (fifty fixed-point units), where 2% clears the grid step.
pub proof fn lemma_quotes_outside_spread(last_bid: int, last_ask: int)
    requires
        last_bid >= 1,
        last_ask >= 50,
    ensures
        spec_buy_price(last_bid) < last_bid,
        spec_sell_price(last_ask) > last_ask,
{
    assert(last_bid * 98 < last_bid * 100) by (nonlinear_arith)
        requires
            last_bid >= 1,
    ;
    vstd::arithmetic::div_mod::lemma_div_is_strictly_smaller(last_bid * 98, 100);
    assert(last_bid * 98 / 100 < last_bid) by (nonlinear_arith)
        requires
            last_bid >= 1,
            last_bid * 98 < last_bid * 100,
            100 * (last_bid * 98 / 100) <= last_bid * 98,
    ;
    assert(last_ask * 102 >= 100 * last_ask + 100) by (nonlinear_arith)
        requires
            last_ask >= 50,
    ;
    assert(last_ask * 102 / 100 >= (100 * last_ask + 100) / 100) by {
        vstd::arithmetic::div_mod::lemma_div_is_ordered(
            100 * last_ask + 100,
            last_ask * 102,
            100,
        );
    }
    assert((100 * last_ask + 100) / 100 == last_ask + 1) by (nonlinear_arith);
}

/// The weight is always a proper fixed-point fraction.
pub proof fn lemma_sigmoid_range(x: int)
    ensures
        0 <= spec_sigmoid(x) <= 10000,
{
    if x >= 0 {
        vstd::arithmetic::div_mod::lemma_div_pos_is_pos(x, 4);
    } else {
        vstd::arithmetic::div_mod::lemma_div_pos_is_pos(-x, 4);
    }
}

/// Opposite skews get complementary weights: `w(x) + w(-x)` is exactly
/// one, so weight granted to one side always comes out of the other.
pub proof fn lemma_sigmoid_symmetry(x: int)
    ensures
        spec_sigmoid(x) + spec_sigmoid(-x) == 10000,
{
    if x > 0 {
        vstd::arithmetic::div_mod::lemma_div_pos_is_pos(x, 4);
    } else if x < 0 {
        vstd::arithmetic::div_mod::lemma_div_pos_is_pos(-x, 4);
    }
}

/// The weight never decreases as the skew grows: the more over-long the
/// base asset, the larger the buy weight.
pub proof fn lemma_sigmoid_monotone(x1: int, x2: int)
    requires
        x1 <= x2,
    ensures
        spec_sigmoid(x1) <= spec_sigmoid(x2),
{
    if x1 >= 0 {
        vstd::arithmetic::div_mod::lemma_div_is_ordered(x1, x2, 4);
    } else if x2 < 0 {
        vstd::arithmetic::div_mod::lemma_div_is_ordered(-x2, -x1, 4);
        vstd::arithmetic::div_mod::lemma_div_pos_is_pos(-x2, 4);
    } else {
        vstd::arithmetic::div_mod::lemma_div_pos_is_pos(-x1, 4);
        vstd::arithmetic::div_mod::lemma_div_pos_is_pos(x2, 4);
    }
}

/// The skew steers the sizes monotonically: the larger the skew (the
/// more over-long the base asset), the larger the buy size and the
/// smaller the sell size.  This is the sizing bias exactly as the
/// system quotes it.
pub proof fn lemma_sizes_follow_skew(base: int, mid: int, quote: int, x1: int, x2: int)
    requires
        0 <= base,
        0 < mid,
        0 <= quote,
        x1 <= x2,
    ensures
        spec_buy_qty(base, mid, spec_sigmoid(x1)) <= spec_buy_qty(base, mid, spec_sigmoid(x2)),
        spec_sell_qty(quote, spec_sigmoid(-x1)) >= spec_sell_qty(quote, spec_sigmoid(-x2)),
{
    lemma_sigmoid_monotone(x1, x2);
    lemma_sigmoid_monotone(-x2, -x1);
    let w1 = spec_sigmoid(x1);
    let w2 = spec_sigmoid(x2);
    let v1 = spec_sigmoid(-x1);
    let v2 = spec_sigmoid(-x2);
    lemma_sigmoid_range(x1);
    lemma_sigmoid_range(x2);
    lemma_sigmoid_range(-x1);
    lemma_sigmoid_range(-x2);
    let p = base * 10000 / mid;
    assert(base * 10000 >= 0) by (nonlinear_arith)
        requires
            base >= 0,
    ;
    vstd::arithmetic::div_mod::lemma_div_pos_is_pos(base * 10000, mid);
    assert(p * w1 <= p * w2) by (nonlinear_arith)
        requires
            p >= 0,
            w1 <= w2,
    ;
    vstd::arithmetic::div_mod::lemma_div_is_ordered(p * w1, p * w2, 10000);
    vstd::arithmetic::div_mod::lemma_div_is_ordered(p * w1 / 10000, p * w2 / 10000, 4);
    assert(quote * v2 <= quote * v1) by (nonlinear_arith)
        requires
            quote >= 0,
            v2 <= v1,
    ;
    vstd::arithmetic::div_mod::lemma_div_is_ordered(quote * v2, quote * v1, 10000);
    vstd::arithmetic::div_mod::lemma_div_is_ordered(quote * v2 / 10000, quote * v1 / 10000, 4);
}

fn sigmoid_parts(x_neg: bool, x_mag: u128) -> (w: u64)
    ensures
        w as int == spec_sigmoid(
            if x_neg {
                -(x_mag as int)
            } else {
                x_mag as int
            },
        ),
{
    let q = x_mag / 4;
    if !x_neg {
        if q >= 5000 {
            10000
        } else {
            5000 + (q as u64)
        }
    } else {
        if q >= 5000 {
            0
        } else {
            5000 - (q as u64)
        }
    }
}

/// Compute the two order intents for one quoting cycle.
///
/// With skew `x = base*mid - quote`, the buy side is sized by `w(x)` and
/// the sell side by `w(-x)`; both are a quarter of the available funds
/// at full weight.  Prices come from the last seen top of book.
pub fn compute_quotes(
    est: &PriceEstimate,
    base_balance: u64,
    quote_balance: u64,
    symbol: &str,
) -> (r: (OrderIntent, OrderIntent))
    requires
        estimate_wf(*est),
        amount_ok(base_balance),
        amount_ok(quote_balance),
        est.smoothed_mid > 0,
    ensures
        ({
            let x = spec_skew(base_balance as int, quote_balance as int, est.smoothed_mid as int);
            &&& r.0.side == Side::Buy
            &&& r.1.side == Side::Sell
            &&& r.0.symbol@ == symbol@
            &&& r.1.symbol@ == symbol@
            &&& r.0.price as int == spec_buy_price(est.last_bid as int)
            &&& r.1.price as int == spec_sell_price(est.last_ask as int)
            &&& r.0.quantity as int == spec_buy_qty(
                base_balance as int,
                est.smoothed_mid as int,
                spec_sigmoid(x),
            )
            &&& r.1.quantity as int == spec_sell_qty(quote_balance as int, spec_sigmoid(-x))
        }),
{
    let mid = est.smoothed_mid;
    proof {
        assert((base_balance as int) * (mid as int) <= 100_000_000_000_000_000_000_000_000)
            by (nonlinear_arith)
            requires
                0 <= base_balance as int <= 10_000_000_000_000,
                0 <= mid as int <= 10_000_000_000_000,
        ;
        assert((base_balance as int) * (mid as int) >= 0) by (nonlinear_arith)
            requires
                0 <= base_balance as int,
                0 <= mid as int,
        ;
    }
    let held = (base_balance as u128) * (mid as u128) / 10000;
    let quote_u = quote_balance as u128;
    let (x_neg, x_mag) = if held >= quote_u {
        (false, held - quote_u)
    } else {
        (true, quote_u - held)
    };
    proof {
        let x = spec_skew(base_balance as int, quote_balance as int, mid as int);
        assert(if x_neg {
            -(x_mag as int) == x
        } else {
            x_mag as int == x
        });
    }
    let w_buy = sigmoid_parts(x_neg, x_mag);
    let w_sell = sigmoid_parts(!x_neg, x_mag);
    proof {
        let x = spec_skew(base_balance as int, quote_balance as int, mid as int);
        if x_mag == 0 {
            assert(spec_sigmoid(0) == 5000);
        }
        assert(w_sell as int == spec_sigmoid(-x));
    }
    proof {
        lemma_sigmoid_range(if x_neg { -(x_mag as int) } else { x_mag as int });
        lemma_sigmoid_range(if !x_neg { -(x_mag as int) } else { x_mag as int });
        assert(w_buy <= 10000 && w_sell <= 10000);
        assert(0 <= (base_balance as int) * 10000 <= 100_000_000_000_000_000) by (nonlinear_arith)
            requires
                0 <= base_balance as int <= 10_000_000_000_000,
        ;
    }
    let per_mid = (base_balance as u128) * 10000 / (mid as u128);
    proof {
        vstd::arithmetic::div_mod::lemma_div_nonincreasing((base_balance as int) * 10000, mid as int);
        assert(per_mid as int <= 100_000_000_000_000_000);
        let p = per_mid as int;
        assert(0 <= p * (w_buy as int) <= p * 10000 <= 1_000_000_000_000_000_000_000)
            by (nonlinear_arith)
            requires
                0 <= w_buy as int <= 10000,
                0 <= p <= 100_000_000_000_000_000,
        ;
    }
    let weighted = per_mid * (w_buy as u128) / 10000;
    proof {
        let p = per_mid as int;
        vstd::arithmetic::div_mod::lemma_div_is_ordered(p * (w_buy as int), p * 10000, 10000);
        vstd::arithmetic::div_mod::lemma_div_multiples_vanish(p, 10000);
        vstd::arithmetic::div_mod::lemma_div_pos_is_pos(p * (w_buy as int), 10000);
        assert(weighted as int <= p);
    }
    let buy_qty = (weighted / 4) as u64;
    proof {
        let q = quote_balance as int;
        assert(0 <= q * (w_sell as int) <= 100_000_000_000_000_000) by (nonlinear_arith)
            requires
                0 <= w_sell as int <= 10000,
                0 <= q <= 10_000_000_000_000,
        ;
        vstd::arithmetic::div_mod::lemma_div_pos_is_pos(q * (w_sell as int), 10000);
        vstd::arithmetic::div_mod::lemma_div_nonincreasing(q * (w_sell as int), 10000);
        vstd::arithmetic::div_mod::lemma_div_pos_is_pos(q * (w_sell as int) / 10000, 4);
        vstd::arithmetic::div_mod::lemma_div_nonincreasing(q * (w_sell as int) / 10000, 4);
    }
    let sell_raw = (quote_balance as u128) * (w_sell as u128) / 10000 / 4;
    let sell_qty = sell_raw as u64;
    let buy = OrderIntent {
        symbol: symbol.to_owned(),
        side: Side::Buy,
        price: est.last_bid * 98 / 100,
        quantity: buy_qty,
    };
    let sell = OrderIntent {
        symbol: symbol.to_owned(),
        side: Side::Sell,
        price: est.last_ask * 102 / 100,
        quantity: sell_qty,
    };
    (buy, sell)
}

} // verus!
