//! The quoting event loop's decision core.
//!
//! The coordinator multiplexes two streams — the source venue's
//! top-of-book and the hedge venue's order updates — and, on every
//! tick, runs one strictly ordered cycle: cancel the resting orders,
//! fold the tick into the price estimate, fetch the base then the quote
//! balance, compute the two quotes, submit the buy then the sell.  The
//! unverified shell performs each requested action and feeds its
//! outcome back in as the next event; a failed step aborts the cycle
//! cleanly.  Hedge-venue order events are only observed.

use vstd::prelude::*;

use crate::estimator::{estimate_wf, spec_first_estimate, spec_update, tick_wf, BookTick, PriceEstimate};
use crate::fixed::amount_ok;
use crate::order::OrderEvent;
use crate::quoter::{
    compute_quotes, spec_buy_price, spec_buy_qty, spec_sell_price, spec_sell_qty, spec_sigmoid,
    spec_skew,
};

verus! {

/// Where the coordinator stands within a quoting cycle.
#[derive(Clone, Copy, Debug)]
pub enum CyclePhase {
    /// No tick seen yet: no estimate exists and no quoting may happen.
    AwaitingFirstTick,
    /// Between cycles, ready for the next tick.
    Ready,
    /// Cancel-all issued, waiting for its outcome; the tick that opened
    /// the cycle is held until the cancel completes.
    AwaitCancel { tick: BookTick },
    /// Base-asset balance fetch outstanding.
    AwaitBaseBalance,
    /// Quote-asset balance fetch outstanding.
    AwaitQuoteBalance { base: u64 },
    /// Buy submission outstanding; the sell quote is held for after it.
    AwaitBuyAck { sell_price: u64, sell_qty: u64 },
    /// Sell submission outstanding.
    AwaitSellAck,
    /// The source stream ended: no further quoting.
    Halted,
}

/// What the shell reports into the coordinator.
#[derive(Clone, Debug)]
pub enum CoordEvent {
    /// A top-of-book tick from the source venue.
    SourceTick { tick: BookTick },
    /// Outcome of the cancel-all call.
    CancelDone { ok: bool },
    /// Outcome of a balance fetch; `None` is a failed call or reply.
    BalanceFetched { amount: Option<u64> },
    /// Outcome of an order submission.
    SubmitDone { ok: bool },
    /// Order events from the hedge venue's private stream.
    HedgeOrders { events: Vec<OrderEvent> },
    /// The source venue's stream closed or failed.
    SourceClosed,
}

/// What the shell must do next.  At most one action per step.
#[derive(Clone, Copy, Debug, PartialEq, Eq, Structural)]
pub enum Action {
    /// Nothing to do; wait for the next event.
    Idle,
    /// Cancel every resting order on the hedge venue and report back.
    CancelAll,
    /// Fetch the base-asset balance on the source venue.
    FetchBaseBalance,
    /// Fetch the quote-asset balance on the source venue.
    FetchQuoteBalance,
    /// Submit a buy at this price and size on the hedge venue.
    SubmitBuy { price: u64, quantity: u64 },
    /// Submit a sell at this price and size on the hedge venue.
    SubmitSell { price: u64, quantity: u64 },
    /// Record the received order events.
    ObserveOrders,
}

/// The coordinator's whole long-lived state: the phase of the current
/// cycle and the price estimate.
#[derive(Clone, Copy, Debug)]
pub struct Coordinator {
    pub phase: CyclePhase,
    pub estimate: Option<PriceEstimate>,
}

pub open spec fn coordinator_wf(c: Coordinator) -> bool {
    &&& (c.phase is AwaitingFirstTick ==> c.estimate is None)
    &&& (c.estimate is None ==> c.phase is AwaitingFirstTick || c.phase is Halted)
    &&& (c.estimate matches Some(e) ==> estimate_wf(e))
    &&& (c.phase matches CyclePhase::AwaitCancel { tick } ==> tick_wf(tick))
    &&& (c.phase matches CyclePhase::AwaitQuoteBalance { base } ==> amount_ok(base))
}

/// Which events can arrive in which phase: ticks and stream events only
/// between cycles (the loop does not poll the streams while a call is
/// outstanding), call outcomes only while that call is outstanding.
pub open spec fn accepts(c: Coordinator, e: CoordEvent) -> bool {
    match e {
        CoordEvent::SourceTick { tick } => tick_wf(tick) && (c.phase is AwaitingFirstTick
            || c.phase is Ready),
        CoordEvent::CancelDone { .. } => c.phase is AwaitCancel,
        CoordEvent::BalanceFetched { .. } => c.phase is AwaitBaseBalance
            || c.phase is AwaitQuoteBalance,
        CoordEvent::SubmitDone { .. } => c.phase is AwaitBuyAck || c.phase is AwaitSellAck,
        CoordEvent::HedgeOrders { .. } => c.phase is AwaitingFirstTick || c.phase is Ready
            || c.phase is Halted,
        CoordEvent::SourceClosed => true,
    }
}

/// The transition function, in full.
pub open spec fn spec_step(c: Coordinator, e: CoordEvent) -> (Coordinator, Action) {
    match e {
        CoordEvent::SourceClosed => (Coordinator { phase: CyclePhase::Halted, ..c }, Action::Idle),
        CoordEvent::HedgeOrders { .. } => (c, Action::ObserveOrders),
        CoordEvent::SourceTick { tick } => {
            if c.phase is AwaitingFirstTick {
                // the first tick only seeds the estimate, and only if it
                // carries both sides; quoting starts with the next tick
                if tick.bid is Some && tick.ask is Some {
                    (
                        Coordinator {
                            phase: CyclePhase::Ready,
                            estimate: Some(spec_first_estimate(tick)),
                        },
                        Action::Idle,
                    )
                } else {
                    (c, Action::Idle)
                }
            } else if c.phase is Ready {
                (Coordinator { phase: CyclePhase::AwaitCancel { tick }, ..c }, Action::CancelAll)
            } else {
                (c, Action::Idle)
            }
        },
        CoordEvent::CancelDone { ok } => {
            if !(c.phase is AwaitCancel) {
                (c, Action::Idle)
            } else if ok {
                let tick = c.phase->AwaitCancel_tick;
                (
                    Coordinator {
                        phase: CyclePhase::AwaitBaseBalance,
                        estimate: Some(spec_update(c.estimate->0, tick)),
                    },
                    Action::FetchBaseBalance,
                )
            } else {
                // the cycle aborts; the held tick is not folded in, and
                // the next tick starts a fresh cycle
                (Coordinator { phase: CyclePhase::Ready, ..c }, Action::Idle)
            }
        },
        CoordEvent::BalanceFetched { amount } => {
            match amount {
                Some(v) => {
                    if !(c.phase is AwaitBaseBalance || c.phase is AwaitQuoteBalance) {
                        (c, Action::Idle)
                    } else if !amount_ok(v) {
                        (Coordinator { phase: CyclePhase::Ready, ..c }, Action::Idle)
                    } else if c.phase is AwaitBaseBalance {
                        (
                            Coordinator { phase: CyclePhase::AwaitQuoteBalance { base: v }, ..c },
                            Action::FetchQuoteBalance,
                        )
                    } else {
                        let base = c.phase->AwaitQuoteBalance_base;
                        let est = c.estimate->0;
                        if est.smoothed_mid == 0 {
                            // no meaningful mid to size against
                            (Coordinator { phase: CyclePhase::Ready, ..c }, Action::Idle)
                        } else {
                            let x = spec_skew(base as int, v as int, est.smoothed_mid as int);
                            (
                                Coordinator {
                                    phase: CyclePhase::AwaitBuyAck {
                                        sell_price: spec_sell_price(est.last_ask as int) as u64,
                                        sell_qty: spec_sell_qty(
                                            v as int,
                                            spec_sigmoid(-x),
                                        ) as u64,
                                    },
                                    ..c
                                },
                                Action::SubmitBuy {
                                    price: spec_buy_price(est.last_bid as int) as u64,
                                    quantity: spec_buy_qty(
                                        base as int,
                                        est.smoothed_mid as int,
                                        spec_sigmoid(x),
                                    ) as u64,
                                },
                            )
                        }
                    }
                },
                None => {
                    if c.phase is AwaitBaseBalance || c.phase is AwaitQuoteBalance {
                        (Coordinator { phase: CyclePhase::Ready, ..c }, Action::Idle)
                    } else {
                        (c, Action::Idle)
                    }
                },
            }
        },
        CoordEvent::SubmitDone { ok } => {
            if c.phase is AwaitBuyAck {
                if ok {
                    let p = c.phase->AwaitBuyAck_sell_price;
                    let q = c.phase->AwaitBuyAck_sell_qty;
                    (
                        Coordinator { phase: CyclePhase::AwaitSellAck, ..c },
                        Action::SubmitSell { price: p, quantity: q },
                    )
                } else {
                    (Coordinator { phase: CyclePhase::Ready, ..c }, Action::Idle)
                }
            } else if c.phase is AwaitSellAck {
                (Coordinator { phase: CyclePhase::Ready, ..c }, Action::Idle)
            } else {
                (c, Action::Idle)
            }
        },
    }
}

impl Coordinator {
    /// The state at process start: nothing seen, nothing quoted.
    pub fn new() -> (r: Coordinator)
        ensures
            r.phase is AwaitingFirstTick,
            r.estimate is None,
            coordinator_wf(r),
    {
        Coordinator { phase: CyclePhase::AwaitingFirstTick, estimate: None }
    }

    /// Feed one event in; returns the next action for the shell.
    pub fn step(&mut self, event: &CoordEvent) -> (action: Action)
        requires
            coordinator_wf(*old(self)),
            accepts(*old(self), *event),
        ensures
            (*final(self), action) == spec_step(*old(self), *event),
            coordinator_wf(*final(self)),
    {
        match event {
            CoordEvent::SourceClosed => {
                self.phase = CyclePhase::Halted;
                Action::Idle
            },
            CoordEvent::HedgeOrders { .. } => Action::ObserveOrders,
            CoordEvent::SourceTick { tick } => {
                match self.phase {
                    CyclePhase::AwaitingFirstTick => {
                        if tick.bid.is_some() && tick.ask.is_some() {
                            self.phase = CyclePhase::Ready;
                            self.estimate = Some(PriceEstimate::from_first_tick(tick));
                        }
                        Action::Idle
                    },
                    CyclePhase::Ready => {
                        self.phase = CyclePhase::AwaitCancel { tick: *tick };
                        Action::CancelAll
                    },
                    _ => Action::Idle,
                }
            },
            CoordEvent::CancelDone { ok } => {
                let held = match self.phase {
                    CyclePhase::AwaitCancel { tick } => Some(tick),
                    _ => None,
                };
                if held.is_none() {
                    Action::Idle
                } else if *ok {
                    let tick = match held {
                        Some(t) => t,
                        None => BookTick { bid: None, ask: None },
                    };
                    let est = match &self.estimate {
                        Some(e) => e.update(&tick),
                        None => PriceEstimate { smoothed_mid: 0, last_bid: 0, last_ask: 0 },
                    };
                    self.phase = CyclePhase::AwaitBaseBalance;
                    self.estimate = Some(est);
                    Action::FetchBaseBalance
                } else {
                    self.phase = CyclePhase::Ready;
                    Action::Idle
                }
            },
            CoordEvent::BalanceFetched { amount } => {
                let awaiting_base = matches!(self.phase, CyclePhase::AwaitBaseBalance);
                let awaiting_quote = matches!(self.phase, CyclePhase::AwaitQuoteBalance { .. });
                if !awaiting_base && !awaiting_quote {
                    return Action::Idle;
                }
                match amount {
                    Some(v) => {
                        if *v > crate::fixed::AMOUNT_MAX {
                            self.phase = CyclePhase::Ready;
                            Action::Idle
                        } else {
                            match self.phase {
                                CyclePhase::AwaitBaseBalance => {
                                    self.phase = CyclePhase::AwaitQuoteBalance { base: *v };
                                    Action::FetchQuoteBalance
                                },
                                _ => {
                                    let base = match self.phase {
                                        CyclePhase::AwaitQuoteBalance { base } => base,
                                        _ => 0,
                                    };
                                    let est = match &self.estimate {
                                        Some(e) => *e,
                                        None => PriceEstimate {
                                            smoothed_mid: 0,
                                            last_bid: 0,
                                            last_ask: 0,
                                        },
                                    };
                                    if est.smoothed_mid == 0 {
                                        self.phase = CyclePhase::Ready;
                                        Action::Idle
                                    } else {
                                        let (buy, sell) = compute_quotes(&est, base, *v, "");
                                        self.phase = CyclePhase::AwaitBuyAck {
                                            sell_price: sell.price,
                                            sell_qty: sell.quantity,
                                        };
                                        Action::SubmitBuy {
                                            price: buy.price,
                                            quantity: buy.quantity,
                                        }
                                    }
                                },
                            }
                        }
                    },
                    None => {
                        self.phase = CyclePhase::Ready;
                        Action::Idle
                    },
                }
            },
            CoordEvent::SubmitDone { ok } => {
                match self.phase {
                    CyclePhase::AwaitBuyAck { sell_price, sell_qty } => {
                        if *ok {
                            self.phase = CyclePhase::AwaitSellAck;
                            Action::SubmitSell { price: sell_price, quantity: sell_qty }
                        } else {
                            self.phase = CyclePhase::Ready;
                            Action::Idle
                        }
                    },
                    CyclePhase::AwaitSellAck => {
                        self.phase = CyclePhase::Ready;
                        Action::Idle
                    },
                    _ => Action::Idle,
                }
            },
        }
    }
}

/// Balance fetches are only ever requested as the direct consequence of
/// a completed cancel (the base) or a completed base fetch (the quote):
/// no quoting step can overtake the cancel.
pub proof fn lemma_fetch_follows_cancel(c: Coordinator, e: CoordEvent)
    ensures
        spec_step(c, e).1 is FetchBaseBalance ==> c.phase is AwaitCancel && (e matches
            CoordEvent::CancelDone { ok: true }),
        spec_step(c, e).1 is FetchQuoteBalance ==> c.phase is AwaitBaseBalance && (e matches
            CoordEvent::BalanceFetched { amount: Some(_) }),
{
}

/// Submissions are only ever requested once both balances are in hand:
/// the buy as the direct consequence of the quote-balance fetch, the
/// sell after the buy's acknowledgement.
pub proof fn lemma_submit_follows_balances(c: Coordinator, e: CoordEvent)
    ensures
        spec_step(c, e).1 is SubmitBuy ==> c.phase is AwaitQuoteBalance && (e matches
            CoordEvent::BalanceFetched { amount: Some(_) }),
        spec_step(c, e).1 is SubmitSell ==> c.phase is AwaitBuyAck && (e matches
            CoordEvent::SubmitDone { ok: true }),
{
}

/// One full cycle, spelled out: a tick in the ready state triggers the
/// cancel; the completed cancel folds the tick into the estimate and
/// starts the base fetch; the two balance fetches complete before the
/// buy is submitted; the sell follows the buy's acknowledgement; the
/// sizes and prices are exactly the quoter's.
pub proof fn lemma_cycle_order(c0: Coordinator, tick: BookTick, base: u64, quote: u64)
    requires
        coordinator_wf(c0),
        c0.phase is Ready,
        tick_wf(tick),
        amount_ok(base),
        amount_ok(quote),
        spec_update(c0.estimate->0, tick).smoothed_mid > 0,
    ensures
        ({
            let (c1, a1) = spec_step(c0, CoordEvent::SourceTick { tick });
            let (c2, a2) = spec_step(c1, CoordEvent::CancelDone { ok: true });
            let (c3, a3) = spec_step(c2, CoordEvent::BalanceFetched { amount: Some(base) });
            let (c4, a4) = spec_step(c3, CoordEvent::BalanceFetched { amount: Some(quote) });
            let (c5, a5) = spec_step(c4, CoordEvent::SubmitDone { ok: true });
            let (c6, a6) = spec_step(c5, CoordEvent::SubmitDone { ok: true });
            let est = spec_update(c0.estimate->0, tick);
            let x = spec_skew(base as int, quote as int, est.smoothed_mid as int);
            &&& a1 == Action::CancelAll
            &&& a2 == Action::FetchBaseBalance
            &&& c2.estimate == Some(est)
            &&& a3 == Action::FetchQuoteBalance
            &&& a4 == (Action::SubmitBuy {
                price: spec_buy_price(est.last_bid as int) as u64,
                quantity: spec_buy_qty(
                    base as int,
                    est.smoothed_mid as int,
                    spec_sigmoid(x),
                ) as u64,
            })
            &&& a5 == (Action::SubmitSell {
                price: spec_sell_price(est.last_ask as int) as u64,
                quantity: spec_sell_qty(quote as int, spec_sigmoid(-x)) as u64,
            })
            &&& a6 == Action::Idle
            &&& c6.phase is Ready
            &&& c6.estimate == Some(est)
        }),
{
}

} // verus!
