use exchange::coordinator::{Action, CoordEvent, Coordinator};
use exchange::estimator::{BookTick, Level};

fn level(price: u64) -> Option<Level> {
    Some(Level { price, size: 10_000 })
}

fn tick(bid: u64, ask: u64) -> CoordEvent {
    CoordEvent::SourceTick { tick: BookTick { bid: level(bid), ask: level(ask) } }
}

#[test]
fn cycle_is_strictly_ordered() {
    let mut c = Coordinator::new();
    // the first tick only seeds the estimate
    assert_eq!(c.step(&tick(9_900, 10_100)), Action::Idle);
    // estimate now 1.0; the next tick opens a cycle with the cancel
    assert_eq!(c.step(&tick(9_900, 10_100)), Action::CancelAll);
    // only the completed cancel starts the base fetch
    assert_eq!(c.step(&CoordEvent::CancelDone { ok: true }), Action::FetchBaseBalance);
    // only the base balance starts the quote fetch
    assert_eq!(
        c.step(&CoordEvent::BalanceFetched { amount: Some(10_000_000) }),
        Action::FetchQuoteBalance
    );
    // both balances in hand: the buy goes out first, priced 2% under the
    // bid; base=1000, quote=500 at mid 1.0 saturates the buy weight
    assert_eq!(
        c.step(&CoordEvent::BalanceFetched { amount: Some(5_000_000) }),
        Action::SubmitBuy { price: 9_702, quantity: 2_500_000 }
    );
    // the sell follows the buy's acknowledgement, 2% over the ask
    assert_eq!(
        c.step(&CoordEvent::SubmitDone { ok: true }),
        Action::SubmitSell { price: 10_302, quantity: 0 }
    );
    // the cycle closes and the loop is ready for the next tick
    assert_eq!(c.step(&CoordEvent::SubmitDone { ok: true }), Action::Idle);
    assert_eq!(c.step(&tick(9_900, 10_100)), Action::CancelAll);
}

#[test]
fn first_tick_missing_a_side_does_not_start_quoting() {
    let mut c = Coordinator::new();
    let half = CoordEvent::SourceTick { tick: BookTick { bid: level(9_900), ask: None } };
    assert_eq!(c.step(&half), Action::Idle);
    // still waiting: the next complete tick seeds, not quotes
    assert_eq!(c.step(&tick(9_900, 10_100)), Action::Idle);
    assert_eq!(c.step(&tick(9_900, 10_100)), Action::CancelAll);
}

#[test]
fn failed_cancel_aborts_the_cycle() {
    let mut c = Coordinator::new();
    c.step(&tick(9_900, 10_100));
    assert_eq!(c.step(&tick(9_900, 10_100)), Action::CancelAll);
    assert_eq!(c.step(&CoordEvent::CancelDone { ok: false }), Action::Idle);
    // the loop recovers: the next tick opens a fresh cycle
    assert_eq!(c.step(&tick(9_900, 10_100)), Action::CancelAll);
}

#[test]
fn failed_balance_fetch_aborts_the_cycle() {
    let mut c = Coordinator::new();
    c.step(&tick(9_900, 10_100));
    c.step(&tick(9_900, 10_100));
    c.step(&CoordEvent::CancelDone { ok: true });
    assert_eq!(c.step(&CoordEvent::BalanceFetched { amount: None }), Action::Idle);
    assert_eq!(c.step(&tick(9_900, 10_100)), Action::CancelAll);
}

#[test]
fn failed_buy_submission_skips_the_sell() {
    let mut c = Coordinator::new();
    c.step(&tick(9_900, 10_100));
    c.step(&tick(9_900, 10_100));
    c.step(&CoordEvent::CancelDone { ok: true });
    c.step(&CoordEvent::BalanceFetched { amount: Some(10_000_000) });
    c.step(&CoordEvent::BalanceFetched { amount: Some(5_000_000) });
    assert_eq!(c.step(&CoordEvent::SubmitDone { ok: false }), Action::Idle);
    assert_eq!(c.step(&tick(9_900, 10_100)), Action::CancelAll);
}

#[test]
fn hedge_order_events_are_only_observed() {
    let mut c = Coordinator::new();
    let ev = CoordEvent::HedgeOrders { events: Vec::new() };
    assert_eq!(c.step(&ev), Action::ObserveOrders);
    c.step(&tick(9_900, 10_100));
    assert_eq!(c.step(&ev), Action::ObserveOrders);
}

#[test]
fn source_stream_end_halts_quoting() {
    let mut c = Coordinator::new();
    c.step(&tick(9_900, 10_100));
    assert_eq!(c.step(&CoordEvent::SourceClosed), Action::Idle);
    // order events can still be observed after the halt
    assert_eq!(
        c.step(&CoordEvent::HedgeOrders { events: Vec::new() }),
        Action::ObserveOrders
    );
}
