use exchange::estimator::{BookTick, Level, PriceEstimate};

fn level(price: u64) -> Option<Level> {
    Some(Level { price, size: 10_000 })
}

#[test]
fn first_tick_seeds_plain_mid() {
    let tick = BookTick { bid: level(990_000), ask: level(1_010_000) };
    let est = PriceEstimate::from_first_tick(&tick);
    assert_eq!(est.smoothed_mid, 1_000_000);
    assert_eq!(est.last_bid, 990_000);
    assert_eq!(est.last_ask, 1_010_000);
}

#[test]
fn smoothing_blends_quarter_of_new_mid() {
    // smoothed 100, tick ask=101 bid=99 (mid 100): stays 100
    let est = PriceEstimate { smoothed_mid: 1_000_000, last_bid: 990_000, last_ask: 1_010_000 };
    let e1 = est.update(&BookTick { bid: level(990_000), ask: level(1_010_000) });
    assert_eq!(e1.smoothed_mid, 1_000_000);
    // tick ask=105 bid=95 (mid 100): still 100
    let e2 = e1.update(&BookTick { bid: level(950_000), ask: level(1_050_000) });
    assert_eq!(e2.smoothed_mid, 1_000_000);
    // tick ask=121 bid=119 (mid 120): 0.25*120 + 0.75*100 = 105
    let e3 = e2.update(&BookTick { bid: level(1_190_000), ask: level(1_210_000) });
    assert_eq!(e3.smoothed_mid, 1_050_000);
    assert_eq!(e3.last_bid, 1_190_000);
    assert_eq!(e3.last_ask, 1_210_000);
}

#[test]
fn missing_side_retains_previous_price() {
    let est = PriceEstimate { smoothed_mid: 1_000_000, last_bid: 990_000, last_ask: 1_010_000 };
    // no bid: the bid is retained, the ask updates
    let e1 = est.update(&BookTick { bid: None, ask: level(1_030_000) });
    assert_eq!(e1.last_bid, 990_000);
    assert_eq!(e1.last_ask, 1_030_000);
    // no ask: the ask is retained, the bid updates
    let e2 = e1.update(&BookTick { bid: level(970_000), ask: None });
    assert_eq!(e2.last_ask, 1_030_000);
    assert_eq!(e2.last_bid, 970_000);
    // both missing: everything priced from the retained sides
    let e3 = e2.update(&BookTick { bid: None, ask: None });
    assert_eq!(e3.last_bid, 970_000);
    assert_eq!(e3.last_ask, 1_030_000);
}

#[test]
fn smoothed_mid_stays_between_old_estimate_and_new_mid() {
    let est = PriceEstimate { smoothed_mid: 1_000_000, last_bid: 990_000, last_ask: 1_010_000 };
    let e1 = est.update(&BookTick { bid: level(1_190_000), ask: level(1_210_000) });
    // new mid is 120, previous estimate 100: the update lands inside
    assert!(e1.smoothed_mid >= 1_000_000);
    assert!(e1.smoothed_mid <= 1_200_000);
}
