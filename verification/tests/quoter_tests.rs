use exchange::estimator::PriceEstimate;
use exchange::quoter::{compute_quotes, Side};

#[test]
fn inventory_skew_saturates_toward_buying() {
    // base=1000, quote=500, mid=1.0: x = 500, the weight saturates, so
    // buy = 1000/1.0 * 1/4 = 250 and sell = 500 * 0/4 = 0
    let est = PriceEstimate { smoothed_mid: 10_000, last_bid: 9_900, last_ask: 10_100 };
    let (buy, sell) = compute_quotes(&est, 10_000_000, 5_000_000, "MATICUSDT");
    assert_eq!(buy.side, Side::Buy);
    assert_eq!(sell.side, Side::Sell);
    assert_eq!(buy.quantity, 2_500_000);
    assert_eq!(sell.quantity, 0);
    assert_eq!(buy.symbol, "MATICUSDT");
    assert_eq!(sell.symbol, "MATICUSDT");
}

#[test]
fn balanced_inventory_quotes_both_sides_evenly() {
    // base=1000 at mid 1.0 against quote=1000: no skew, both weights are
    // one half: buy = 1000 * 0.5 / 4 = 125, sell likewise
    let est = PriceEstimate { smoothed_mid: 10_000, last_bid: 9_900, last_ask: 10_100 };
    let (buy, sell) = compute_quotes(&est, 10_000_000, 10_000_000, "MATICUSDT");
    assert_eq!(buy.quantity, 1_250_000);
    assert_eq!(sell.quantity, 1_250_000);
}

#[test]
fn over_short_inventory_saturates_toward_selling() {
    // base=0 against quote=500: x = -500, all weight on the sell side
    let est = PriceEstimate { smoothed_mid: 10_000, last_bid: 9_900, last_ask: 10_100 };
    let (buy, sell) = compute_quotes(&est, 0, 5_000_000, "MATICUSDT");
    assert_eq!(buy.quantity, 0);
    assert_eq!(sell.quantity, 1_250_000);
}

#[test]
fn quote_prices_sit_outside_the_spread() {
    // bid 0.60, ask 0.62: buy at 0.588, sell at 0.6324, exactly
    let est = PriceEstimate { smoothed_mid: 6_100, last_bid: 6_000, last_ask: 6_200 };
    let (buy, sell) = compute_quotes(&est, 10_000_000, 5_000_000, "MATICUSDT");
    assert_eq!(buy.price, 5_880);
    assert_eq!(sell.price, 6_324);
}

#[test]
fn sell_price_needs_one_grid_step_of_room() {
    // at 0.0050 and above, 2% clears the fixed-point grid step and the
    // sell sits strictly above the ask
    let est = PriceEstimate { smoothed_mid: 50, last_bid: 50, last_ask: 50 };
    let (_, sell) = compute_quotes(&est, 0, 0, "MATICUSDT");
    assert!(sell.price > 50);
    // below it the truncated 2% markup vanishes and the sell equals the
    // ask — the one place the quote is not strictly outside the spread
    let est2 = PriceEstimate { smoothed_mid: 49, last_bid: 49, last_ask: 49 };
    let (buy2, sell2) = compute_quotes(&est2, 0, 0, "MATICUSDT");
    assert_eq!(sell2.price, 49);
    // the buy side holds for every positive bid
    assert!(buy2.price < 49);
}
