use exchange::pair::Pair;
use exchange::signer::{auth_expiry_millis, auth_expiry_seconds};
use exchange::traits::FromApi;
use exchange::{EventType, Exchange};

#[test]
fn exchange_stores_endpoints_and_credentials() {
    let e = Exchange::from_api("https://api.example.test", "wss://ws.example.test", "key", "secret");
    assert_eq!(e.api_url, "https://api.example.test");
    assert_eq!(e.api_ws_url, "wss://ws.example.test");
    assert_eq!(e.api_key, "key");
    assert_eq!(e.secret_key, "secret");
    assert!(e.pairs.is_empty());
    assert!(e.balances.is_empty());
}

#[test]
fn pair_starts_without_orders() {
    let p = Pair::new("MATIC", "USDT");
    assert_eq!(p.base, "MATIC");
    assert_eq!(p.quote, "USDT");
    assert!(p.orders.is_empty());
}

#[test]
fn auth_expiries_lie_one_day_ahead() {
    // both expiries sit a full day past a clock that is at or after the
    // epoch
    assert!(auth_expiry_seconds() >= 86_400);
    assert!(auth_expiry_millis() >= 86_400_000);
}

#[test]
fn event_kinds_are_distinct() {
    let book = EventType::OrderBookChange;
    let order = EventType::OrderChange;
    assert!(matches!(book, EventType::OrderBookChange));
    assert!(matches!(order, EventType::OrderChange));
}
