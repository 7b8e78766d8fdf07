//! Order-related data types shared across venues.

use vstd::prelude::*;

verus! {

/// A resting order's size on both legs, fixed-point.
#[derive(Clone, Debug)]
pub struct Order {
    pub base_quantity: u64,
    pub quote_quantity: u64,
}

/// A change to an order's size; deltas can be negative.
#[derive(Clone, Debug)]
pub struct OrderDelta {
    pub base_delta: i64,
    pub quote_delta: i64,
}

/// One price level.
#[derive(Clone, Copy, Debug, PartialEq, Eq, Structural)]
pub struct OrderBookEntry {
    pub price: u64,
    pub quantity: u64,
}

/// A book snapshot: best levels first, as-of time in Unix milliseconds.
#[derive(Clone, Debug)]
pub struct OrderBook {
    pub time: u64,
    pub bids: Vec<OrderBookEntry>,
    pub asks: Vec<OrderBookEntry>,
}

/// A plain limit-order request.
#[derive(Clone, Copy, Debug, PartialEq, Eq, Structural)]
pub struct Request {
    pub price: u64,
    pub quantity: u64,
}

/// A private order-state notification, reduced to the fields this
/// system observes.
#[derive(Clone, Debug)]
pub struct OrderEvent {
    pub order_id: String,
    pub status: String,
    /// Filled quantity so far, fixed-point.
    pub filled_qty: u64,
    /// Order price, fixed-point.
    pub price: u64,
}

pub open spec fn order_event_wf(e: OrderEvent) -> bool {
    crate::fixed::amount_ok(e.filled_qty) && crate::fixed::amount_ok(e.price)
}

} // verus!
