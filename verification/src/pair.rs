//! A traded pair and the orders resting against it.

use vstd::prelude::*;

use crate::order::Order;

verus! {

/// A base/quote pair and the live orders keyed by venue order id.
#[derive(Clone, Debug)]
pub struct Pair {
    pub base: String,
    pub quote: String,
    pub orders: Vec<(String, Order)>,
}

impl Pair {
    /// An empty pair for the given legs.
    pub fn new(base: &str, quote: &str) -> (r: Pair)
        ensures
            r.base@ == base@,
            r.quote@ == quote@,
            r.orders@.len() == 0,
    {
        Pair { base: base.to_owned(), quote: quote.to_owned(), orders: Vec::new() }
    }
}

} // verus!
