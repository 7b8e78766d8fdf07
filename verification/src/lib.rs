//! Cross-venue quoting library.
//!
//! The library tracks a smoothed mid-price from one venue's top-of-book
//! stream, derives an inventory-skewed two-sided quote, and prepares the
//! signed requests that keep that quote resting on a second venue.  All
//! monetary amounts are fixed-point decimals with four fractional digits
//! (see [`fixed`]); the network itself is driven by a thin unverified
//! shell that feeds frames and responses back into the state machines
//! defined here.

pub mod bitmex;
pub mod bybit;
pub mod coordinator;
pub mod estimator;
pub mod fixed;
pub mod json;
pub mod order;
pub mod pair;
pub mod quoter;
pub mod session;
pub mod signer;
pub mod traits;

use vstd::prelude::*;

use crate::pair::Pair;
use crate::traits::FromApi;

verus! {

/// The two kinds of events a venue can push to us.
#[derive(Debug)]
pub enum EventType {
    OrderBookChange,
    OrderChange,
}

/// A generic exchange handle: endpoints, credentials, and the symbol
/// and balance caches an adapter may maintain.
#[derive(Debug)]
pub struct Exchange {
    pub api_url: String,
    pub api_ws_url: String,
    pub api_key: String,
    pub secret_key: String,
    pub to_internal_ids: Vec<(String, String)>,
    pub from_internal_ids: Vec<(String, String)>,
    pub pairs: Vec<((String, String), Pair)>,
    pub balances: Vec<(String, u64)>,
}

impl Exchange {
    /// Store the endpoints and credentials; caches start empty.
    pub fn with_api(api_url: &str, api_wss_url: &str, api_key: &str, secret_key: &str) -> (r:
        Exchange)
        ensures
            r.api_url@ == api_url@,
            r.api_ws_url@ == api_wss_url@,
            r.api_key@ == api_key@,
            r.secret_key@ == secret_key@,
            r.to_internal_ids@.len() == 0,
            r.from_internal_ids@.len() == 0,
            r.pairs@.len() == 0,
            r.balances@.len() == 0,
    {
        Exchange {
            api_url: api_url.to_owned(),
            api_ws_url: api_wss_url.to_owned(),
            api_key: api_key.to_owned(),
            secret_key: secret_key.to_owned(),
            to_internal_ids: Vec::new(),
            from_internal_ids: Vec::new(),
            pairs: Vec::new(),
            balances: Vec::new(),
        }
    }
}

impl FromApi for Exchange {
    fn from_api(api_url: &str, api_wss_url: &str, api_key: &str, secret_key: &str) -> Self {
        Exchange::with_api(api_url, api_wss_url, api_key, secret_key)
    }
}

} // verus!
