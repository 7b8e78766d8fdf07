//! Capability traits a venue or exchange handle can offer.

use vstd::prelude::*;

verus! {

/// Construction of a venue handle from its endpoints and credentials.
///
/// The caller is expected to have read endpoints and credentials from
/// its configuration already; implementations only store them.
pub trait FromApi: Sized {
    fn from_api(api_url: &str, api_wss_url: &str, api_key: &str, secret_key: &str) -> Self;
}

} // verus!
