//! Chain monitoring: a placeholder until a chain backend is plugged in.

use vstd::prelude::*;

verus! {

/// Simple chain monitor (placeholder)
#[derive(Debug)]
pub struct ChainMonitor {
    _placeholder: (),
}

impl ChainMonitor {
    pub fn new() -> (r: Self) {
        ChainMonitor { _placeholder: () }
    }

    /// Whether an address has been used; with no chain backend, never.
    pub fn check_address_usage(&self, _address: &str) -> (r: bool)
        ensures
            !r,
    {
        false
    }
}

} // verus!
