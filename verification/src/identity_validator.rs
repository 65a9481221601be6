//! A login-guard shell constructed from the configuration; it checks
//! nothing itself and passes requests through unchanged.

use vstd::prelude::*;

use crate::config::ApplicationConfig;

verus! {

/// A pass-through middleware shell.
pub struct LoginRequired {}

impl LoginRequired {
    pub fn new(_config: &ApplicationConfig) -> (r: Self) {
        Self {}
    }
}

} // verus!
