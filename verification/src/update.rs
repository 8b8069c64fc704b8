//! Update-proposal values carried by the chain's update system.
//!
//! Only the plain threshold rule is modelled here; the surrounding
//! update-proposal containers are serialization boilerplate over
//! foreign key and hash types and are out of this crate's scope.

use vstd::prelude::*;

verus! {

/// Thresholds governing the adoption of a softfork, each expressed
/// as a coin portion.
#[derive(Debug, Clone, Copy, PartialEq, Eq, Structural)]
pub struct SoftforkRule {
    pub init_thd: u64,
    pub min_thd: u64,
    pub thd_decrement: u64,
}

impl SoftforkRule {
    /// A softfork rule from its three thresholds.
    pub fn new(init_thd: u64, min_thd: u64, thd_decrement: u64) -> (r: Self)
        ensures
            r.init_thd == init_thd,
            r.min_thd == min_thd,
            r.thd_decrement == thd_decrement,
    {
        SoftforkRule { init_thd, min_thd, thd_decrement }
    }
}

} // verus!
