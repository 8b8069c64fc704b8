//! Logical position of a block on the chain's time axis.

use vstd::prelude::*;

verus! {

/// An ordered pair `(epoch, slot_id)` giving a header's logical
/// position in the chain. The total order is by epoch, then by
/// slot identifier.
#[derive(Debug, Clone, Copy, PartialEq, Eq, PartialOrd, Ord, Hash, Structural)]
pub struct BlockDate {
    pub epoch: u32,
    pub slot_id: u32,
}

/// The total order on dates: by epoch, then by slot identifier.
pub open spec fn spec_date_before(a: BlockDate, b: BlockDate) -> bool {
    a.epoch < b.epoch || (a.epoch == b.epoch && a.slot_id < b.slot_id)
}

impl BlockDate {
    /// Whether `self` comes strictly before `other` on the time axis.
    pub fn is_before(&self, other: &BlockDate) -> (r: bool)
        ensures
            r == spec_date_before(*self, *other),
    {
        self.epoch < other.epoch || (self.epoch == other.epoch && self.slot_id < other.slot_id)
    }
}

} // verus!
