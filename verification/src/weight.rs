use vstd::prelude::*;

verus! {

/// A transaction size in weight units; 1 virtual byte is 4 weight units.
#[derive(Debug, Copy, Clone, PartialEq, Eq, Structural, Hash)]
pub struct Weight {
    wu: u64,
}

impl View for Weight {
    type V = u64;

    closed spec fn view(&self) -> u64 {
        self.wu
    }
}

impl Weight {
    /// The largest representable weight.
    pub fn max() -> (r: Weight)
        ensures
            r@ == u64::MAX,
    {
        Weight { wu: u64::MAX }
    }

    /// Constructs a weight from raw weight units.
    pub fn from_wu(wu: u64) -> (r: Weight)
        ensures
            r@ == wu,
    {
        Weight { wu }
    }

    /// Constructs a weight from virtual bytes, at 4 weight units each.
    ///
    /// Returns `None` when the count of weight units does not fit in 64 bits.
    pub fn from_vb(vb: u64) -> (r: Option<Weight>)
        ensures
            match r {
                Some(w) => vb * 4 <= u64::MAX && w@ == vb * 4,
                None => vb * 4 > u64::MAX,
            },
    {
        match vb.checked_mul(4) {
            Some(wu) => Some(Weight { wu }),
            None => None,
        }
    }

    /// Returns the raw number of weight units.
    pub fn to_wu(self) -> (r: u64)
        ensures
            r == self@,
    {
        self.wu
    }
}

} // verus!
