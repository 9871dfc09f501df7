use vstd::prelude::*;

verus! {

/// A quantity of satoshis, the smallest bitcoin denomination.
#[derive(Debug, Copy, Clone, PartialEq, Eq, Structural, Hash)]
pub struct Amount {
    sat: u64,
}

impl View for Amount {
    type V = u64;

    closed spec fn view(&self) -> u64 {
        self.sat
    }
}

impl Amount {
    /// Constructs an amount from a number of satoshis.
    pub fn from_sat(sat: u64) -> (r: Amount)
        ensures
            r@ == sat,
    {
        Amount { sat }
    }

    /// Returns the number of satoshis held.
    pub fn to_sat(self) -> (r: u64)
        ensures
            r == self@,
    {
        self.sat
    }
}

} // verus!
