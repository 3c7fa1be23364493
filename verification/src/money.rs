//! The money amount carried by a transfer.

use vstd::prelude::*;

verus! {

/// An amount of money, counted in indivisible nano units.
#[derive(Clone, Copy, PartialEq, Eq, Structural, PartialOrd, Ord, Hash, Debug, Default)]
pub struct Money {
    /// The amount in nano units.
    pub nano: u64,
}

impl Money {
    /// An amount of the given number of nano units.
    pub fn from_nano(nano: u64) -> (r: Self)
        ensures
            r.nano == nano,
    {
        Money { nano }
    }

    /// The amount in nano units.
    pub fn as_nano(&self) -> (r: u64)
        ensures
            r == self.nano,
    {
        self.nano
    }
}

} // verus!
