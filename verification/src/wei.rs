//! 256-bit unsigned amounts of the chain's smallest value unit (wei).

use vstd::prelude::*;

verus! {

/// An unsigned 256-bit amount, held as four 64-bit limbs, least significant
/// first.
#[derive(Clone, Copy, PartialEq, Eq, Structural, Debug)]
pub struct Wei {
    pub limb0: u64,
    pub limb1: u64,
    pub limb2: u64,
    pub limb3: u64,
}

impl Wei {
    /// The mathematical value held.
    pub open spec fn as_nat(self) -> nat {
        self.limb0 as nat + self.limb1 as nat * 0x1_0000_0000_0000_0000
            + self.limb2 as nat * 0x1_0000_0000_0000_0000_0000_0000_0000_0000
            + self.limb3 as nat
            * 0x1_0000_0000_0000_0000_0000_0000_0000_0000_0000_0000_0000_0000
    }

    /// Builds an amount from its four limbs, least significant first.
    pub fn from_limbs(limb0: u64, limb1: u64, limb2: u64, limb3: u64) -> (r: Wei)
        ensures
            r == (Wei { limb0, limb1, limb2, limb3 }),
    {
        Wei { limb0, limb1, limb2, limb3 }
    }

    /// Builds a small amount.
    pub fn from_u64(v: u64) -> (r: Wei)
        ensures
            r.as_nat() == v,
    {
        Wei { limb0: v, limb1: 0, limb2: 0, limb3: 0 }
    }

    /// The zero amount.
    pub fn zero() -> (r: Wei)
        ensures
            r.as_nat() == 0,
    {
        Wei::from_u64(0)
    }

    /// Whether this amount is zero.
    pub fn is_zero(&self) -> (r: bool)
        ensures
            r == (self.as_nat() == 0),
    {
        self.limb0 == 0 && self.limb1 == 0 && self.limb2 == 0 && self.limb3 == 0
    }

    /// Whether this amount is strictly below `other`.
    pub fn lt(&self, other: &Wei) -> (r: bool)
        ensures
            r == (self.as_nat() < other.as_nat()),
    {
        if self.limb3 != other.limb3 {
            self.limb3 < other.limb3
        } else if self.limb2 != other.limb2 {
            self.limb2 < other.limb2
        } else if self.limb1 != other.limb1 {
            self.limb1 < other.limb1
        } else {
            self.limb0 < other.limb0
        }
    }
}

} // verus!
