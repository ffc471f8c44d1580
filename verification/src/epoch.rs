use vstd::prelude::*;

verus! {

/// A 256-bit unsigned integer, stored as four 64-bit limbs, least
/// significant first. The chain's epoch counter has this width, while the
/// epoch a configuration supplies arrives as a `u64`; resolution widens it.
#[derive(Clone, Copy, Debug, PartialEq, Eq)]
pub struct U256 {
    pub limbs: [u64; 4],
}

impl U256 {
    /// The mathematical value of the four limbs.
    pub open spec fn as_nat(self) -> nat {
        (self.limbs[0]
            + self.limbs[1] * 0x1_0000_0000_0000_0000
            + self.limbs[2] * 0x1_0000_0000_0000_0000_0000_0000_0000_0000
            + self.limbs[3]
                * 0x1_0000_0000_0000_0000_0000_0000_0000_0000_0000_0000_0000_0000) as nat
    }

    /// Widens a 64-bit value. The widening is lossless: the result denotes
    /// exactly the input value.
    pub fn from_u64(value: u64) -> (r: U256)
        ensures
            r.as_nat() == value as nat,
    {
        U256 { limbs: [value, 0, 0, 0] }
    }
}

} // verus!
