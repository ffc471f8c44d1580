use vstd::prelude::*;

verus! {

/// A 20-byte on-chain address, the type of the resolved dapp contract
/// address. Values of it are produced by the contract registry; this crate
/// never takes an address apart, it only stores and hands one through.
#[derive(Clone, Copy, Debug, PartialEq, Eq)]
pub struct Address {
    pub bytes: [u8; 20],
}

impl Address {
    /// Builds an address from its twenty raw bytes.
    pub fn new(bytes: [u8; 20]) -> (r: Address)
        ensures
            r.bytes == bytes,
    {
        Address { bytes }
    }
}

} // verus!
