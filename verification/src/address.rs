//! 20-byte account / contract addresses.

use vstd::prelude::*;

verus! {

/// An EVM address. Its 160 bits are held big-endian in three words: the top
/// 32 bits in `hi`, the next 64 in `mid` and the low 64 in `lo`.
#[derive(Clone, Copy, Debug, PartialEq, Eq, Structural)]
pub struct Address {
    pub hi: u32,
    pub mid: u64,
    pub lo: u64,
}

impl Address {
    /// The zero address.
    pub fn zero() -> (r: Address)
        ensures
            r.is_zero_spec(),
    {
        Address { hi: 0, mid: 0, lo: 0 }
    }

    pub open spec fn is_zero_spec(self) -> bool {
        self.hi == 0 && self.mid == 0 && self.lo == 0
    }

    /// Whether this is the zero address.
    pub fn is_zero(&self) -> (r: bool)
        ensures
            r == self.is_zero_spec(),
    {
        self.hi == 0 && self.mid == 0 && self.lo == 0
    }
}

} // verus!
