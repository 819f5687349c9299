//! Numbers as the service carries them.

use vstd::prelude::*;

verus! {

/// A finite-precision real number, held as the 64 bits of its binary
/// interchange encoding.
///
/// The service never computes with these numbers itself: it takes them from
/// the query string, binds them to a statement and writes the sum it is given
/// into a response. Two values are equal exactly when their bits are.
#[derive(Clone, Copy, Debug, PartialEq, Eq, Structural)]
pub struct Real {
    pub bits: u64,
}

impl Real {
    /// The number encoded by `bits`.
    pub fn from_bits(bits: u64) -> (r: Real)
        ensures
            r.bits == bits,
    {
        Real { bits }
    }

    /// The encoding of this number.
    pub fn to_bits(self) -> (bits: u64)
        ensures
            bits == self.bits,
    {
        self.bits
    }
}

} // verus!
