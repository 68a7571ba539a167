//! The identity of an asset.

use vstd::prelude::*;

verus! {

/// The currency data type: the 20-byte address of a token.
#[derive(Clone, Copy, Debug, PartialEq, Eq)]
pub struct Currency {
    /// The address, most significant byte first.
    pub bytes: [u8; 20],
}

impl Currency {
    /// The currency at the given address.
    pub fn new(bytes: [u8; 20]) -> (r: Currency)
        ensures
            r.bytes == bytes,
    {
        Currency { bytes }
    }

    /// Whether both are the same currency.
    pub fn same(&self, other: &Currency) -> (r: bool)
        ensures
            r == (*self == *other),
    {
        let mut i: usize = 0;
        while i < 20
            invariant
                i <= 20,
                forall|j: int| 0 <= j < i ==> self.bytes@[j] == other.bytes@[j],
            decreases 20 - i,
        {
            if self.bytes[i] != other.bytes[i] {
                return false;
            }
            i += 1;
        }
        assert(self.bytes@ =~= other.bytes@);
        assert(self.bytes == other.bytes);
        true
    }

    /// The address of the currency.
    pub fn into_bytes(self) -> (r: [u8; 20])
        ensures
            r == self.bytes,
    {
        self.bytes
    }
}

} // verus!
