//! Account and contract identities.

use vstd::prelude::*;

verus! {

broadcast use vstd::array::group_array_axioms;

/// A Stellar address (account `G...` or contract `C...`), held as the 56
/// ASCII characters of its strkey encoding.
#[derive(Clone, Copy, Debug, PartialEq, Eq, Hash)]
pub struct Address {
    pub strkey: [u8; 56],
}

impl Address {
    /// Builds an address from its strkey characters.
    pub fn from_strkey(strkey: [u8; 56]) -> (r: Address)
        ensures
            r.strkey == strkey,
    {
        Address { strkey }
    }

    /// Whether two addresses denote the same identity.
    pub fn same(&self, other: &Address) -> (r: bool)
        ensures
            r == (*self == *other),
    {
        let mut i: usize = 0;
        while i < 56
            invariant
                0 <= i <= 56,
                forall|j: int| 0 <= j < i ==> self.strkey[j] == other.strkey[j],
            decreases 56 - i,
        {
            if self.strkey[i] != other.strkey[i] {
                return false;
            }
            i = i + 1;
        }
        assert(self.strkey =~= other.strkey);
        true
    }
}

} // verus!
