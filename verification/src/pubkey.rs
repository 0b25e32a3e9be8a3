//! Account addresses.

use vstd::prelude::*;

verus! {

/// The 32-byte address of an account.
#[derive(Clone, Copy, PartialEq, Eq, Debug, Hash)]
pub struct Pubkey {
    pub bytes: [u8; 32],
}

impl View for Pubkey {
    type V = Seq<u8>;

    open spec fn view(&self) -> Seq<u8> {
        self.bytes@
    }
}

impl Pubkey {
    /// Whether two addresses are the same.
    pub fn same_as(&self, other: &Pubkey) -> (same: bool)
        ensures
            same == (*self == *other),
            same == (self@ == other@),
    {
        let mut k: usize = 0;
        while k < 32
            invariant
                k <= 32,
                forall|m: int| 0 <= m < k ==> self.bytes@[m] == other.bytes@[m],
            decreases 32 - k,
        {
            if self.bytes[k] != other.bytes[k] {
                return false;
            }
            k += 1;
        }
        assert(self.bytes =~= other.bytes);
        true
    }
}

} // verus!
