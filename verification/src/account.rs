//! The ephemeral view of the two participating accounts.
//!
//! The hosting runtime owns the real account records; one invocation of the
//! processor only reads an address and a spendable balance from each, so
//! that is all the model holds.

use vstd::prelude::*;

verus! {

/// A raw account address, as the host presents it: an opaque byte string.
#[derive(Debug)]
pub struct Address {
    /// The address bytes, in host order.
    pub bytes: Vec<u8>,
}

impl View for Address {
    type V = Seq<u8>;

    open spec fn view(&self) -> Seq<u8> {
        self.bytes@
    }
}

impl Address {
    /// Byte-for-byte equality of two addresses.
    pub fn equals(&self, other: &Address) -> (r: bool)
        ensures
            r == (self@ == other@),
    {
        if self.bytes.len() != other.bytes.len() {
            assert(self@.len() != other@.len());
            return false;
        }
        let n: usize = self.bytes.len();
        let mut i: usize = 0;
        while i < n
            invariant
                n == self.bytes@.len(),
                n == other.bytes@.len(),
                i <= n,
                forall|j: int| 0 <= j < i ==> self.bytes@[j] == other.bytes@[j],
            decreases n - i,
        {
            if self.bytes[i] != other.bytes[i] {
                return false;
            }
            i = i + 1;
        }
        proof {
            assert(self@ =~= other@);
        }
        true
    }
}

/// What one invocation sees of a participating account: who owns it and
/// how much it can spend.
#[derive(Debug)]
pub struct Account {
    /// The address of the program that owns the account.
    pub owner: Address,
    /// The spendable balance, in the host's smallest currency unit.
    pub balance: u64,
}

} // verus!
