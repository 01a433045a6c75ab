//! The plain values that the ledger's records and operations are made of.

use vstd::prelude::*;

verus! {

/// An account identifier.
pub type AccountId = u64;

/// An amount of value held in an account.
pub type Balance = u128;

/// A 256-bit digest, the key under which a post and its comments are stored.
pub type PostId = [u8; 32];

/// Whether two digests hold the same bytes.
pub fn hash_eq(a: &PostId, b: &PostId) -> (same: bool)
    ensures
        same == (a@ == b@),
{
    let mut i: usize = 0;
    while i < 32
        invariant
            i <= 32,
            forall|j: int| 0 <= j < i ==> a@[j] == b@[j],
        decreases 32 - i,
    {
        if a[i] != b[i] {
            return false;
        }
        i += 1;
    }
    assert(a@ =~= b@);
    true
}

} // verus!
