//! 32-byte digests and chain pointers.

use vstd::prelude::*;

verus! {

/// A 32-byte digest: a block hash or the id of a settlement-layer transaction.
pub type H256 = [u8; 32];

/// A position on the chain: a block number and the hash of the block at that number.
#[derive(Clone, Copy, Debug, PartialEq, Eq)]
pub struct ChainPointer {
    pub block_number: u64,
    pub block_hash: H256,
}

/// Compares two digests byte by byte.
pub fn hash_eq(a: &H256, b: &H256) -> (same: bool)
    ensures
        same == (*a == *b),
{
    let mut i: usize = 0;
    while i < 32
        invariant
            i <= 32,
            forall|j: int| 0 <= j < i ==> a@[j] == b@[j],
        decreases 32 - i,
    {
        if a[i] != b[i] {
            return false;
        }
        i = i + 1;
    }
    assert(*a =~= *b);
    true
}

impl ChainPointer {
    /// Whether two pointers name the same block: equal numbers and equal hashes.
    pub fn same_as(&self, other: &ChainPointer) -> (same: bool)
        ensures
            same == (*self == *other),
    {
        self.block_number == other.block_number && hash_eq(&self.block_hash, &other.block_hash)
    }
}

} // verus!
