//! Fixed-size 32-byte digests and account identities.
use vstd::prelude::*;

verus! {

broadcast use vstd::array::group_array_axioms;

/// A 32-byte digest: commitment hashes, nullifiers, recipient commitments.
pub type Digest = [u8; 32];

/// An account identity, held as its 32 raw bytes.
pub type AccountId = [u8; 32];

/// The all-zero digest, which stands for "unset".
pub open spec fn is_zero_digest(d: [u8; 32]) -> bool {
    forall|i: int| 0 <= i < 32 ==> #[trigger] d[i] == 0u8
}

/// Byte-wise equality of two digests.
pub fn digest_eq(a: &[u8; 32], b: &[u8; 32]) -> (r: bool)
    ensures
        r == (*a == *b),
{
    let mut i: usize = 0;
    while i < 32
        invariant
            0 <= i <= 32,
            forall|j: int| 0 <= j < i ==> a[j] == b[j],
        decreases 32 - i,
    {
        if a[i] != b[i] {
            return false;
        }
        i = i + 1;
    }
    assert(*a =~= *b);
    true
}

/// Whether every byte of the digest is zero.
pub fn is_zero(d: &[u8; 32]) -> (r: bool)
    ensures
        r == is_zero_digest(*d),
{
    let mut i: usize = 0;
    while i < 32
        invariant
            0 <= i <= 32,
            forall|j: int| 0 <= j < i ==> d[j] == 0u8,
        decreases 32 - i,
    {
        if d[i] != 0 {
            return false;
        }
        i = i + 1;
    }
    true
}

} // verus!
