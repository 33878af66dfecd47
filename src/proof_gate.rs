//! The proof gate shared by both ledgers, and the one-way recipient
//! commitment that the mint ledger binds proofs to.
use vstd::prelude::*;
use crate::digest::{is_zero, is_zero_digest};

verus! {

/// Shortest proof, in bytes, that can be accepted.
pub const MIN_PROOF_LEN: usize = 32;

/// When a proof is accepted: it is long enough and none of the three public
/// inputs is the all-zero "unset" digest. No cryptographic check is made
/// beyond these.
pub open spec fn proof_accepted(
    proof: Seq<u8>,
    commitment: [u8; 32],
    nullifier: [u8; 32],
    recipient_hash: [u8; 32],
) -> bool {
    &&& proof.len() >= MIN_PROOF_LEN
    &&& !is_zero_digest(commitment)
    &&& !is_zero_digest(nullifier)
    &&& !is_zero_digest(recipient_hash)
}

/// Checks a proof against its public inputs `(commitment, nullifier,
/// recipient_hash)`. Reads nothing but its arguments.
pub fn verify_zk_proof(
    proof: &[u8],
    commitment: &[u8; 32],
    nullifier: &[u8; 32],
    recipient_hash: &[u8; 32],
) -> (r: bool)
    ensures
        r == proof_accepted(proof@, *commitment, *nullifier, *recipient_hash),
{
    if proof.len() < MIN_PROOF_LEN {
        return false;
    }
    if is_zero(commitment) || is_zero(nullifier) || is_zero(recipient_hash) {
        return false;
    }
    true
}

/// The BLAKE2b-256 digest of a byte string.
pub uninterp spec fn blake2x256_of(input: Seq<u8>) -> [u8; 32];

/// Relies on ink::env::hash_bytes with the Blake2x256 hasher: it writes the
/// 256-bit BLAKE2b digest of the input, a function of the input bytes alone.
#[verifier::external_body]
pub(crate) fn blake2x256(input: &[u8]) -> (r: [u8; 32])
    ensures
        r == blake2x256_of(input@),
{
    let mut output = <ink::env::hash::Blake2x256 as ink::env::hash::HashOutput>::Type::default();
    ink::env::hash_bytes::<ink::env::hash::Blake2x256>(input, &mut output);
    output
}

/// The recipient commitment of an account: the BLAKE2b-256 digest of its bytes.
pub fn hash_recipient(recipient: &[u8; 32]) -> (r: [u8; 32])
    ensures
        r == blake2x256_of(recipient@),
{
    blake2x256(recipient.as_slice())
}

} // verus!
