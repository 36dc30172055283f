//! Ring ids are derived by hashing byte strings with SeaHash, a stable,
//! portable, non-cryptographic hash. The digest itself is opaque to the
//! contracts: `seahash_of` names it, and everything downstream speaks of
//! that name.

use vstd::prelude::*;

verus! {

/// The SeaHash digest of a byte string. A function of the bytes alone: the
/// hash is portable and stable across processes and machines.
pub uninterp spec fn seahash_of(bytes: Seq<u8>) -> u64;

/// Relies on seahash::hash: a deterministic, portable digest of the buffer's
/// bytes, with no other inputs.
#[verifier::external_body]
pub(crate) fn hash_bytes(bytes: &[u8]) -> (r: u64)
    ensures
        r == seahash_of(bytes@),
{
    seahash::hash(bytes)
}

} // verus!
