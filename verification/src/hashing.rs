//! The hash under which a name is reserved before it is revealed.

use vstd::prelude::*;
use frame_support::StorageHasher;
use crate::types::HashedVanityName;

verus! {

/// The 256-bit BLAKE2b digest of a byte string, as a sequence of 32 bytes.
pub uninterp spec fn blake2_256(data: Seq<u8>) -> Seq<u8>;

/// Hashes a name with `frame_support::Blake2_256::hash`.
///
/// Trusted: the result is the BLAKE2b-256 digest of `name`, which depends on
/// the bytes of `name` and on nothing else. Nothing is proved of the digest
/// itself.
#[verifier::external_body]
pub(crate) fn blake2_256_of(name: &[u8]) -> (hash: HashedVanityName)
    ensures
        hash@ == blake2_256(name@),
{
    frame_support::Blake2_256::hash(name)
}

} // verus!
