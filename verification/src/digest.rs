//! The Keccak-256 digest, as the chain computes it.

use vstd::prelude::*;
use crate::hash::H256;

verus! {

/// The Keccak-256 digest of a byte string.
pub uninterp spec fn keccak256_digest(bytes: Seq<u8>) -> Seq<u8>;

/// Computes the Keccak-256 digest of `bytes` with `ethers::utils::keccak256`.
///
/// Not proved: that the 32 bytes returned are the digest named by [`keccak256_digest`],
/// which is to say that the outside function returns the same bytes for the same input.
#[verifier::external_body]
pub(crate) fn keccak256(bytes: &[u8]) -> (digest: H256)
    ensures
        digest@ == keccak256_digest(bytes@),
{
    H256(ethers::utils::keccak256(bytes))
}

} // verus!
