use vstd::prelude::*;
use tiny_keccak::{Hasher, Keccak};

verus! {

/// What tiny-keccak's Keccak-256 yields for a byte string.
pub uninterp spec fn keccak256_of(data: Seq<u8>) -> Seq<u8>;

/// Relies on tiny-keccak's `Keccak::v256` hasher: the 32-byte Keccak-256 digest of
/// all the bytes given to `update`.
#[verifier::external_body]
pub(crate) fn keccak256(data: &[u8]) -> (r: [u8; 32])
    ensures
        r@ == keccak256_of(data@),
{
    let mut hasher = Keccak::v256();
    hasher.update(data);
    let mut out = [0u8; 32];
    hasher.finalize(&mut out);
    out
}

} // verus!
