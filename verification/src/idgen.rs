//! Server-side user-id derivation: a fresh id is the digest of a random
//! seed that the host supplies, rendered as text.

use sha2::Digest;
use vstd::prelude::*;

verus! {

/// The id derived from a seed: a fixed function of the seed bytes alone.
pub uninterp spec fn user_id_of(seed: Seq<u8>) -> Seq<char>;

/// Relies on sha2::Sha256::digest: the SHA-256 digest of a byte string
/// depends on its bytes alone; the id is its lowercase-hex rendering.
#[verifier::external_body]
pub(crate) fn hash_seed(seed: &Vec<u8>) -> (r: String)
    ensures
        r@ == user_id_of(seed@),
{
    format!("{:x}", sha2::Sha256::digest(seed.as_slice()))
}

} // verus!
