//! SHA-256, as computed by the `sha2` crate.
use sha2::Digest;
use vstd::prelude::*;

verus! {

/// A 256-bit seed.
pub type Seed = [u8; 32];

/// The SHA-256 digest of `data`.
pub uninterp spec fn sha256_digest(data: Seq<u8>) -> Seq<u8>;

/// Hashes `data` with `sha2::Sha256::digest`.
///
/// Trusted: the result is taken to be the SHA-256 digest of exactly the bytes
/// of `data`, a function of those bytes alone. That it has 32 bytes is the
/// result's type.
#[verifier::external_body]
pub(crate) fn sha256(data: &[u8]) -> (out: Seed)
    ensures
        out@ == sha256_digest(data@),
{
    sha2::Sha256::digest(data).into()
}

} // verus!
