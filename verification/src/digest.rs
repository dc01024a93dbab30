//! The SHA-256 digest, computed by the `sha2` crate.

use sha2::Digest;
use sha2::Sha256;
use vstd::prelude::*;

verus! {

/// Length in bytes of a SHA-256 digest.
pub const DIGEST_LEN: usize = 32;

/// The SHA-256 digest of `data`, as the `sha2` crate computes it.
pub uninterp spec fn sha256(data: Seq<u8>) -> Seq<u8>;

/// Calls `sha2::Sha256::digest` (the `Digest::digest` method of the `digest`
/// crate) on `data` and hands its output, an array of 32 bytes, on as a plain
/// array.
///
/// Trusted: the result is the value that [`sha256`] names.
#[verifier::external_body]
pub(crate) fn sha256_digest(data: &[u8]) -> (out: [u8; DIGEST_LEN])
    ensures
        out@ == sha256(data@),
{
    Sha256::digest(data).into()
}

} // verus!
