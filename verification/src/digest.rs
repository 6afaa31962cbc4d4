//! SHA-256, computed by `ring`.

use vstd::prelude::*;

verus! {

/// The SHA-256 digest of `data`.
pub uninterp spec fn sha256_digest(data: Seq<u8>) -> Seq<u8>;

/// Calls `ring::digest::digest` with `ring::digest::SHA256` and copies the
/// digest out. Claimed of it: the result is the SHA-256 digest of `data`
/// (named, not written out) and is 32 bytes long, as `SHA256`'s output length
/// in ring's source says. ring panics on inputs of 2^61 bytes or more, which
/// `requires` leaves out.
#[verifier::external_body]
pub(crate) fn sha256(data: &[u8]) -> (res: Vec<u8>)
    requires
        data@.len() < 0x2000_0000_0000_0000,
    ensures
        res@ == sha256_digest(data@),
        res@.len() == 32,
{
    ring::digest::digest(&ring::digest::SHA256, data).as_ref().to_vec()
}

} // verus!
