use vstd::prelude::*;
use sha2::Digest;

verus! {

/// The SHA-256 digest of a byte string.
pub uninterp spec fn sha256_of(data: Seq<u8>) -> Seq<u8>;

/// The 256-bit BLAKE2b digest of a byte string.
pub uninterp spec fn blake2_256_of(data: Seq<u8>) -> Seq<u8>;

/// Relies on sha2's `Sha256` (new, update twice, finalize): the 32-byte
/// digest of `first` followed by `second`.
#[verifier::external_body]
pub(crate) fn sha256_concat(first: &[u8], second: &[u8]) -> (r: Vec<u8>)
    ensures
        r@ == sha256_of(first@ + second@),
        r@.len() == 32,
{
    let mut hasher = sha2::Sha256::new();
    hasher.update(first);
    hasher.update(second);
    hasher.finalize().to_vec()
}

/// Relies on sp_crypto_hashing::blake2_256: the 32-byte BLAKE2b digest.
#[verifier::external_body]
pub(crate) fn blake2_256(data: &[u8]) -> (r: Vec<u8>)
    ensures
        r@ == blake2_256_of(data@),
        r@.len() == 32,
{
    sp_crypto_hashing::blake2_256(data).to_vec()
}

} // verus!
