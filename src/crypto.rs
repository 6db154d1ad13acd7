//! Hashing and signing, done by `sp_core`.
use vstd::prelude::*;

verus! {

/// The BLAKE2b-256 digest of a byte string.
pub uninterp spec fn blake2_256_of(data: Seq<u8>) -> Seq<u8>;

#[verifier::external_type_specification]
#[verifier::external_body]
pub struct ExSr25519Pair(sp_core::sr25519::Pair);

/// Relies on `sp_core::Blake2Hasher::hash` (BLAKE2b with a 32-byte output):
/// the digest depends on the bytes alone.
#[verifier::external_body]
pub(crate) fn blake2_256(data: &Vec<u8>) -> (r: [u8; 32])
    ensures
        r@ == blake2_256_of(data@),
{
    <sp_core::Blake2Hasher as sp_core::Hasher>::hash(data.as_slice()).0
}

/// Relies on `sp_core::sr25519::Pair::public`: the 32 bytes of the key pair's
/// public key.
#[verifier::external_body]
pub(crate) fn public_key(pair: &sp_core::sr25519::Pair) -> (r: [u8; 32]) {
    sp_core::Pair::public(pair).0
}

/// Relies on `sp_core::sr25519::Pair::sign`: the 64 bytes of an sr25519
/// signature of `message`. Signing draws fresh randomness, so nothing is stated
/// of the bytes.
#[verifier::external_body]
pub(crate) fn sign(pair: &sp_core::sr25519::Pair, message: &Vec<u8>) -> (r: [u8; 64]) {
    sp_core::Pair::sign(pair, message.as_slice()).0
}

} // verus!
