//! Cryptographic primitives used by the header subsystem.
//!
//! The digest and the signature check are supplied by the `cryptoxide`
//! crate and are used as black boxes: each result is given a name that
//! the contracts of the rest of the crate speak of.

use vstd::prelude::*;

verus! {

/// Width in bytes of a BLAKE2b-256 digest.
pub const HASH_SIZE: usize = 32;

/// Width in bytes of an Ed25519 public key.
pub const PUBLIC_KEY_SIZE: usize = 32;

/// Width in bytes of an Ed25519 signature.
pub const SIGNATURE_SIZE: usize = 64;

/// The BLAKE2b-256 digest of a byte string; it depends on the input
/// bytes alone.
pub uninterp spec fn blake2b256_of(input: Seq<u8>) -> Seq<u8>;

/// Whether `sig` is an Ed25519 signature over `msg` that checks out
/// under the public key `pk`; the check depends on its three inputs
/// alone.
pub uninterp spec fn ed25519_verifies(msg: Seq<u8>, pk: Seq<u8>, sig: Seq<u8>) -> bool;

/// Relies on `cryptoxide::hashing::blake2b`: the unkeyed BLAKE2b-256
/// digest of `input`, 32 bytes wide.
#[verifier::external_body]
pub(crate) fn blake2b256(input: &[u8]) -> (r: Vec<u8>)
    ensures
        r@ == blake2b256_of(input@),
        r@.len() == HASH_SIZE,
{
    let context = cryptoxide::hashing::blake2b::Blake2b::<256>::new();
    let out = context.update(input).finalize();
    out.to_vec()
}

/// Relies on `cryptoxide::ed25519::verify`: checks an Ed25519
/// signature over `msg` under the public key `pk`.
#[verifier::external_body]
pub(crate) fn ed25519_verify(msg: &[u8], pk: &[u8], sig: &[u8]) -> (r: bool)
    requires
        pk@.len() == PUBLIC_KEY_SIZE,
        sig@.len() == SIGNATURE_SIZE,
    ensures
        r == ed25519_verifies(msg@, pk@, sig@),
{
    let mut pk_fixed = [0u8; 32];
    pk_fixed.copy_from_slice(pk);
    let mut sig_fixed = [0u8; 64];
    sig_fixed.copy_from_slice(sig);
    cryptoxide::ed25519::verify(msg, &pk_fixed, &sig_fixed)
}

} // verus!
