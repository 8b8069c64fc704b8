//! Fixed-width cryptographic value types carried by headers.

use vstd::prelude::*;

use crate::bytes::copy_bytes;
use crate::crypto::{blake2b256, blake2b256_of, HASH_SIZE, SIGNATURE_SIZE};

verus! {

/// Width in bytes of a VRF public key.
pub const VRF_PUBLIC_KEY_SIZE: usize = 32;

/// Width in bytes of a VRF proof.
pub const VRF_PROOF_SIZE: usize = 96;

/// A BLAKE2b-256 digest, 32 bytes wide.
#[derive(Debug, Clone, PartialEq, Eq)]
pub struct Hash {
    bytes: Vec<u8>,
}

impl View for Hash {
    type V = Seq<u8>;

    closed spec fn view(&self) -> Seq<u8> {
        self.bytes@
    }
}

impl Hash {
    /// A digest value holds exactly `HASH_SIZE` bytes.
    pub open spec fn wf(&self) -> bool {
        self@.len() == HASH_SIZE
    }

    /// The digest of `input` under the chain's hash function.
    pub fn hash_bytes(input: &[u8]) -> (r: Hash)
        ensures
            r@ == blake2b256_of(input@),
            r.wf(),
    {
        Hash { bytes: blake2b256(input) }
    }

    /// A digest value from raw bytes; rejected unless exactly
    /// `HASH_SIZE` bytes are given.
    pub fn from_bytes(bytes: &[u8]) -> (r: Option<Hash>)
        ensures
            r is Some <==> bytes@.len() == HASH_SIZE,
            r matches Some(h) ==> h@ == bytes@ && h.wf(),
    {
        if bytes.len() == HASH_SIZE {
            Some(Hash { bytes: copy_bytes(bytes) })
        } else {
            None
        }
    }

    /// A digest value from an owned buffer already known to have the
    /// right width.
    pub(crate) fn from_vec(bytes: Vec<u8>) -> (r: Hash)
        requires
            bytes@.len() == HASH_SIZE,
        ensures
            r@ == bytes@,
            r.wf(),
    {
        Hash { bytes }
    }

    /// The digest's raw bytes.
    pub fn as_bytes(&self) -> (r: &[u8])
        ensures
            r@ == self@,
    {
        self.bytes.as_slice()
    }
}

/// A signature over serialized bytes, in the signature scheme's
/// canonical 64-byte encoding.
#[derive(Debug, Clone, PartialEq, Eq)]
pub struct Signature {
    bytes: Vec<u8>,
}

impl View for Signature {
    type V = Seq<u8>;

    closed spec fn view(&self) -> Seq<u8> {
        self.bytes@
    }
}

impl Signature {
    /// A signature value holds exactly `SIGNATURE_SIZE` bytes.
    pub open spec fn wf(&self) -> bool {
        self@.len() == SIGNATURE_SIZE
    }

    /// A signature value from raw bytes; rejected unless exactly
    /// `SIGNATURE_SIZE` bytes are given.
    pub fn from_bytes(bytes: &[u8]) -> (r: Option<Signature>)
        ensures
            r is Some <==> bytes@.len() == SIGNATURE_SIZE,
            r matches Some(s) ==> s@ == bytes@ && s.wf(),
    {
        if bytes.len() == SIGNATURE_SIZE {
            Some(Signature { bytes: copy_bytes(bytes) })
        } else {
            None
        }
    }

    /// A signature value from an owned buffer already known to have
    /// the right width.
    pub(crate) fn from_vec(bytes: Vec<u8>) -> (r: Signature)
        requires
            bytes@.len() == SIGNATURE_SIZE,
        ensures
            r@ == bytes@,
            r.wf(),
    {
        Signature { bytes }
    }

    /// The signature's raw bytes.
    pub fn as_bytes(&self) -> (r: &[u8])
        ensures
            r@ == self@,
    {
        self.bytes.as_slice()
    }
}

/// A VRF public key, carried opaquely by genesis-praos proofs.
#[derive(Debug, Clone, PartialEq, Eq)]
pub struct VrfPublicKey {
    bytes: Vec<u8>,
}

impl View for VrfPublicKey {
    type V = Seq<u8>;

    closed spec fn view(&self) -> Seq<u8> {
        self.bytes@
    }
}

impl VrfPublicKey {
    /// A VRF public key holds exactly `VRF_PUBLIC_KEY_SIZE` bytes.
    pub open spec fn wf(&self) -> bool {
        self@.len() == VRF_PUBLIC_KEY_SIZE
    }

    /// A VRF public key from raw bytes; rejected unless exactly
    /// `VRF_PUBLIC_KEY_SIZE` bytes are given.
    pub fn from_bytes(bytes: &[u8]) -> (r: Option<VrfPublicKey>)
        ensures
            r is Some <==> bytes@.len() == VRF_PUBLIC_KEY_SIZE,
            r matches Some(k) ==> k@ == bytes@ && k.wf(),
    {
        if bytes.len() == VRF_PUBLIC_KEY_SIZE {
            Some(VrfPublicKey { bytes: copy_bytes(bytes) })
        } else {
            None
        }
    }

    /// A VRF public key from an owned buffer already known to have
    /// the right width.
    pub(crate) fn from_vec(bytes: Vec<u8>) -> (r: VrfPublicKey)
        requires
            bytes@.len() == VRF_PUBLIC_KEY_SIZE,
        ensures
            r@ == bytes@,
            r.wf(),
    {
        VrfPublicKey { bytes }
    }

    /// The key's raw bytes.
    pub fn as_bytes(&self) -> (r: &[u8])
        ensures
            r@ == self@,
    {
        self.bytes.as_slice()
    }
}

/// A VRF proof, carried opaquely by genesis-praos proofs.
#[derive(Debug, Clone, PartialEq, Eq)]
pub struct VrfProof {
    bytes: Vec<u8>,
}

impl View for VrfProof {
    type V = Seq<u8>;

    closed spec fn view(&self) -> Seq<u8> {
        self.bytes@
    }
}

impl VrfProof {
    /// A VRF proof holds exactly `VRF_PROOF_SIZE` bytes.
    pub open spec fn wf(&self) -> bool {
        self@.len() == VRF_PROOF_SIZE
    }

    /// A VRF proof from raw bytes; rejected unless exactly
    /// `VRF_PROOF_SIZE` bytes are given.
    pub fn from_bytes(bytes: &[u8]) -> (r: Option<VrfProof>)
        ensures
            r is Some <==> bytes@.len() == VRF_PROOF_SIZE,
            r matches Some(p) ==> p@ == bytes@ && p.wf(),
    {
        if bytes.len() == VRF_PROOF_SIZE {
            Some(VrfProof { bytes: copy_bytes(bytes) })
        } else {
            None
        }
    }

    /// A VRF proof from an owned buffer already known to have the
    /// right width.
    pub(crate) fn from_vec(bytes: Vec<u8>) -> (r: VrfProof)
        requires
            bytes@.len() == VRF_PROOF_SIZE,
        ensures
            r@ == bytes@,
            r.wf(),
    {
        VrfProof { bytes }
    }

    /// The proof's raw bytes.
    pub fn as_bytes(&self) -> (r: &[u8])
        ensures
            r@ == self@,
    {
        self.bytes.as_slice()
    }
}

} // verus!
