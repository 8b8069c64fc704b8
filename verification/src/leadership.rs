//! Identity of a block producer.

use vstd::prelude::*;

use crate::bytes::copy_bytes;
use crate::crypto::PUBLIC_KEY_SIZE;

verus! {

/// The identity of a block's claimed producer: wraps the producer's
/// public key in its canonical 32-byte encoding.
#[derive(Debug, Clone, PartialEq, Eq)]
pub struct LeaderId {
    key: Vec<u8>,
}

impl View for LeaderId {
    type V = Seq<u8>;

    closed spec fn view(&self) -> Seq<u8> {
        self.key@
    }
}

impl LeaderId {
    /// A leader identity holds exactly `PUBLIC_KEY_SIZE` bytes.
    pub open spec fn wf(&self) -> bool {
        self@.len() == PUBLIC_KEY_SIZE
    }

    /// A leader identity from a raw public key; rejected unless
    /// exactly `PUBLIC_KEY_SIZE` bytes are given.
    pub fn from_bytes(bytes: &[u8]) -> (r: Option<LeaderId>)
        ensures
            r is Some <==> bytes@.len() == PUBLIC_KEY_SIZE,
            r matches Some(l) ==> l@ == bytes@ && l.wf(),
    {
        if bytes.len() == PUBLIC_KEY_SIZE {
            Some(LeaderId { key: copy_bytes(bytes) })
        } else {
            None
        }
    }

    /// A leader identity from an owned buffer already known to have
    /// the right width.
    pub(crate) fn from_vec(key: Vec<u8>) -> (r: LeaderId)
        requires
            key@.len() == PUBLIC_KEY_SIZE,
        ensures
            r@ == key@,
            r.wf(),
    {
        LeaderId { key }
    }

    /// The wrapped public key's raw bytes.
    pub fn as_bytes(&self) -> (r: &[u8])
        ensures
            r@ == self@,
    {
        self.key.as_slice()
    }
}

} // verus!
