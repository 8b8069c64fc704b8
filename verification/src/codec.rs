//! Canonical byte representation of a header.
//!
//! The wire layout is, in order: a 2-byte big-endian size prefix
//! holding the number of bytes that follow it; the `Common` fields
//! (2-byte version, 4-byte content size, 4-byte epoch, 4-byte slot,
//! then the two raw digests); and the proof section, whose layout is
//! chosen by the block version.

use vstd::prelude::*;

use crate::bytes::{
    lemma_u16_be_round_trip, lemma_u32_be_round_trip, push_bytes, push_u16_be, push_u32_be,
    read_bytes, read_u16_be, read_u32_be, spec_u16_be, spec_u16_from_be, spec_u32_be,
    spec_u32_from_be,
};
use crate::crypto::{blake2b256_of, HASH_SIZE, PUBLIC_KEY_SIZE, SIGNATURE_SIZE};
use crate::date::BlockDate;
use crate::header::{
    spec_header_wf, spec_proof_wf, BftProof, BlockVersion, Common,
    CommonView, GenesisPraosProof, Header, HeaderView, Proof, ProofView,
    BLOCK_VERSION_CONSENSUS_BFT, BLOCK_VERSION_CONSENSUS_GENESIS_PRAOS,
    BLOCK_VERSION_CONSENSUS_NONE,
};
use crate::key::{Signature, VrfProof, VrfPublicKey, VRF_PROOF_SIZE, VRF_PUBLIC_KEY_SIZE};
use crate::leadership::LeaderId;

verus! {

/// Width of the size prefix that frames an encoded header.
pub const SIZE_PREFIX_LEN: usize = 2;

/// Width of an encoded `Common`: the fixed integer fields and the
/// two digests.
pub const COMMON_ENCODED_LEN: usize = 2 + 4 + 4 + 4 + HASH_SIZE + HASH_SIZE;

/// Width of an encoded BFT proof section.
pub const BFT_PROOF_ENCODED_LEN: usize = PUBLIC_KEY_SIZE + SIGNATURE_SIZE;

/// Width of an encoded genesis-praos proof section.
pub const GENESIS_PRAOS_PROOF_ENCODED_LEN: usize = VRF_PUBLIC_KEY_SIZE + VRF_PROOF_SIZE
    + PUBLIC_KEY_SIZE + SIGNATURE_SIZE;

/// A decoding failure. Failures are surfaced immediately to the
/// caller with no local recovery: a header is either fully decoded
/// or not decoded at all.
#[derive(Debug, Clone, Copy, PartialEq, Eq, Structural)]
pub enum CodecError {
    /// The byte source ends before a fixed-width field is fully
    /// read.
    Truncated,
    /// The decoded block version is not one of the reserved values;
    /// the decoder does not attempt a best-effort parse.
    UnsupportedBlockVersion(u16),
}

/// The encoded bytes of a `Common` value.
pub open spec fn spec_encode_common(c: CommonView) -> Seq<u8> {
    spec_u16_be(c.version) + spec_u32_be(c.content_size) + spec_u32_be(c.date.epoch)
        + spec_u32_be(c.date.slot_id) + c.content_hash + c.parent_hash
}

/// The encoded bytes of a proof section.
pub open spec fn spec_encode_proof(p: ProofView) -> Seq<u8> {
    match p {
        ProofView::Absent => Seq::<u8>::empty(),
        ProofView::Bft { leader, signature } => leader + signature,
        ProofView::GenesisPraos { vrf_public_key, vrf_proof, kes_public_key, kes_proof } => {
            vrf_public_key + vrf_proof + kes_public_key + kes_proof
        },
    }
}

/// The width of a well-formed proof section.
pub open spec fn spec_proof_encoded_len(p: ProofView) -> int {
    match p {
        ProofView::Absent => 0,
        ProofView::Bft { .. } => BFT_PROOF_ENCODED_LEN as int,
        ProofView::GenesisPraos { .. } => GENESIS_PRAOS_PROOF_ENCODED_LEN as int,
    }
}

/// Everything that follows the size prefix: the `Common` bytes, then
/// the proof section.
pub open spec fn spec_encode_header_payload(h: HeaderView) -> Seq<u8> {
    spec_encode_common(h.common) + spec_encode_proof(h.proof)
}

/// The full encoded header: the size prefix holds the number of
/// bytes that follow it.
pub open spec fn spec_encode_header(h: HeaderView) -> Seq<u8> {
    spec_u16_be(spec_encode_header_payload(h).len() as u16) + spec_encode_header_payload(h)
}

/// The content-addressed identity of a header: the digest of its
/// encoded bytes with the size prefix stripped.
pub open spec fn spec_header_id(h: HeaderView) -> Seq<u8> {
    blake2b256_of(spec_encode_header(h).skip(2))
}

/// The header decoded from the front of `b`, or the failure that
/// stops the decoder. The size prefix is consumed but not validated
/// against the remaining length: framing is the caller's concern,
/// and bytes past the decoded header are ignored.
pub open spec fn spec_decode_header(b: Seq<u8>) -> Result<HeaderView, CodecError> {
    if b.len() < SIZE_PREFIX_LEN + COMMON_ENCODED_LEN {
        Result::Err(CodecError::Truncated)
    } else {
        let version = spec_u16_from_be(b[2], b[3]);
        let common = CommonView {
            version,
            date: BlockDate {
                epoch: spec_u32_from_be(b[8], b[9], b[10], b[11]),
                slot_id: spec_u32_from_be(b[12], b[13], b[14], b[15]),
            },
            content_size: spec_u32_from_be(b[4], b[5], b[6], b[7]),
            content_hash: b.subrange(16, 48),
            parent_hash: b.subrange(48, 80),
        };
        if version == BLOCK_VERSION_CONSENSUS_NONE {
            Result::Ok(HeaderView { common, proof: ProofView::Absent })
        } else if version == BLOCK_VERSION_CONSENSUS_BFT {
            if b.len() < SIZE_PREFIX_LEN + COMMON_ENCODED_LEN + BFT_PROOF_ENCODED_LEN {
                Result::Err(CodecError::Truncated)
            } else {
                Result::Ok(
                    HeaderView {
                        common,
                        proof: ProofView::Bft {
                            leader: b.subrange(80, 112),
                            signature: b.subrange(112, 176),
                        },
                    },
                )
            }
        } else if version == BLOCK_VERSION_CONSENSUS_GENESIS_PRAOS {
            if b.len() < SIZE_PREFIX_LEN + COMMON_ENCODED_LEN
                + GENESIS_PRAOS_PROOF_ENCODED_LEN {
                Result::Err(CodecError::Truncated)
            } else {
                Result::Ok(
                    HeaderView {
                        common,
                        proof: ProofView::GenesisPraos {
                            vrf_public_key: b.subrange(80, 112),
                            vrf_proof: b.subrange(112, 208),
                            kes_public_key: b.subrange(208, 240),
                            kes_proof: b.subrange(240, 304),
                        },
                    },
                )
            }
        } else {
            Result::Err(CodecError::UnsupportedBlockVersion(version))
        }
    }
}

/// A well-formed proof section encodes to its fixed width.
pub proof fn lemma_encoded_proof_len(p: ProofView)
    requires
        spec_proof_wf(p),
    ensures
        spec_encode_proof(p).len() == spec_proof_encoded_len(p),
{
}

/// A well-formed header encodes to the size prefix plus a payload of
/// the `Common` width plus the proof section's width; the payload
/// fits the 16-bit size prefix.
pub proof fn lemma_encoded_header_len(h: HeaderView)
    requires
        spec_header_wf(h),
    ensures
        spec_encode_header_payload(h).len() == COMMON_ENCODED_LEN + spec_proof_encoded_len(
            h.proof,
        ),
        spec_encode_header(h).len() == SIZE_PREFIX_LEN + COMMON_ENCODED_LEN
            + spec_proof_encoded_len(h.proof),
        0 <= spec_proof_encoded_len(h.proof) <= GENESIS_PRAOS_PROOF_ENCODED_LEN,
        spec_encode_header_payload(h).len() <= 0xffff,
{
    lemma_encoded_proof_len(h.proof);
}

/// Append the encoded `Common` fields to `out`.
fn write_common(out: &mut Vec<u8>, c: &Common)
    ensures
        final(out)@ == old(out)@ + spec_encode_common(c@),
{
    push_u16_be(out, c.block_version.0);
    push_u32_be(out, c.block_content_size);
    push_u32_be(out, c.block_date.epoch);
    push_u32_be(out, c.block_date.slot_id);
    push_bytes(out, c.block_content_hash.as_bytes());
    push_bytes(out, c.block_parent_hash.as_bytes());
    proof {
        assert(out@ =~= old(out)@ + spec_encode_common(c@));
    }
}

/// Append the encoded proof section to `out`.
fn write_proof(out: &mut Vec<u8>, p: &Proof)
    ensures
        final(out)@ == old(out)@ + spec_encode_proof(p@),
{
    match p {
        Proof::Absent => {
            proof {
                assert(out@ =~= old(out)@ + spec_encode_proof(p@));
            }
        },
        Proof::Bft(bft) => {
            push_bytes(out, bft.leader_id.as_bytes());
            push_bytes(out, bft.signature.as_bytes());
            proof {
                assert(out@ =~= old(out)@ + spec_encode_proof(p@));
            }
        },
        Proof::GenesisPraos(gp) => {
            push_bytes(out, gp.vrf_public_key.as_bytes());
            push_bytes(out, gp.vrf_proof.as_bytes());
            push_bytes(out, gp.kes_public_key.as_bytes());
            push_bytes(out, gp.kes_proof.as_bytes());
            proof {
                assert(out@ =~= old(out)@ + spec_encode_proof(p@));
            }
        },
    }
}

impl Common {
    /// The encoded bytes of this value: exactly the byte range that
    /// a proof signs.
    pub fn serialize_as_vec(&self) -> (r: Vec<u8>)
        ensures
            r@ == spec_encode_common(self@),
    {
        let mut out: Vec<u8> = Vec::new();
        write_common(&mut out, self);
        proof {
            assert(out@ =~= spec_encode_common(self@));
        }
        out
    }
}

impl Header {
    /// The canonical encoded bytes of this header, starting with the
    /// 2-byte size prefix that holds the number of bytes after it.
    pub fn serialize_as_vec(&self) -> (r: Vec<u8>)
        requires
            self.wf(),
        ensures
            r@ == spec_encode_header(self@),
    {
        let mut payload: Vec<u8> = Vec::new();
        write_common(&mut payload, &self.common);
        write_proof(&mut payload, &self.proof);
        proof {
            crate::header::lemma_header_view(self);
            assert(payload@ =~= spec_encode_header_payload(self@));
            lemma_encoded_header_len(self@);
        }
        let size = payload.len() as u16;
        let mut out: Vec<u8> = Vec::new();
        push_u16_be(&mut out, size);
        out.append(&mut payload);
        proof {
            assert(out@ =~= spec_encode_header(self@));
        }
        out
    }

    /// Decode a header from the front of `bytes`. The proof section
    /// is dispatched on the decoded block version; an unreserved
    /// version value fails rather than guessing a layout. Bytes past
    /// the decoded header are ignored.
    pub fn deserialize(bytes: &[u8]) -> (r: Result<Header, CodecError>)
        ensures
            match spec_decode_header(bytes@) {
                Result::Ok(hv) => r matches Ok(h) && h@ == hv && h.wf(),
                Result::Err(e) => r matches Err(e2) && e2 == e,
            },
    {
        let n = bytes.len();
        if n < SIZE_PREFIX_LEN + COMMON_ENCODED_LEN {
            return Err(CodecError::Truncated);
        }
        let version = read_u16_be(bytes, 2);
        let content_size = read_u32_be(bytes, 4);
        let epoch = read_u32_be(bytes, 8);
        let slot_id = read_u32_be(bytes, 12);
        let content_hash = crate::key::Hash::from_vec(read_bytes(bytes, 16, HASH_SIZE));
        let parent_hash = crate::key::Hash::from_vec(read_bytes(bytes, 48, HASH_SIZE));
        let common = Common {
            block_version: BlockVersion::new(version),
            block_date: BlockDate { epoch, slot_id },
            block_content_size: content_size,
            block_content_hash: content_hash,
            block_parent_hash: parent_hash,
        };
        if version == BLOCK_VERSION_CONSENSUS_NONE {
            let h = Header { common, proof: Proof::Absent };
            proof {
                crate::header::lemma_header_view(&h);
                assert(h@ =~= spec_decode_header(bytes@)->Ok_0);
            }
            Ok(h)
        } else if version == BLOCK_VERSION_CONSENSUS_BFT {
            if n < SIZE_PREFIX_LEN + COMMON_ENCODED_LEN + BFT_PROOF_ENCODED_LEN {
                return Err(CodecError::Truncated);
            }
            let leader_id = LeaderId::from_vec(read_bytes(bytes, 80, PUBLIC_KEY_SIZE));
            let signature = Signature::from_vec(read_bytes(bytes, 112, SIGNATURE_SIZE));
            let h = Header { common, proof: Proof::Bft(BftProof { leader_id, signature }) };
            proof {
                crate::header::lemma_header_view(&h);
                assert(h@ =~= spec_decode_header(bytes@)->Ok_0);
            }
            Ok(h)
        } else if version == BLOCK_VERSION_CONSENSUS_GENESIS_PRAOS {
            if n < SIZE_PREFIX_LEN + COMMON_ENCODED_LEN + GENESIS_PRAOS_PROOF_ENCODED_LEN {
                return Err(CodecError::Truncated);
            }
            let vrf_public_key = VrfPublicKey::from_vec(read_bytes(bytes, 80, VRF_PUBLIC_KEY_SIZE));
            let vrf_proof = VrfProof::from_vec(read_bytes(bytes, 112, VRF_PROOF_SIZE));
            let kes_public_key = LeaderId::from_vec(read_bytes(bytes, 208, PUBLIC_KEY_SIZE));
            let kes_proof = Signature::from_vec(read_bytes(bytes, 240, SIGNATURE_SIZE));
            let h = Header {
                common,
                proof: Proof::GenesisPraos(
                    GenesisPraosProof { vrf_public_key, vrf_proof, kes_public_key, kes_proof },
                ),
            };
            proof {
                crate::header::lemma_header_view(&h);
                assert(h@ =~= spec_decode_header(bytes@)->Ok_0);
            }
            Ok(h)
        } else {
            Err(CodecError::UnsupportedBlockVersion(version))
        }
    }
}

/// Decoding never yields a mismatched or ill-formed header: a
/// successfully decoded header is well formed, its proof variant
/// matching the version it announces.
pub proof fn lemma_decode_header_wf(b: Seq<u8>)
    ensures
        spec_decode_header(b) matches Result::Ok(h) ==> spec_header_wf(h),
{
}

/// Unsupported version rejection: whenever the proof-dispatch field
/// holds a value outside the three reserved tags, decoding fails
/// with that value, whatever the rest of the input holds.
pub proof fn lemma_unsupported_version_rejected(b: Seq<u8>)
    requires
        b.len() >= SIZE_PREFIX_LEN + COMMON_ENCODED_LEN,
        spec_u16_from_be(b[2], b[3]) != BLOCK_VERSION_CONSENSUS_NONE,
        spec_u16_from_be(b[2], b[3]) != BLOCK_VERSION_CONSENSUS_BFT,
        spec_u16_from_be(b[2], b[3]) != BLOCK_VERSION_CONSENSUS_GENESIS_PRAOS,
    ensures
        spec_decode_header(b) == Result::<HeaderView, CodecError>::Err(
            CodecError::UnsupportedBlockVersion(spec_u16_from_be(b[2], b[3])),
        ),
{
}

/// Round-trip: decoding the encoding of any well-formed header gives
/// back that header.
pub proof fn lemma_codec_round_trip(h: HeaderView)
    requires
        spec_header_wf(h),
    ensures
        spec_decode_header(spec_encode_header(h)) == Result::<HeaderView, CodecError>::Ok(h),
{
    let e = spec_encode_header(h);
    let payload = spec_encode_header_payload(h);
    let c = spec_encode_common(h.common);
    let p = spec_encode_proof(h.proof);
    lemma_encoded_header_len(h);
    lemma_u16_be_round_trip(h.common.version);
    lemma_u32_be_round_trip(h.common.content_size);
    lemma_u32_be_round_trip(h.common.date.epoch);
    lemma_u32_be_round_trip(h.common.date.slot_id);
    assert(e.subrange(2, e.len() as int) =~= payload);
    assert(payload.subrange(0, COMMON_ENCODED_LEN as int) =~= c);
    assert(c.subrange(0, 2) =~= spec_u16_be(h.common.version));
    assert(c.subrange(2, 6) =~= spec_u32_be(h.common.content_size));
    assert(c.subrange(6, 10) =~= spec_u32_be(h.common.date.epoch));
    assert(c.subrange(10, 14) =~= spec_u32_be(h.common.date.slot_id));
    assert(e.subrange(16, 48) =~= c.subrange(14, 46));
    assert(c.subrange(14, 46) =~= h.common.content_hash);
    assert(e.subrange(48, 80) =~= c.subrange(46, 78));
    assert(c.subrange(46, 78) =~= h.common.parent_hash);
    let d = spec_decode_header(e);
    match h.proof {
        ProofView::Absent => {
            assert(d matches Result::Ok(hd) && hd =~= h);
        },
        ProofView::Bft { leader, signature } => {
            assert(payload.subrange(COMMON_ENCODED_LEN as int, payload.len() as int) =~= p);
            assert(e.subrange(80, 112) =~= leader);
            assert(e.subrange(112, 176) =~= signature);
            assert(d matches Result::Ok(hd) && hd =~= h);
        },
        ProofView::GenesisPraos { vrf_public_key, vrf_proof, kes_public_key, kes_proof } => {
            assert(payload.subrange(COMMON_ENCODED_LEN as int, payload.len() as int) =~= p);
            assert(e.subrange(80, 112) =~= vrf_public_key);
            assert(e.subrange(112, 208) =~= vrf_proof);
            assert(e.subrange(208, 240) =~= kes_public_key);
            assert(e.subrange(240, 304) =~= kes_proof);
            assert(d matches Result::Ok(hd) && hd =~= h);
        },
    }
}

/// The size prefix is correct: read back as a big-endian integer,
/// the first two encoded bytes equal the encoding's length minus the
/// prefix's own two bytes.
pub proof fn lemma_size_prefix(h: HeaderView)
    requires
        spec_header_wf(h),
    ensures
        spec_encode_header(h).len() >= 2,
        spec_u16_from_be(spec_encode_header(h)[0], spec_encode_header(h)[1])
            == spec_encode_header(h).len() - 2,
{
    let e = spec_encode_header(h);
    let payload = spec_encode_header_payload(h);
    lemma_encoded_header_len(h);
    lemma_u16_be_round_trip(payload.len() as u16);
    assert(e[0] == spec_u16_be(payload.len() as u16)[0]);
    assert(e[1] == spec_u16_be(payload.len() as u16)[1]);
}

/// Identity excludes framing: the identity hash depends only on the
/// bytes after the size prefix, and two well-formed headers that
/// agree on those bytes have the same identity and, the prefix being
/// a function of what follows it, the same full encoding. There is a
/// single canonical size value.
pub proof fn lemma_identity_excludes_framing(h1: HeaderView, h2: HeaderView)
    requires
        spec_header_wf(h1),
        spec_header_wf(h2),
        spec_encode_header(h1).skip(2) == spec_encode_header(h2).skip(2),
    ensures
        spec_header_id(h1) == spec_header_id(h2),
        spec_encode_header(h1) == spec_encode_header(h2),
{
    let e1 = spec_encode_header(h1);
    let e2 = spec_encode_header(h2);
    lemma_encoded_header_len(h1);
    lemma_encoded_header_len(h2);
    assert(e1.skip(2) =~= spec_encode_header_payload(h1));
    assert(e2.skip(2) =~= spec_encode_header_payload(h2));
    assert(spec_encode_header_payload(h1) == spec_encode_header_payload(h2));
    assert(e1 =~= e2);
}

} // verus!
