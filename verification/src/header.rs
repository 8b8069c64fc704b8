//! The block header data model: the version-independent `Common`
//! prefix, the tagged union of consensus proofs, and the `Header`
//! value combining the two, together with its verification algorithm
//! and its identity hash.

use vstd::prelude::*;

use crate::bytes::{copy_bytes, read_bytes};
use crate::codec::{spec_encode_common, spec_header_id};
use crate::crypto::{ed25519_verify, ed25519_verifies, HASH_SIZE, PUBLIC_KEY_SIZE, SIGNATURE_SIZE};
use crate::date::BlockDate;
use crate::key::{Signature, VrfProof, VrfPublicKey, VRF_PROOF_SIZE, VRF_PUBLIC_KEY_SIZE};
use crate::leadership::LeaderId;

verus! {

/// The content-addressed identity of a header.
pub type HeaderHash = crate::key::Hash;

/// The digest of a block's body.
pub type BlockContentHash = crate::key::Hash;

/// The identity of a block, i.e. of its header.
pub type BlockId = crate::key::Hash;

/// Declared size in bytes of a block's body.
pub type BlockContentSize = u32;

/// Version tag of headers that carry no consensus proof.
pub const BLOCK_VERSION_CONSENSUS_NONE: u16 = 0;

/// Version tag of headers authenticated by a BFT leader signature.
pub const BLOCK_VERSION_CONSENSUS_BFT: u16 = 1;

/// Version tag of headers authenticated by a genesis-praos proof.
pub const BLOCK_VERSION_CONSENSUS_GENESIS_PRAOS: u16 = 2;

/// A 16-bit enumerant selecting the consensus scheme. Values other
/// than the three reserved tags are unrecognized: decoding fails on
/// them rather than guessing a layout.
#[derive(Debug, Clone, Copy, PartialEq, Eq, Hash, Structural)]
pub struct BlockVersion(pub u16);

impl BlockVersion {
    /// Wrap a raw 16-bit version tag.
    pub fn new(v: u16) -> (r: Self)
        ensures
            r.0 == v,
    {
        BlockVersion(v)
    }
}

/// The version-independent prefix of a header, shared and signed
/// across all consensus schemes. `Common` is exactly the byte range
/// that is cryptographically proven by whichever proof accompanies
/// it; no other header bytes participate in authentication.
#[derive(Debug, Clone, PartialEq, Eq)]
pub struct Common {
    pub block_version: BlockVersion,
    pub block_date: BlockDate,
    pub block_content_size: BlockContentSize,
    pub block_content_hash: BlockContentHash,
    pub block_parent_hash: BlockId,
}

/// Mathematical model of a `Common` value.
#[verifier::ext_equal]
pub ghost struct CommonView {
    pub version: u16,
    pub date: BlockDate,
    pub content_size: u32,
    pub content_hash: Seq<u8>,
    pub parent_hash: Seq<u8>,
}

impl View for Common {
    type V = CommonView;

    open spec fn view(&self) -> CommonView {
        CommonView {
            version: self.block_version.0,
            date: self.block_date,
            content_size: self.block_content_size,
            content_hash: self.block_content_hash@,
            parent_hash: self.block_parent_hash@,
        }
    }
}

/// Both digests of a `Common` value have the hash function's width.
pub open spec fn spec_common_wf(c: CommonView) -> bool {
    &&& c.content_hash.len() == HASH_SIZE
    &&& c.parent_hash.len() == HASH_SIZE
}

impl Common {
    /// Well-formedness of the digests carried by this value.
    pub open spec fn wf(&self) -> bool {
        spec_common_wf(self@)
    }
}

/// Authentication of a header by a single signature from a
/// designated leader's key.
#[derive(Debug, Clone, PartialEq, Eq)]
pub struct BftProof {
    pub leader_id: LeaderId,
    pub signature: Signature,
}

/// Authentication combining VRF-based leader eligibility with a
/// key-evolving signature. Only the key-evolving signature check is
/// performed by `verify_proof`; VRF eligibility verification is a
/// documented gap of this subsystem.
#[derive(Debug, Clone, PartialEq, Eq)]
pub struct GenesisPraosProof {
    pub vrf_public_key: VrfPublicKey,
    pub vrf_proof: VrfProof,
    pub kes_public_key: LeaderId,
    pub kes_proof: Signature,
}

/// The consensus-scheme-specific authentication payload attached to
/// a header.
#[derive(Debug, Clone, PartialEq, Eq)]
pub enum Proof {
    /// No authentication: only legal with the `NONE` block version,
    /// for example on a chain's genesis block.
    Absent,
    Bft(BftProof),
    GenesisPraos(GenesisPraosProof),
}

/// Mathematical model of a `Proof` value.
#[verifier::ext_equal]
pub ghost enum ProofView {
    Absent,
    Bft { leader: Seq<u8>, signature: Seq<u8> },
    GenesisPraos {
        vrf_public_key: Seq<u8>,
        vrf_proof: Seq<u8>,
        kes_public_key: Seq<u8>,
        kes_proof: Seq<u8>,
    },
}

impl View for Proof {
    type V = ProofView;

    open spec fn view(&self) -> ProofView {
        match self {
            Proof::Absent => ProofView::Absent,
            Proof::Bft(p) => ProofView::Bft {
                leader: p.leader_id@,
                signature: p.signature@,
            },
            Proof::GenesisPraos(p) => ProofView::GenesisPraos {
                vrf_public_key: p.vrf_public_key@,
                vrf_proof: p.vrf_proof@,
                kes_public_key: p.kes_public_key@,
                kes_proof: p.kes_proof@,
            },
        }
    }
}

/// Every field of a proof has its primitive's fixed width.
pub open spec fn spec_proof_wf(p: ProofView) -> bool {
    match p {
        ProofView::Absent => true,
        ProofView::Bft { leader, signature } => {
            &&& leader.len() == PUBLIC_KEY_SIZE
            &&& signature.len() == SIGNATURE_SIZE
        },
        ProofView::GenesisPraos { vrf_public_key, vrf_proof, kes_public_key, kes_proof } => {
            &&& vrf_public_key.len() == VRF_PUBLIC_KEY_SIZE
            &&& vrf_proof.len() == VRF_PROOF_SIZE
            &&& kes_public_key.len() == PUBLIC_KEY_SIZE
            &&& kes_proof.len() == SIGNATURE_SIZE
        },
    }
}

/// The proof variant that accompanies a header must match the block
/// version announced in `Common`.
pub open spec fn spec_version_matches_proof(version: u16, p: ProofView) -> bool {
    match p {
        ProofView::Absent => version == BLOCK_VERSION_CONSENSUS_NONE,
        ProofView::Bft { .. } => version == BLOCK_VERSION_CONSENSUS_BFT,
        ProofView::GenesisPraos { .. } => version == BLOCK_VERSION_CONSENSUS_GENESIS_PRAOS,
    }
}

impl Proof {
    /// Well-formedness of the widths carried by this value.
    pub open spec fn wf(&self) -> bool {
        spec_proof_wf(self@)
    }

    /// The identity of the block's claimed producer, independent of
    /// verification: no leader for `Absent`, the signing leader for
    /// `Bft`, the key-evolving public key for `GenesisPraos`.
    pub fn leader_id(&self) -> (r: Option<LeaderId>)
        requires
            self.wf(),
        ensures
            match self@ {
                ProofView::Absent => r is None,
                ProofView::Bft { leader, .. } => r matches Some(l) && l@ == leader,
                ProofView::GenesisPraos { kes_public_key, .. } => r matches Some(l) && l@
                    == kes_public_key,
            },
    {
        match self {
            Proof::Absent => None,
            Proof::Bft(p) => Some(LeaderId::from_vec(copy_bytes(p.leader_id.as_bytes()))),
            Proof::GenesisPraos(p) => Some(
                LeaderId::from_vec(copy_bytes(p.kes_public_key.as_bytes())),
            ),
        }
    }
}

/// The block header: the metadata that proves a given block has been
/// signed by the appropriate nodes and localizes the block within the
/// blockchain (the block date and the parent's identity hash).
#[derive(Debug, Clone, PartialEq, Eq)]
pub struct Header {
    pub(crate) common: Common,
    pub(crate) proof: Proof,
}

/// Mathematical model of a `Header` value.
#[verifier::ext_equal]
pub ghost struct HeaderView {
    pub common: CommonView,
    pub proof: ProofView,
}

impl View for Header {
    type V = HeaderView;

    closed spec fn view(&self) -> HeaderView {
        HeaderView { common: self.common@, proof: self.proof@ }
    }
}

/// The model of a header is the pair of its parts' models.
pub(crate) proof fn lemma_header_view(h: &Header)
    ensures
        h@ == (HeaderView { common: h.common@, proof: h.proof@ }),
{
}

/// A header is well formed when its fields have their fixed widths
/// and its proof variant matches its block version.
pub open spec fn spec_header_wf(h: HeaderView) -> bool {
    &&& spec_common_wf(h.common)
    &&& spec_proof_wf(h.proof)
    &&& spec_version_matches_proof(h.common.version, h.proof)
}

/// Whether a header's proof authenticates its `Common` payload: the
/// serialized `Common` bytes must check out under the proof's public
/// key. `Absent` proofs are trivially accepted at this layer. For
/// genesis-praos proofs only the key-evolving signature is checked;
/// the VRF eligibility fields take no part in this result.
pub open spec fn spec_verify_proof(h: HeaderView) -> bool {
    match h.proof {
        ProofView::Absent => true,
        ProofView::Bft { leader, signature } => ed25519_verifies(
            spec_encode_common(h.common),
            leader,
            signature,
        ),
        ProofView::GenesisPraos { kes_public_key, kes_proof, .. } => ed25519_verifies(
            spec_encode_common(h.common),
            kes_public_key,
            kes_proof,
        ),
    }
}

impl Header {
    /// Well-formedness of the header's fields and of the pairing of
    /// its version with its proof variant.
    pub open spec fn wf(&self) -> bool {
        spec_header_wf(self@)
    }

    /// Construct a header from its parts. A pairing of a block
    /// version with a proof variant that does not match it is
    /// rejected rather than silently accepted and mis-serialized.
    pub fn new(common: Common, p: Proof) -> (r: Option<Header>)
        requires
            common.wf(),
            p.wf(),
        ensures
            r is Some <==> spec_version_matches_proof(common@.version, p@),
            r matches Some(h) ==> h@ == (HeaderView { common: common@, proof: p@ })
                && h.wf(),
    {
        let version_fits = match &p {
            Proof::Absent => common.block_version.0 == BLOCK_VERSION_CONSENSUS_NONE,
            Proof::Bft(_) => common.block_version.0 == BLOCK_VERSION_CONSENSUS_BFT,
            Proof::GenesisPraos(_) => common.block_version.0
                == BLOCK_VERSION_CONSENSUS_GENESIS_PRAOS,
        };
        if version_fits {
            Some(Header { common, proof: p })
        } else {
            None
        }
    }

    /// The header's block version.
    pub fn block_version(&self) -> (r: &BlockVersion)
        ensures
            r.0 == self@.common.version,
    {
        &self.common.block_version
    }

    /// The header's logical position on the chain's time axis.
    pub fn block_date(&self) -> (r: &BlockDate)
        ensures
            *r == self@.common.date,
    {
        &self.common.block_date
    }

    /// The digest of the block body this header describes.
    pub fn block_content_hash(&self) -> (r: &BlockContentHash)
        ensures
            r@ == self@.common.content_hash,
    {
        &self.common.block_content_hash
    }

    /// The identity hash of the preceding header.
    pub fn block_parent_hash(&self) -> (r: &BlockId)
        ensures
            r@ == self@.common.parent_hash,
    {
        &self.common.block_parent_hash
    }

    /// The consensus-scheme-specific proof attached to this header.
    pub fn consensus_proof(&self) -> (r: &Proof)
        ensures
            r@ == self@.proof,
    {
        &self.proof
    }

    /// The header's date, for ordering and deduplication.
    pub fn date(&self) -> (r: BlockDate)
        ensures
            r == self@.common.date,
    {
        self.common.block_date
    }

    /// The content-addressed identity of this header: the digest of
    /// its serialized bytes with the 2-byte size prefix stripped. The
    /// prefix is a framing artifact, not semantic content, and must
    /// not affect identity.
    pub fn id(&self) -> (r: HeaderHash)
        requires
            self.wf(),
        ensures
            r@ == spec_header_id(self@),
            r.wf(),
    {
        let bytes = self.serialize_as_vec();
        proof {
            crate::codec::lemma_encoded_header_len(self@);
        }
        let tail = read_bytes(bytes.as_slice(), 2, bytes.len() - 2);
        proof {
            assert(tail@ =~= crate::codec::spec_encode_header(self@).skip(2));
        }
        crate::key::Hash::hash_bytes(tail.as_slice())
    }

    /// Decide whether this header's proof authenticates its `Common`
    /// payload. A `false` result is not an error: a header can be
    /// well formed and decodable yet fail authentication.
    pub fn verify_proof(&self) -> (r: bool)
        requires
            self.wf(),
        ensures
            r == spec_verify_proof(self@),
    {
        match &self.proof {
            Proof::Absent => true,
            Proof::Bft(p) => {
                let message = self.common.serialize_as_vec();
                ed25519_verify(
                    message.as_slice(),
                    p.leader_id.as_bytes(),
                    p.signature.as_bytes(),
                )
            },
            Proof::GenesisPraos(p) => {
                let message = self.common.serialize_as_vec();
                ed25519_verify(
                    message.as_slice(),
                    p.kes_public_key.as_bytes(),
                    p.kes_proof.as_bytes(),
                )
            },
        }
    }
}

} // verus!
