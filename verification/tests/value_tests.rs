use block_header::config::{Config, ProtocolMagic};
use block_header::date::BlockDate;
use block_header::header::{
    BftProof, BlockVersion, Common, GenesisPraosProof, Header, Proof, BLOCK_VERSION_CONSENSUS_BFT,
    BLOCK_VERSION_CONSENSUS_GENESIS_PRAOS, BLOCK_VERSION_CONSENSUS_NONE,
};
use block_header::key::{Signature, VrfProof, VrfPublicKey};
use block_header::leadership::LeaderId;
use block_header::update::SoftforkRule;

#[test]
fn blake2b256_known_vector() {
    // BLAKE2b-256 of the empty string.
    let expected: [u8; 32] = [
        0x0e, 0x57, 0x51, 0xc0, 0x26, 0xe5, 0x43, 0xb2, 0xe8, 0xab, 0x2e, 0xb0, 0x60, 0x99,
        0xda, 0xa1, 0xd1, 0xe5, 0xdf, 0x47, 0x77, 0x8f, 0x77, 0x87, 0xfa, 0xab, 0x45, 0xcd,
        0xf1, 0x2f, 0xe3, 0xa8,
    ];
    let digest = block_header::key::Hash::hash_bytes(&[]);
    assert_eq!(digest, block_header::key::Hash::from_bytes(&expected).unwrap());
    assert_eq!(digest.as_bytes(), &expected);
}

#[test]
fn fixed_width_values_reject_wrong_widths() {
    assert!(block_header::key::Hash::from_bytes(&[0u8; 31]).is_none());
    assert!(block_header::key::Hash::from_bytes(&[0u8; 33]).is_none());
    assert!(block_header::key::Hash::from_bytes(&[0u8; 32]).is_some());
    assert!(Signature::from_bytes(&[0u8; 64]).is_some());
    assert!(Signature::from_bytes(&[0u8; 63]).is_none());
    assert!(LeaderId::from_bytes(&[0u8; 32]).is_some());
    assert!(LeaderId::from_bytes(&[0u8; 16]).is_none());
    assert!(VrfPublicKey::from_bytes(&[0u8; 32]).is_some());
    assert!(VrfPublicKey::from_bytes(&[0u8; 64]).is_none());
    assert!(VrfProof::from_bytes(&[0u8; 96]).is_some());
    assert!(VrfProof::from_bytes(&[0u8; 95]).is_none());
}

fn sample_header() -> Header {
    let common = Common {
        block_version: BlockVersion::new(BLOCK_VERSION_CONSENSUS_NONE),
        block_date: BlockDate { epoch: 11, slot_id: 97 },
        block_content_size: 1234,
        block_content_hash: block_header::key::Hash::from_bytes(&[0x0A; 32]).unwrap(),
        block_parent_hash: block_header::key::Hash::from_bytes(&[0x0B; 32]).unwrap(),
    };
    Header::new(common, Proof::Absent).unwrap()
}

#[test]
fn header_accessors() {
    let header = sample_header();
    assert_eq!(header.block_version(), &BlockVersion::new(0));
    assert_eq!(
        header.block_date(),
        &BlockDate { epoch: 11, slot_id: 97 }
    );
    assert_eq!(header.block_content_hash(), &block_header::key::Hash::from_bytes(&[0x0A; 32]).unwrap());
    assert_eq!(header.block_parent_hash(), &block_header::key::Hash::from_bytes(&[0x0B; 32]).unwrap());
    assert_eq!(header.date(), BlockDate { epoch: 11, slot_id: 97 });
}

#[test]
fn leader_identity_per_proof_kind() {
    assert!(Proof::Absent.leader_id().is_none());

    let leader = LeaderId::from_bytes(&[0x55; 32]).unwrap();
    let bft = Proof::Bft(BftProof {
        leader_id: leader.clone(),
        signature: Signature::from_bytes(&[0x66; 64]).unwrap(),
    });
    assert_eq!(bft.leader_id(), Some(leader));

    let kes = LeaderId::from_bytes(&[0x77; 32]).unwrap();
    let praos = Proof::GenesisPraos(GenesisPraosProof {
        vrf_public_key: VrfPublicKey::from_bytes(&[0x11; 32]).unwrap(),
        vrf_proof: VrfProof::from_bytes(&[0x22; 96]).unwrap(),
        kes_public_key: kes.clone(),
        kes_proof: Signature::from_bytes(&[0x88; 64]).unwrap(),
    });
    assert_eq!(praos.leader_id(), Some(kes));
}

#[test]
fn block_version_tags() {
    assert_eq!(BLOCK_VERSION_CONSENSUS_NONE, 0);
    assert_eq!(BLOCK_VERSION_CONSENSUS_BFT, 1);
    assert_eq!(BLOCK_VERSION_CONSENSUS_GENESIS_PRAOS, 2);
    assert_eq!(BlockVersion::new(2).0, 2);
}

#[test]
fn date_order_is_by_epoch_then_slot() {
    let early = BlockDate { epoch: 1, slot_id: 9 };
    let later_same_epoch = BlockDate { epoch: 1, slot_id: 10 };
    let later_epoch = BlockDate { epoch: 2, slot_id: 0 };
    assert!(early.is_before(&later_same_epoch));
    assert!(early.is_before(&later_epoch));
    assert!(later_same_epoch.is_before(&later_epoch));
    assert!(!later_epoch.is_before(&early));
    assert!(!early.is_before(&early));
    assert!(early < later_same_epoch);
    assert!(later_same_epoch < later_epoch);
}

#[test]
fn protocol_magic_and_config() {
    assert_eq!(ProtocolMagic::default(), ProtocolMagic::new(0x2D964A09));
    assert_eq!(ProtocolMagic::new(42).0, 42);
    assert_eq!(ProtocolMagic::from(42u32), ProtocolMagic::new(42));
    let config = Config::new(ProtocolMagic::new(42));
    assert_eq!(config.protocol_magic, ProtocolMagic::new(42));
    assert_eq!(Config::default().protocol_magic, ProtocolMagic::default());
}

#[test]
fn softfork_rule_holds_its_thresholds() {
    let rule = SoftforkRule::new(900000000000000, 600000000000000, 50000000000000);
    assert_eq!(rule.init_thd, 900000000000000);
    assert_eq!(rule.min_thd, 600000000000000);
    assert_eq!(rule.thd_decrement, 50000000000000);
}
