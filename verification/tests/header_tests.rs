use block_header::codec::CodecError;
use block_header::date::BlockDate;
use block_header::header::{
    BftProof, BlockVersion, Common, GenesisPraosProof, Header, Proof,
    BLOCK_VERSION_CONSENSUS_BFT, BLOCK_VERSION_CONSENSUS_GENESIS_PRAOS,
    BLOCK_VERSION_CONSENSUS_NONE,
};
use block_header::key::Signature;
use block_header::key::{VrfProof, VrfPublicKey};
use block_header::leadership::LeaderId;

fn make_hash(fill: u8) -> block_header::key::Hash {
    block_header::key::Hash::from_bytes(&[fill; 32]).unwrap()
}

fn make_common(version: u16, date: (u32, u32), content_size: u32, fill: u8) -> Common {
    Common {
        block_version: BlockVersion::new(version),
        block_date: BlockDate {
            epoch: date.0,
            slot_id: date.1,
        },
        block_content_size: content_size,
        block_content_hash: make_hash(fill),
        block_parent_hash: make_hash(fill.wrapping_add(1)),
    }
}

fn keypair(seed_fill: u8) -> ([u8; 64], [u8; 32]) {
    cryptoxide::ed25519::keypair(&[seed_fill; 32])
}

fn bft_header(common: Common, kp: &[u8; 64], pk: &[u8; 32]) -> Header {
    let message = common.serialize_as_vec();
    let sig = cryptoxide::ed25519::signature(&message, kp);
    let proof = Proof::Bft(BftProof {
        leader_id: LeaderId::from_bytes(pk).unwrap(),
        signature: Signature::from_bytes(&sig).unwrap(),
    });
    Header::new(common, proof).unwrap()
}

fn genesis_praos_header(common: Common, kp: &[u8; 64], pk: &[u8; 32]) -> Header {
    let message = common.serialize_as_vec();
    let sig = cryptoxide::ed25519::signature(&message, kp);
    let proof = Proof::GenesisPraos(GenesisPraosProof {
        vrf_public_key: VrfPublicKey::from_bytes(&[0x11; 32]).unwrap(),
        vrf_proof: VrfProof::from_bytes(&[0x22; 96]).unwrap(),
        kes_public_key: LeaderId::from_bytes(pk).unwrap(),
        kes_proof: Signature::from_bytes(&sig).unwrap(),
    });
    Header::new(common, proof).unwrap()
}

#[test]
fn none_header_round_trip() {
    let common = make_common(BLOCK_VERSION_CONSENSUS_NONE, (3, 44), 1000, 0x10);
    let header = Header::new(common, Proof::Absent).unwrap();
    let encoded = header.serialize_as_vec();
    assert_eq!(encoded.len(), 80);
    let decoded = Header::deserialize(&encoded).unwrap();
    assert_eq!(decoded, header);
    assert!(matches!(decoded.consensus_proof(), Proof::Absent));
    assert!(decoded.verify_proof());
}

#[test]
fn bft_header_round_trip() {
    let (kp, pk) = keypair(7);
    let common = make_common(BLOCK_VERSION_CONSENSUS_BFT, (1, 2), 3, 0x20);
    let header = bft_header(common, &kp, &pk);
    let encoded = header.serialize_as_vec();
    assert_eq!(encoded.len(), 176);
    let decoded = Header::deserialize(&encoded).unwrap();
    assert_eq!(decoded, header);
    assert!(decoded.verify_proof());
}

#[test]
fn genesis_praos_header_round_trip() {
    let (kp, pk) = keypair(9);
    let common = make_common(BLOCK_VERSION_CONSENSUS_GENESIS_PRAOS, (8, 15), 512, 0x30);
    let header = genesis_praos_header(common, &kp, &pk);
    let encoded = header.serialize_as_vec();
    assert_eq!(encoded.len(), 304);
    let decoded = Header::deserialize(&encoded).unwrap();
    assert_eq!(decoded, header);
    assert!(decoded.verify_proof());
}

#[test]
fn trailing_bytes_are_ignored() {
    let common = make_common(BLOCK_VERSION_CONSENSUS_NONE, (0, 1), 2, 0x40);
    let header = Header::new(common, Proof::Absent).unwrap();
    let mut encoded = header.serialize_as_vec();
    encoded.push(0xFF);
    encoded.push(0xFF);
    let decoded = Header::deserialize(&encoded).unwrap();
    assert_eq!(decoded, header);
}

#[test]
fn size_prefix_is_consumed_but_not_validated() {
    let common = make_common(BLOCK_VERSION_CONSENSUS_NONE, (0, 1), 2, 0x45);
    let header = Header::new(common, Proof::Absent).unwrap();
    let mut encoded = header.serialize_as_vec();
    // A wrong size prefix does not stop the decoder: framing is the
    // caller's concern.
    encoded[0] = 0xFF;
    encoded[1] = 0xFF;
    let decoded = Header::deserialize(&encoded).unwrap();
    assert_eq!(decoded, header);
}

#[test]
fn size_prefix_equals_length_after_prefix() {
    let (kp, pk) = keypair(3);
    let headers = [
        Header::new(
            make_common(BLOCK_VERSION_CONSENSUS_NONE, (5, 6), 7, 0x50),
            Proof::Absent,
        )
        .unwrap(),
        bft_header(make_common(BLOCK_VERSION_CONSENSUS_BFT, (5, 6), 7, 0x60), &kp, &pk),
        genesis_praos_header(
            make_common(BLOCK_VERSION_CONSENSUS_GENESIS_PRAOS, (5, 6), 7, 0x70),
            &kp,
            &pk,
        ),
    ];
    for header in headers.iter() {
        let encoded = header.serialize_as_vec();
        let prefix = (encoded[0] as usize) * 256 + encoded[1] as usize;
        assert_eq!(prefix, encoded.len() - 2);
    }
}

#[test]
fn exact_encoding_of_a_known_header() {
    let common = Common {
        block_version: BlockVersion::new(BLOCK_VERSION_CONSENSUS_NONE),
        block_date: BlockDate { epoch: 5, slot_id: 6 },
        block_content_size: 0x01020304,
        block_content_hash: make_hash(0xAA),
        block_parent_hash: make_hash(0xBB),
    };
    let header = Header::new(common, Proof::Absent).unwrap();
    let encoded = header.serialize_as_vec();
    let mut expected: Vec<u8> = vec![0, 78, 0, 0, 1, 2, 3, 4, 0, 0, 0, 5, 0, 0, 0, 6];
    expected.extend_from_slice(&[0xAA; 32]);
    expected.extend_from_slice(&[0xBB; 32]);
    assert_eq!(encoded, expected);
}

#[test]
fn identity_excludes_framing() {
    let (kp, pk) = keypair(5);
    let common = make_common(BLOCK_VERSION_CONSENSUS_BFT, (2, 9), 21, 0x80);
    let header = bft_header(common, &kp, &pk);
    let encoded = header.serialize_as_vec();
    let id = header.id();
    assert_eq!(id, block_header::key::Hash::hash_bytes(&encoded[2..]));
    // The identity is not the digest of the framed bytes.
    assert_ne!(id, block_header::key::Hash::hash_bytes(&encoded));
    // Decoding and recomputing yields the same identity.
    let decoded = Header::deserialize(&encoded).unwrap();
    assert_eq!(decoded.id(), id);
}

#[test]
fn verification_soundness() {
    let (kp, pk) = keypair(13);
    let common = make_common(BLOCK_VERSION_CONSENSUS_BFT, (4, 2), 99, 0x90);
    let header = bft_header(common.clone(), &kp, &pk);
    assert!(header.verify_proof());

    // Any alteration of Common after signing must fail verification.
    let mut altered = common.clone();
    altered.block_content_size = 100;
    let altered_header = Header::new(altered, header.consensus_proof().clone()).unwrap();
    assert!(!altered_header.verify_proof());

    // A substituted key pair must fail verification.
    let (_, other_pk) = keypair(14);
    let message = common.serialize_as_vec();
    let sig = cryptoxide::ed25519::signature(&message, &kp);
    let wrong_key_proof = Proof::Bft(BftProof {
        leader_id: LeaderId::from_bytes(&other_pk).unwrap(),
        signature: Signature::from_bytes(&sig).unwrap(),
    });
    let wrong_key_header = Header::new(common, wrong_key_proof).unwrap();
    assert!(!wrong_key_header.verify_proof());
}

#[test]
fn genesis_praos_verification_checks_kes_signature() {
    let (kp, pk) = keypair(21);
    let common = make_common(BLOCK_VERSION_CONSENSUS_GENESIS_PRAOS, (6, 6), 6, 0xA0);
    let header = genesis_praos_header(common.clone(), &kp, &pk);
    assert!(header.verify_proof());

    let mut altered = common;
    altered.block_date = BlockDate { epoch: 6, slot_id: 7 };
    let altered_header = Header::new(altered, header.consensus_proof().clone()).unwrap();
    assert!(!altered_header.verify_proof());
}

#[test]
fn version_variant_mismatch_is_rejected() {
    let (kp, pk) = keypair(17);
    let bft_common = make_common(BLOCK_VERSION_CONSENSUS_BFT, (0, 0), 0, 0xB0);
    assert!(Header::new(bft_common.clone(), Proof::Absent).is_none());

    let message = bft_common.serialize_as_vec();
    let sig = cryptoxide::ed25519::signature(&message, &kp);
    let bft_proof = Proof::Bft(BftProof {
        leader_id: LeaderId::from_bytes(&pk).unwrap(),
        signature: Signature::from_bytes(&sig).unwrap(),
    });
    let none_common = make_common(BLOCK_VERSION_CONSENSUS_NONE, (0, 0), 0, 0xB0);
    assert!(Header::new(none_common, bft_proof.clone()).is_none());

    let praos_common = make_common(BLOCK_VERSION_CONSENSUS_GENESIS_PRAOS, (0, 0), 0, 0xB0);
    assert!(Header::new(praos_common, bft_proof).is_none());

    assert!(Header::new(bft_common, Proof::Absent).is_none());
}

#[test]
fn unsupported_version_is_rejected() {
    let common = make_common(7, (1, 1), 1, 0xC0);
    // Build the common layout by hand behind an arbitrary size prefix.
    let mut bytes: Vec<u8> = vec![0, 78];
    bytes.extend_from_slice(&common.serialize_as_vec());
    assert_eq!(bytes.len(), 80);
    let result = Header::deserialize(&bytes);
    assert_eq!(result, Err(CodecError::UnsupportedBlockVersion(7)));
}

#[test]
fn truncated_inputs_are_rejected() {
    assert_eq!(Header::deserialize(&[]), Err(CodecError::Truncated));
    assert_eq!(Header::deserialize(&[0u8; 79]), Err(CodecError::Truncated));

    let (kp, pk) = keypair(19);
    let bft = bft_header(make_common(BLOCK_VERSION_CONSENSUS_BFT, (1, 2), 3, 0xD0), &kp, &pk);
    let encoded = bft.serialize_as_vec();
    assert_eq!(
        Header::deserialize(&encoded[..encoded.len() - 1]),
        Err(CodecError::Truncated)
    );

    let praos = genesis_praos_header(
        make_common(BLOCK_VERSION_CONSENSUS_GENESIS_PRAOS, (1, 2), 3, 0xD0),
        &kp,
        &pk,
    );
    let encoded = praos.serialize_as_vec();
    assert_eq!(
        Header::deserialize(&encoded[..encoded.len() - 1]),
        Err(CodecError::Truncated)
    );
}

#[test]
fn scenario_bft_header_with_zero_content() {
    let (kp, pk) = keypair(42);
    let h0 = make_hash(0);
    let common = Common {
        block_version: BlockVersion::new(1),
        block_date: BlockDate { epoch: 0, slot_id: 0 },
        block_content_size: 0,
        block_content_hash: h0.clone(),
        block_parent_hash: h0,
    };
    let header = bft_header(common.clone(), &kp, &pk);

    // 2 (prefix) + 14 (common fixed fields) + 2*32 (digests)
    // + 32 (leader id) + 64 (signature).
    let encoded = header.serialize_as_vec();
    assert_eq!(encoded.len(), 2 + 14 + 2 * 32 + 32 + 64);

    let decoded = Header::deserialize(&encoded).unwrap();
    assert_eq!(decoded, header);
    assert!(decoded.verify_proof());

    // Under any other key's public key the proof fails.
    let (_, other_pk) = keypair(43);
    let message = common.serialize_as_vec();
    let sig = cryptoxide::ed25519::signature(&message, &kp);
    let other = Header::new(
        common,
        Proof::Bft(BftProof {
            leader_id: LeaderId::from_bytes(&other_pk).unwrap(),
            signature: Signature::from_bytes(&sig).unwrap(),
        }),
    )
    .unwrap();
    assert!(!other.verify_proof());
}

#[test]
fn scenario_none_header() {
    let common = Common {
        block_version: BlockVersion::new(0),
        block_date: BlockDate { epoch: 0, slot_id: 0 },
        block_content_size: 0,
        block_content_hash: make_hash(0),
        block_parent_hash: make_hash(0),
    };
    let header = Header::new(common, Proof::Absent).unwrap();
    let encoded = header.serialize_as_vec();
    let decoded = Header::deserialize(&encoded).unwrap();
    assert!(matches!(decoded.consensus_proof(), Proof::Absent));
    assert!(decoded.verify_proof());
}
