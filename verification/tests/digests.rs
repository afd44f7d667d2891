use poc_consensus::consensus_log::{
    ConsensusLog, NextSaltDescriptor, NextSolutionRangeDescriptor, SaltDescriptor,
    SolutionRangeDescriptor,
};
use poc_consensus::digest::{hash_eq, DigestItem};
use poc_consensus::digests::{
    CompatibleDigestItem, NextConfigDescriptor, NextEpochDescriptor, PreDigest,
};
use poc_consensus::primitives::{PoCEpochConfiguration, POC_ENGINE_ID};
use poc_consensus::solution::{Solution, SolutionPreDigest};
use poc_consensus::vrf::{VRFOutput, VRFProof};

/// The order of the scalars' group, in little-endian bytes.
const GROUP_ORDER: [u8; 32] = [
    0xed, 0xd3, 0xf5, 0x5c, 0x1a, 0x63, 0x12, 0x58, 0xd6, 0x9c, 0xf7, 0xa2, 0xde, 0xf9, 0xde, 0x14,
    0, 0, 0, 0, 0, 0, 0, 0, 0, 0, 0, 0, 0, 0, 0, 0x10,
];

fn proof_of(first: [u8; 32], second: [u8; 32]) -> [u8; 64] {
    let mut bytes = [0u8; 64];
    bytes[..32].copy_from_slice(&first);
    bytes[32..].copy_from_slice(&second);
    bytes
}

fn pre_digest() -> PreDigest {
    PreDigest {
        slot: 0x0102030405060708,
        vrf_output: VRFOutput { bytes: [9u8; 32] },
        vrf_proof: VRFProof::from_bytes(proof_of([3u8; 32], [4u8; 32])).unwrap(),
    }
}

fn solution_pre_digest() -> SolutionPreDigest {
    SolutionPreDigest {
        slot: 77,
        solution: Solution {
            public_key: [1u8; 32],
            nonce: 513,
            encoding: vec![7u8; 4096],
            signature: vec![8u8; 64],
            tag: [5u8; 8],
        },
    }
}

#[test]
fn seal_reads_back() {
    let item = DigestItem::poc_seal([7u8; 64]);
    assert_eq!(item, DigestItem::Seal(*b"POC_", vec![7u8; 64]));
    assert_eq!(item.as_poc_seal(), Some([7u8; 64]));
}

#[test]
fn seal_needs_enough_bytes() {
    assert_eq!(DigestItem::Seal(POC_ENGINE_ID, vec![7u8; 63]).as_poc_seal(), None);
    assert_eq!(DigestItem::Seal(POC_ENGINE_ID, vec![7u8; 65]).as_poc_seal(), Some([7u8; 64]));
    assert_eq!(DigestItem::Seal(*b"BABE", vec![7u8; 64]).as_poc_seal(), None);
    assert_eq!(DigestItem::PreRuntime(POC_ENGINE_ID, vec![7u8; 64]).as_poc_seal(), None);
    assert_eq!(DigestItem::Other(vec![7u8; 64]).as_poc_seal(), None);
    assert_eq!(DigestItem::RuntimeEnvironmentUpdated.as_poc_seal(), None);
}

#[test]
fn pre_digest_is_written_in_order() {
    let bytes = pre_digest().encode();
    let mut expected = vec![8u8, 7, 6, 5, 4, 3, 2, 1];
    expected.extend_from_slice(&[9u8; 32]);
    expected.extend_from_slice(&[3u8; 32]);
    expected.extend_from_slice(&[4u8; 32]);
    assert_eq!(bytes, expected);
    assert_eq!(PreDigest::decode(&bytes), Some(pre_digest()));
    assert_eq!(PreDigest::decode(&bytes[..103]), None);
}

#[test]
fn pre_digest_reads_back() {
    let item = DigestItem::poc_pre_digest(pre_digest());
    assert_eq!(item.as_poc_pre_digest(), Some(pre_digest()));
    assert_eq!(item.as_poc_seal(), None);
    assert_eq!(item.as_next_epoch_descriptor(), None);
    assert_eq!(item.as_next_config_descriptor(), None);
}

#[test]
fn pre_digest_adds_one_to_weight() {
    assert_eq!(pre_digest().added_weight(), 1);
    assert_eq!(solution_pre_digest().added_weight(), 1);
    assert_eq!(pre_digest().vrf_output(), &VRFOutput { bytes: [9u8; 32] });
}

#[test]
fn proof_needs_canonical_scalars() {
    let mut below = GROUP_ORDER;
    below[0] -= 1;
    assert!(VRFProof::from_bytes(proof_of(below, below)).is_some());
    assert!(VRFProof::from_bytes(proof_of(GROUP_ORDER, below)).is_none());
    assert!(VRFProof::from_bytes(proof_of(below, GROUP_ORDER)).is_none());
    assert!(VRFProof::from_bytes([0xffu8; 64]).is_none());
}

#[test]
fn pre_digest_with_a_bad_proof_is_not_read() {
    let mut bytes = pre_digest().encode();
    bytes[40..72].copy_from_slice(&GROUP_ORDER);
    assert_eq!(PreDigest::decode(&bytes), None);
}

#[test]
fn epoch_descriptor_is_read_from_the_log() {
    let log = ConsensusLog::NextEpochData(NextEpochDescriptor { randomness: [6u8; 32] });
    let item = DigestItem::Consensus(POC_ENGINE_ID, log.encode());
    assert_eq!(
        item.as_next_epoch_descriptor(),
        Some(NextEpochDescriptor { randomness: [6u8; 32] }),
    );
    assert_eq!(item.as_next_config_descriptor(), None);
    assert_eq!(item.as_poc_pre_digest(), None);
}

#[test]
fn config_descriptor_is_read_from_the_log() {
    let log = ConsensusLog::NextConfigData(NextConfigDescriptor::V1 { c: (1, 4) });
    assert_eq!(log.encode(), vec![2u8, 1, 1, 0, 0, 0, 0, 0, 0, 0, 4, 0, 0, 0, 0, 0, 0, 0]);
    let item = DigestItem::Consensus(POC_ENGINE_ID, log.encode());
    assert_eq!(item.as_next_config_descriptor(), Some(NextConfigDescriptor::V1 { c: (1, 4) }));
    assert_eq!(item.as_next_epoch_descriptor(), None);
    let config = PoCEpochConfiguration::from(NextConfigDescriptor::V1 { c: (1, 4) });
    assert_eq!(config, PoCEpochConfiguration { c: (1, 4) });
}

#[test]
fn config_descriptor_of_another_version_is_not_read() {
    let mut bytes = ConsensusLog::NextConfigData(NextConfigDescriptor::V1 { c: (1, 4) }).encode();
    bytes[1] = 0;
    assert_eq!(ConsensusLog::decode(&bytes), None);
}

#[test]
fn every_log_reads_back() {
    let logs = [
        ConsensusLog::NextEpochData(NextEpochDescriptor { randomness: [6u8; 32] }),
        ConsensusLog::NextConfigData(NextConfigDescriptor::V1 { c: (3, u64::MAX) }),
        ConsensusLog::SolutionRangeData(SolutionRangeDescriptor { solution_range: 10 }),
        ConsensusLog::NextSolutionRangeData(NextSolutionRangeDescriptor { solution_range: 11 }),
        ConsensusLog::SaltData(SaltDescriptor { salt: 12 }),
        ConsensusLog::NextSaltData(NextSaltDescriptor { salt: u64::MAX }),
    ];
    for log in logs.iter() {
        let mut bytes = log.encode();
        assert_eq!(ConsensusLog::decode(&bytes), Some(*log));
        assert_eq!(ConsensusLog::decode(&bytes[..bytes.len() - 1]), None);
        bytes.push(1);
        assert_eq!(ConsensusLog::decode(&bytes), Some(*log));
    }
    assert_eq!(ConsensusLog::decode(&[]), None);
    assert_eq!(ConsensusLog::decode(&[7u8; 40]), None);
}

#[test]
fn log_of_another_engine_is_not_read() {
    let bytes = ConsensusLog::SaltData(SaltDescriptor { salt: 12 }).encode();
    assert_eq!(ConsensusLog::from_item(&DigestItem::Consensus(*b"aura", bytes.clone())), None);
    assert_eq!(ConsensusLog::from_item(&DigestItem::Seal(POC_ENGINE_ID, bytes)), None);
}

#[test]
fn solution_pre_digest_is_written_in_order() {
    let bytes = solution_pre_digest().encode();
    let mut expected = vec![77u8, 0, 0, 0, 0, 0, 0, 0];
    expected.extend_from_slice(&[1u8; 32]);
    expected.extend_from_slice(&[1u8, 2, 0, 0, 0, 0, 0, 0]);
    // The length 4096 in two bytes, then the length 64 in two bytes.
    expected.extend_from_slice(&[0x01u8, 0x40]);
    expected.extend_from_slice(&[7u8; 4096]);
    expected.extend_from_slice(&[0x01u8, 0x01]);
    expected.extend_from_slice(&[8u8; 64]);
    expected.extend_from_slice(&[5u8; 8]);
    assert_eq!(bytes, expected);
}

#[test]
fn solution_pre_digest_reads_back() {
    let item = solution_pre_digest().to_item();
    assert_eq!(SolutionPreDigest::from_item(&item), Some(solution_pre_digest()));
    let bytes = solution_pre_digest().encode();
    for n in [0usize, 47, 48, 49, 50, 4145, 4146, bytes.len() - 1] {
        assert_eq!(SolutionPreDigest::decode(&bytes[..n]), None);
    }
}

#[test]
fn lengths_take_the_shortest_prefix() {
    let mut digest = solution_pre_digest();
    for n in [0usize, 1, 63, 64, 16383, 16384, 70000] {
        digest.solution.encoding = vec![3u8; n];
        let bytes = digest.encode();
        assert_eq!(SolutionPreDigest::decode(&bytes), Some(digest.clone()));
    }
    // An empty encoding behind a prefix of two bytes is refused.
    digest.solution.encoding = Vec::new();
    let bytes = digest.encode();
    let mut padded = bytes[..48].to_vec();
    padded.extend_from_slice(&[0x01u8, 0x00]);
    padded.extend_from_slice(&bytes[49..]);
    assert_eq!(SolutionPreDigest::decode(&padded), None);
}

#[test]
fn genesis_solution_is_empty() {
    let solution = Solution::get_for_genesis();
    assert_eq!(solution.public_key, [0u8; 32]);
    assert_eq!(solution.nonce, 0);
    assert!(solution.encoding.is_empty());
    assert!(solution.signature.is_empty());
    assert_eq!(solution.tag, [0u8; 8]);
}

#[test]
fn hashes_are_compared_in_full() {
    let mut other = [1u8; 32];
    assert!(hash_eq(&[1u8; 32], &other));
    other[31] = 2;
    assert!(!hash_eq(&[1u8; 32], &other));
}
