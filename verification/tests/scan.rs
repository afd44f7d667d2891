use poc_consensus::consensus_log::{
    ConsensusLog, NextSaltDescriptor, NextSolutionRangeDescriptor, SaltDescriptor,
    SolutionRangeDescriptor,
};
use poc_consensus::digest::{DigestItem, Header};
use poc_consensus::digests::{NextConfigDescriptor, NextEpochDescriptor};
use poc_consensus::error::Error;
use poc_consensus::primitives::POC_ENGINE_ID;
use poc_consensus::scan::{
    find_next_config_digest, find_next_epoch_digest, find_next_salt_digest,
    find_next_solution_range_digest, find_pre_digest, find_salt_digest, find_solution_range_digest,
};
use poc_consensus::solution::{Solution, SolutionPreDigest};

fn header(number: u64, digest: Vec<DigestItem>) -> Header {
    Header { hash: [1u8; 32], parent_hash: [2u8; 32], number, digest }
}

fn log(log: ConsensusLog) -> DigestItem {
    DigestItem::Consensus(POC_ENGINE_ID, log.encode())
}

fn pre_digest(slot: u64) -> SolutionPreDigest {
    SolutionPreDigest {
        slot,
        solution: Solution {
            public_key: [1u8; 32],
            nonce: 3,
            encoding: vec![1u8, 2, 3],
            signature: vec![4u8; 64],
            tag: [5u8; 8],
        },
    }
}

fn noise() -> Vec<DigestItem> {
    vec![
        DigestItem::Other(vec![1u8]),
        DigestItem::RuntimeEnvironmentUpdated,
        DigestItem::Consensus(*b"aura", vec![5u8; 9]),
        DigestItem::Seal(POC_ENGINE_ID, vec![5u8; 64]),
    ]
}

fn one_of_each() -> Vec<DigestItem> {
    let mut items = noise();
    items.push(log(ConsensusLog::NextEpochData(NextEpochDescriptor { randomness: [6u8; 32] })));
    items.push(log(ConsensusLog::NextConfigData(NextConfigDescriptor::V1 { c: (1, 2) })));
    items.push(log(ConsensusLog::SolutionRangeData(SolutionRangeDescriptor { solution_range: 1 })));
    items.push(log(ConsensusLog::NextSolutionRangeData(NextSolutionRangeDescriptor {
        solution_range: 2,
    })));
    items.push(log(ConsensusLog::SaltData(SaltDescriptor { salt: 3 })));
    items.push(log(ConsensusLog::NextSaltData(NextSaltDescriptor { salt: 4 })));
    items.push(pre_digest(9).to_item());
    items
}

#[test]
fn the_one_of_its_kind_is_found() {
    let header = header(1, one_of_each());
    assert_eq!(
        find_next_epoch_digest(&header),
        Ok(Some(NextEpochDescriptor { randomness: [6u8; 32] })),
    );
    assert_eq!(find_next_config_digest(&header), Ok(Some(NextConfigDescriptor::V1 { c: (1, 2) })));
    assert_eq!(
        find_solution_range_digest(&header),
        Ok(Some(SolutionRangeDescriptor { solution_range: 1 })),
    );
    assert_eq!(
        find_next_solution_range_digest(&header),
        Ok(Some(NextSolutionRangeDescriptor { solution_range: 2 })),
    );
    assert_eq!(find_salt_digest(&header), Ok(Some(SaltDescriptor { salt: 3 })));
    assert_eq!(find_next_salt_digest(&header), Ok(Some(NextSaltDescriptor { salt: 4 })));
    assert_eq!(find_pre_digest(&header), Ok(pre_digest(9)));
}

#[test]
fn nothing_is_found_among_the_rest() {
    let header = header(1, noise());
    assert_eq!(find_next_epoch_digest(&header), Ok(None));
    assert_eq!(find_next_config_digest(&header), Ok(None));
    assert_eq!(find_solution_range_digest(&header), Ok(None));
    assert_eq!(find_next_solution_range_digest(&header), Ok(None));
    assert_eq!(find_salt_digest(&header), Ok(None));
    assert_eq!(find_next_salt_digest(&header), Ok(None));
    assert_eq!(find_pre_digest(&header), Err(Error::NoPreRuntimeDigest));
}

#[test]
fn two_of_a_kind_are_too_many() {
    let mut items = one_of_each();
    items.extend(one_of_each());
    let header = header(1, items);
    assert_eq!(find_next_epoch_digest(&header), Err(Error::MultipleEpochChangeDigests));
    assert_eq!(find_next_config_digest(&header), Err(Error::MultipleConfigChangeDigests));
    assert_eq!(find_solution_range_digest(&header), Err(Error::MultipleSolutionRangeDigests));
    assert_eq!(
        find_next_solution_range_digest(&header),
        Err(Error::MultipleNextSolutionRangeDigests),
    );
    assert_eq!(find_salt_digest(&header), Err(Error::MultipleSaltDigests));
    assert_eq!(find_next_salt_digest(&header), Err(Error::MultipleNextSaltDigests));
    assert_eq!(find_pre_digest(&header), Err(Error::MultiplePreRuntimeDigests));
}

#[test]
fn genesis_has_a_dummy_pre_digest() {
    let expected = SolutionPreDigest { slot: 0, solution: Solution::get_for_genesis() };
    assert_eq!(find_pre_digest(&header(0, Vec::new())), Ok(expected.clone()));
    assert_eq!(find_pre_digest(&header(0, one_of_each())), Ok(expected));
}

#[test]
fn authored_pre_digest_is_found() {
    let mut items = vec![pre_digest(31).to_item()];
    items.extend(noise());
    assert_eq!(find_pre_digest(&header(5, items)), Ok(pre_digest(31)));
}
