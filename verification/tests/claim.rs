use poc_consensus::claim::{
    backoff_query, block_list_query, pre_digest_data, proposing_parent_slot, salt_source,
    should_backoff, solution_range_source, BackoffQuery, Claim, Considered, SlotClaim, Source,
    Verified,
};
use poc_consensus::consensus_log::{
    ConsensusLog, NextSaltDescriptor, NextSolutionRangeDescriptor,
};
use poc_consensus::digest::{DigestItem, Header};
use poc_consensus::epoch::{Epoch, EpochDescriptor, ViableEpoch};
use poc_consensus::error::Error;
use poc_consensus::import_params::{
    block_import_params, BlockOrigin, Intermediate, PoCIntermediate, StateAction,
};
use poc_consensus::keys::{is_sealed_by, FarmerKey};
use poc_consensus::primitives::{PoCEpochConfiguration, POC_ENGINE_ID};
use poc_consensus::scan::find_pre_digest;
use poc_consensus::solution::{Solution, SolutionPreDigest};

fn header(number: u64, digest: Vec<DigestItem>) -> Header {
    Header { hash: [1u8; 32], parent_hash: [2u8; 32], number, digest }
}

fn next_range(solution_range: u64) -> DigestItem {
    let log = ConsensusLog::NextSolutionRangeData(NextSolutionRangeDescriptor { solution_range });
    DigestItem::Consensus(POC_ENGINE_ID, log.encode())
}

fn next_salt(salt: u64) -> DigestItem {
    let log = ConsensusLog::NextSaltData(NextSaltDescriptor { salt });
    DigestItem::Consensus(POC_ENGINE_ID, log.encode())
}

fn epoch() -> Epoch {
    Epoch {
        epoch_index: 3,
        start_slot: 300,
        duration: 100,
        randomness: [1u8; 32],
        config: PoCEpochConfiguration { c: (1, 2) },
    }
}

fn solution(nonce: u64) -> Solution {
    Solution {
        public_key: [1u8; 32],
        nonce,
        encoding: vec![1u8, 2, 3],
        signature: vec![4u8; 64],
        tag: [5u8; 8],
    }
}

fn secret() -> Vec<u8> {
    let mut bytes = vec![0u8; 64];
    bytes[0] = 5;
    bytes
}

fn attempt() -> SlotClaim {
    SlotClaim::begin(5, Some(ViableEpoch::Signaled(epoch())), Some(1000), Some(255)).unwrap()
}

#[test]
fn header_comes_before_the_runtime() {
    let parent = header(4, vec![next_range(10), next_salt(20)]);
    assert_eq!(solution_range_source(&parent), Source::Header(10));
    assert_eq!(salt_source(&parent), Source::Header(20));
    assert_eq!(solution_range_source(&parent).resolve(Some(7)), Some(10));
}

#[test]
fn runtime_is_asked_where_the_header_says_nothing() {
    let parent = header(4, Vec::new());
    assert_eq!(solution_range_source(&parent), Source::Runtime);
    assert_eq!(salt_source(&parent), Source::Runtime);
    assert_eq!(Source::Runtime.resolve(Some(7)), Some(7));
    assert_eq!(Source::Runtime.resolve(None), None);
}

#[test]
fn double_announcements_give_nothing() {
    let parent = header(4, vec![next_range(10), next_range(10), next_salt(1), next_salt(2)]);
    assert_eq!(solution_range_source(&parent), Source::Ambiguous);
    assert_eq!(salt_source(&parent), Source::Ambiguous);
    assert_eq!(Source::Ambiguous.resolve(Some(7)), None);
}

#[test]
fn attempt_needs_epoch_range_and_salt() {
    let found = ViableEpoch::Signaled(epoch());
    assert_eq!(
        SlotClaim::begin(5, Some(found), Some(1000), Some(255)),
        Some(SlotClaim { slot: 5, epoch: epoch(), solution_range: 1000, salt: 255 }),
    );
    assert_eq!(SlotClaim::begin(5, None, Some(1000), Some(255)), None);
    assert_eq!(SlotClaim::begin(5, Some(found), None, Some(255)), None);
    assert_eq!(SlotClaim::begin(5, Some(found), Some(1000), None), None);
}

#[test]
fn farmers_are_told_of_the_slot() {
    let info = attempt().announcement();
    assert_eq!(info.slot, 5);
    assert_eq!(info.challenge, [155, 129, 157, 3, 244, 179, 96, 55]);
    assert_eq!(info.salt, [255u8, 0, 0, 0, 0, 0, 0, 0]);
    assert_eq!(info.next_salt, Some([0u8, 1, 0, 0, 0, 0, 0, 0]));
    assert_eq!(info.solution_range, 1000);
    let check = attempt().check();
    assert_eq!(check.epoch, epoch());
    assert_eq!(check.salt, [255u8, 0, 0, 0, 0, 0, 0, 0]);
    assert_eq!((check.slot, check.solution_range), (5, 1000));
}

#[test]
fn block_list_is_asked_at_the_parent() {
    let query = block_list_query(&header(4, Vec::new()), &solution(1));
    assert_eq!((query.at, query.farmer), ([1u8; 32], [1u8; 32]));
}

#[test]
fn farmer_in_block_list_is_passed_over() {
    assert!(matches!(
        attempt().consider(solution(1), &secret(), Ok(true)),
        Considered::PassedOver,
    ));
    assert!(matches!(attempt().consider(solution(1), &[], Ok(true)), Considered::PassedOver));
}

#[test]
fn slot_is_given_up_on_failure() {
    assert!(matches!(
        attempt().consider(solution(1), &secret(), Err("down".to_string())),
        Considered::GivenUp,
    ));
    assert!(matches!(attempt().consider(solution(1), &[1u8], Ok(false)), Considered::GivenUp));
}

#[test]
fn first_good_solution_claims_the_slot() {
    let attempt = attempt();
    let verdicts = [Err(Error::BadSolutionSignature(5)), Ok(()), Ok(())];
    let mut claimed: Option<Claim> = None;
    for (i, verdict) in verdicts.iter().enumerate() {
        match attempt.consider(solution(i as u64), &secret(), Ok(false)) {
            Considered::ToVerify(solution, key) => {
                match attempt.decide(solution, key, verdict.clone()) {
                    Verified::Claimed(claim) => {
                        claimed = Some(claim);
                        break;
                    }
                    Verified::PassedOver => {}
                }
            }
            _ => panic!("the solution should have been verified"),
        }
    }
    let claim = claimed.unwrap();
    assert_eq!(claim.pre_digest, SolutionPreDigest { slot: 5, solution: solution(1) });
    assert_eq!(claim.key.public(), FarmerKey::from_bytes(&secret()).unwrap().public());
}

#[test]
fn claimed_block_is_sealed_and_carries_its_epoch() {
    let key = FarmerKey::from_bytes(&secret()).unwrap();
    let public = key.public();
    let claim = Claim {
        pre_digest: SolutionPreDigest { slot: 5, solution: solution(1) },
        key,
    };
    let digest = pre_digest_data(&claim);
    let header = header(4, digest);
    assert_eq!(find_pre_digest(&header), Ok(claim.pre_digest.clone()));
    let descriptor = EpochDescriptor::UnimportedGenesis(5);
    let block =
        block_import_params(header.clone(), &[9u8; 32], vec![vec![1u8]], 'c', &claim, descriptor);
    assert_eq!(block.origin, BlockOrigin::Own);
    assert_eq!(block.header, header);
    assert_eq!(block.body, Some(vec![vec![1u8]]));
    assert_eq!(block.state_action, StateAction::ApplyChanges('c'));
    assert_eq!(
        block.intermediate,
        Some(Intermediate::PoC(PoCIntermediate { epoch_descriptor: descriptor })),
    );
    assert_eq!(block.post_digests.len(), 1);
    assert!(is_sealed_by(&block.post_digests[0], &[9u8; 32], &public));
    assert!(matches!(
        &block.post_digests[0],
        DigestItem::Seal(id, data) if *id == POC_ENGINE_ID && data.len() == 64,
    ));
    assert_eq!(block.justifications, None);
    assert_eq!(block.fork_choice, None);
    assert_eq!(block.post_hash, None);
    assert!(block.auxiliary.is_empty());
}

#[test]
fn backoff_is_asked_with_the_head_of_the_chain() {
    let pre_digest = SolutionPreDigest { slot: 8, solution: solution(1) };
    let head = header(4, vec![pre_digest.to_item()]);
    assert_eq!(
        backoff_query(true, 12, &head, 2),
        Some(BackoffQuery {
            chain_head_number: 4,
            chain_head_slot: 8,
            finalized_number: 2,
            slot_now: 12,
        }),
    );
    assert_eq!(backoff_query(false, 12, &head, 2), None);
    assert_eq!(backoff_query(true, 12, &header(4, Vec::new()), 2), None);
    assert!(should_backoff(Some(true)));
    assert!(!should_backoff(Some(false)));
    assert!(!should_backoff(None));
    assert_eq!(proposing_parent_slot(&head), Some(8));
    assert_eq!(proposing_parent_slot(&header(4, Vec::new())), None);
}
