use poc_consensus::challenge::{
    challenge_input, challenge_of_digest, create_global_challenge, following_salt, new_slot_info,
    slot_info, Announcing, NewSlotInfo,
};
use poc_consensus::epoch::Epoch;
use poc_consensus::primitives::PoCEpochConfiguration;

fn epoch() -> Epoch {
    Epoch {
        epoch_index: 3,
        start_slot: 300,
        duration: 100,
        randomness: [1u8; 32],
        config: PoCEpochConfiguration { c: (1, 2) },
    }
}

#[test]
fn challenge_is_a_digest_of_randomness_and_slot() {
    let mut data = vec![1u8; 32];
    data.extend_from_slice(&[5u8, 0, 0, 0, 0, 0, 0, 0]);
    assert_eq!(challenge_input(&epoch(), 5), data);
    assert_eq!(create_global_challenge(&epoch(), 5), [155, 129, 157, 3, 244, 179, 96, 55]);
}

#[test]
fn challenge_is_the_start_of_the_digest() {
    let mut digest = [0u8; 32];
    for i in 0..32 {
        digest[i] = i as u8;
    }
    assert_eq!(challenge_of_digest(&digest), [0, 1, 2, 3, 4, 5, 6, 7]);
}

#[test]
fn challenges_of_slots_differ() {
    assert!(create_global_challenge(&epoch(), 5) != create_global_challenge(&epoch(), 6));
}

#[test]
fn next_salt_is_the_next_number() {
    assert_eq!(following_salt(&[4u8, 0, 0, 0, 0, 0, 0, 0]), [5u8, 0, 0, 0, 0, 0, 0, 0]);
    assert_eq!(following_salt(&[255u8, 255, 0, 0, 0, 0, 0, 0]), [0u8, 0, 1, 0, 0, 0, 0, 0]);
}

#[test]
fn slot_info_tells_everything() {
    let expected = NewSlotInfo {
        slot: 5,
        challenge: [155, 129, 157, 3, 244, 179, 96, 55],
        salt: [255u8, 0, 0, 0, 0, 0, 0, 0],
        next_salt: Some([0u8, 1, 0, 0, 0, 0, 0, 0]),
        solution_range: 1000,
    };
    assert_eq!(new_slot_info(5, &epoch(), [255u8, 0, 0, 0, 0, 0, 0, 0], 1000), expected);
    assert_eq!(
        slot_info(5, expected.challenge, [255u8, 0, 0, 0, 0, 0, 0, 0], 1000),
        expected,
    );
}

/// Tells the subscribers of a slot, where `live` says which of them are still there. Gives the
/// subscribers in the order in which they were told, and those that are kept.
fn tell(senders: Vec<char>, live: &[char]) -> (Vec<char>, Vec<char>) {
    let info = new_slot_info(5, &epoch(), [255u8, 0, 0, 0, 0, 0, 0, 0], 1000);
    let mut told = Vec::new();
    let mut announcing = Announcing::new(info, senders);
    while let Some(sender) = announcing.current() {
        assert_eq!(announcing.info(), info);
        told.push(*sender);
        let delivered = live.contains(sender);
        announcing = announcing.answered(delivered);
    }
    (told, announcing.subscribers())
}

#[test]
fn every_subscriber_is_told_once() {
    let all = vec!['a', 'b', 'c', 'd', 'e'];
    for live in [&['b', 'e'][..], &['a', 'b', 'c', 'd', 'e'][..], &['a', 'e'][..], &[][..]] {
        let (told, kept) = tell(all.clone(), live);
        assert_eq!(told, all);
        assert_eq!(kept, live.to_vec());
    }
    assert_eq!(tell(Vec::new(), &[]), (Vec::new(), Vec::new()));
}

#[test]
fn subscribers_that_wait_stay() {
    let info = new_slot_info(5, &epoch(), [255u8, 0, 0, 0, 0, 0, 0, 0], 1000);
    let announcing = Announcing::new(info, vec!['a', 'b', 'c']).answered(false);
    assert_eq!(announcing.subscribers(), vec!['b', 'c']);
}
