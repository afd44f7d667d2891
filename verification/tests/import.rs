use poc_consensus::config::{ClientError, Config};
use poc_consensus::consensus_log::ConsensusLog;
use poc_consensus::digest::{DigestItem, Header};
use poc_consensus::digests::{NextConfigDescriptor, NextEpochDescriptor};
use poc_consensus::epoch::{Epoch, EpochDescriptor, EpochIdentifierPosition, PersistedEpoch};
use poc_consensus::error::{ConsensusError, Error, Reason};
use poc_consensus::import::{
    after_import, block_import, check_announcement, choose_fork, prune_finalized, AskBest,
    AskFinalized, AskParent, AskParentWeight, AskStatus, AskStoredEpoch, BestBlock, BlockStatus,
    Finalized, HandOn, ImportState, PoCBlockImport, Refused,
};
use poc_consensus::import_params::{
    AuxWrite, BlockImportParams, BlockOrigin, ForkChoiceStrategy, Intermediate, NewCache,
    PoCIntermediate,
};
use poc_consensus::primitives::{PoCEpochConfiguration, PoCGenesisConfiguration, POC_ENGINE_ID};
use poc_consensus::solution::{Solution, SolutionPreDigest};
use std::sync::Arc;

const HASH: [u8; 32] = [1u8; 32];
const PARENT: [u8; 32] = [2u8; 32];
const BEST: [u8; 32] = [3u8; 32];

type Changes = char;

fn config() -> Config {
    Config {
        genesis: PoCGenesisConfiguration {
            slot_duration: 6000,
            epoch_length: 100,
            c: (1, 4),
            randomness: [7u8; 32],
        },
    }
}

fn importer() -> PoCBlockImport<char, char> {
    PoCBlockImport::new(Arc::new('t'), 'i', config())
}

fn cache() -> NewCache {
    let mut cache = NewCache::new();
    cache.insert(*b"auth", vec![1u8, 2]);
    cache
}

fn offer(block: BlockImportParams<Changes>) -> AskStatus<Changes> {
    importer().import_block(block, HASH, cache())
}

fn at_slot(hash: [u8; 32], number: u64, slot: u64, logs: Vec<ConsensusLog>) -> Header {
    let pre_digest = SolutionPreDigest { slot, solution: Solution::get_for_genesis() };
    let mut digest = vec![pre_digest.to_item()];
    for log in logs.iter() {
        digest.push(DigestItem::Consensus(POC_ENGINE_ID, log.encode()));
    }
    Header { hash, parent_hash: PARENT, number, digest }
}

fn next_epoch() -> ConsensusLog {
    ConsensusLog::NextEpochData(NextEpochDescriptor { randomness: [9u8; 32] })
}

fn next_config() -> ConsensusLog {
    ConsensusLog::NextConfigData(NextConfigDescriptor::V1 { c: (2, 3) })
}

fn signaled(start_slot: u64) -> EpochDescriptor {
    EpochDescriptor::Signaled {
        position: EpochIdentifierPosition::Regular,
        hash: [8u8; 32],
        number: 1,
        start_slot,
        end_slot: start_slot + 100,
    }
}

/// A block at slot 310 with number 41, in an epoch that starts at `start_slot`.
fn block(start_slot: u64, logs: Vec<ConsensusLog>) -> BlockImportParams<Changes> {
    let mut block =
        BlockImportParams::new(BlockOrigin::NetworkBroadcast, at_slot(HASH, 41, 310, logs));
    block.body = Some(vec![vec![1u8]]);
    block.intermediate =
        Some(Intermediate::PoC(PoCIntermediate { epoch_descriptor: signaled(start_slot) }));
    block
}

fn status(state: AskStatus<Changes>) -> AskParent<Changes> {
    match state.answered(Ok(BlockStatus::Unknown)) {
        ImportState::Parent(next) => next,
        _ => panic!("the parent should have been asked for"),
    }
}

/// The state after the parent, at slot 305 with number 40, was found.
fn parent(block: BlockImportParams<Changes>) -> AskParentWeight<Changes> {
    let asked = status(offer(block));
    match asked.answered(Ok(Some(at_slot(PARENT, 40, 305, Vec::new())))) {
        ImportState::ParentWeight(next) => next,
        _ => panic!("the parent's weight should have been asked for"),
    }
}

fn best(block: BlockImportParams<Changes>, weight: u32) -> AskBest<Changes> {
    match parent(block).answered(Ok(Some(weight))) {
        ImportState::Best(next) => next,
        _ => panic!("the best block should have been asked for"),
    }
}

fn stored_epoch(logs: Vec<ConsensusLog>) -> AskStoredEpoch<Changes> {
    match best(block(308, logs), 39).answered(BestBlock { hash: PARENT, number: 40 }) {
        ImportState::StoredEpoch(next) => next,
        _ => panic!("the epoch should have been asked for"),
    }
}

fn epoch() -> Epoch {
    Epoch {
        epoch_index: 3,
        start_slot: 308,
        duration: 100,
        randomness: [8u8; 32],
        config: PoCEpochConfiguration { c: (1, 2) },
    }
}

fn finalized(logs: Vec<ConsensusLog>) -> AskFinalized<Changes> {
    match stored_epoch(logs).answered(&config(), Some(epoch())) {
        ImportState::Finalized(next) => next,
        _ => panic!("the finalized block should have been asked for"),
    }
}

fn refused(state: ImportState<Changes>) -> Refused {
    match state {
        ImportState::Refused(refused) => refused,
        _ => panic!("the block should have been refused"),
    }
}

fn handed_on(state: ImportState<Changes>) -> HandOn<Changes> {
    match state {
        ImportState::HandOn(hand_on) => hand_on,
        _ => panic!("the block should have been handed on"),
    }
}

fn engine(error: Error) -> ConsensusError {
    ConsensusError::ClientImport(Reason::Engine(error))
}

fn node(text: &str) -> Reason {
    Reason::Node(text.to_string())
}

#[test]
fn known_block_is_handed_on_unchanged() {
    let asked = offer(block(300, Vec::new()));
    let hand_on = handed_on(asked.answered(Ok(BlockStatus::InChain)));
    assert_eq!(hand_on.weight, None);
    assert!(!hand_on.epoch_changed);
    let params = hand_on.params().0;
    assert_eq!(params.fork_choice, Some(ForkChoiceStrategy::Custom(false)));
    assert_eq!(params.intermediate, None);
    assert!(params.auxiliary.is_empty());
    assert_eq!(params.body, Some(vec![vec![1u8]]));
}

#[test]
fn intermediate_must_be_there() {
    let mut without = block(300, Vec::new());
    without.intermediate = None;
    let asked = offer(without.clone());
    let end = refused(asked.answered(Ok(BlockStatus::InChain)));
    assert_eq!(end.error, ConsensusError::NoIntermediate);
    let end = refused(parent(without).answered(Ok(Some(5))));
    assert_eq!(end.error, ConsensusError::NoIntermediate);
    let mut other = block(300, Vec::new());
    other.intermediate = Some(Intermediate::Other);
    let end = refused(parent(other.clone()).answered(Ok(Some(5))));
    assert_eq!(end.error, ConsensusError::InvalidIntermediate);
    assert_eq!(other.take_intermediate(), Err(ConsensusError::InvalidIntermediate));
    assert_eq!(other.intermediate, Some(Intermediate::Other));
}

#[test]
fn status_must_be_known() {
    let asked = offer(block(300, Vec::new()));
    let end = refused(asked.answered(Err("down".to_string())));
    assert_eq!(end.error, ConsensusError::ClientImport(node("down")));
    assert!(!end.restore);
}

#[test]
fn parent_must_be_known() {
    let end = refused(
        status(offer(block(300, Vec::new()))).answered(Ok(None)),
    );
    assert_eq!(
        end.error,
        ConsensusError::ChainLookup(Reason::Engine(Error::ParentUnavailable(PARENT, HASH))),
    );
    let end = refused(
        status(offer(block(300, Vec::new())))
            .answered(Err("down".to_string())),
    );
    assert_eq!(end.error, ConsensusError::ChainLookup(node("down")));
}

#[test]
fn slot_must_increase() {
    for slot in [310u64, 311] {
        let asked = status(offer(block(300, Vec::new())));
        let end = refused(asked.answered(Ok(Some(at_slot(PARENT, 40, slot, Vec::new())))));
        assert_eq!(end.error, engine(Error::SlotMustIncrease(slot, 310)));
    }
    let asked = status(offer(block(300, Vec::new())));
    let state = asked.answered(Ok(Some(at_slot(PARENT, 40, 309, Vec::new()))));
    assert!(matches!(state, ImportState::ParentWeight(_)));
}

#[test]
fn genesis_weighs_nothing() {
    let asked = status(offer(block(300, vec![next_epoch()])));
    let genesis = Header { hash: PARENT, parent_hash: [0u8; 32], number: 0, digest: Vec::new() };
    match asked.answered(Ok(Some(genesis))) {
        ImportState::Best(next) => {
            assert_eq!(next.placed.parent_weight, 0);
            assert_eq!(next.placed.total_weight, 1);
        }
        _ => panic!("the best block should have been asked for"),
    }
}

#[test]
fn parent_must_have_a_weight() {
    let end = refused(parent(block(300, Vec::new())).answered(Ok(None)));
    assert_eq!(end.error, engine(Error::ParentBlockNoAssociatedWeight(HASH)));
    let end = refused(parent(block(300, Vec::new())).answered(Err("down".to_string())));
    assert_eq!(end.error, ConsensusError::ClientImport(node("down")));
}

#[test]
fn epoch_changes_where_expected() {
    let end = refused(parent(block(308, Vec::new())).answered(Ok(Some(5))));
    assert_eq!(end.error, engine(Error::ExpectedEpochChange(HASH, 310)));
    let end = refused(parent(block(308, vec![next_config()])).answered(Ok(Some(5))));
    assert_eq!(end.error, engine(Error::ExpectedEpochChange(HASH, 310)));
    let end = refused(parent(block(305, vec![next_epoch()])).answered(Ok(Some(5))));
    assert_eq!(end.error, engine(Error::UnexpectedEpochChange));
    let end = refused(parent(block(305, vec![next_epoch(), next_config()])).answered(Ok(Some(5))));
    assert_eq!(end.error, engine(Error::UnexpectedEpochChange));
    let end = refused(parent(block(305, vec![next_config()])).answered(Ok(Some(5))));
    assert_eq!(end.error, engine(Error::UnexpectedConfigChange));
}

#[test]
fn announcements_in_every_combination() {
    let epoch_expected = Err(Error::ExpectedEpochChange(HASH, 7));
    assert_eq!(check_announcement(true, true, true, HASH, 7), Ok(()));
    assert_eq!(check_announcement(true, true, false, HASH, 7), Ok(()));
    assert_eq!(check_announcement(true, false, true, HASH, 7), epoch_expected.clone());
    assert_eq!(check_announcement(true, false, false, HASH, 7), epoch_expected);
    assert_eq!(
        check_announcement(false, true, true, HASH, 7),
        Err(Error::UnexpectedEpochChange),
    );
    assert_eq!(
        check_announcement(false, true, false, HASH, 7),
        Err(Error::UnexpectedEpochChange),
    );
    assert_eq!(
        check_announcement(false, false, true, HASH, 7),
        Err(Error::UnexpectedConfigChange),
    );
    assert_eq!(check_announcement(false, false, false, HASH, 7), Ok(()));
}

#[test]
fn double_announcements_are_refused() {
    let end = refused(parent(block(308, vec![next_epoch(), next_epoch()])).answered(Ok(Some(5))));
    assert_eq!(end.error, engine(Error::MultipleEpochChangeDigests));
    let logs = vec![next_epoch(), next_config(), next_config()];
    let end = refused(parent(block(308, logs)).answered(Ok(Some(5))));
    assert_eq!(end.error, engine(Error::MultipleConfigChangeDigests));
}

#[test]
fn child_of_best_is_best() {
    let hand_on = handed_on(
        best(block(300, Vec::new()), 39).answered(BestBlock { hash: PARENT, number: 40 }),
    );
    assert_eq!(hand_on.weight, Some(40));
    assert!(!hand_on.epoch_changed);
    let params = hand_on.params().0;
    assert_eq!(params.fork_choice, Some(ForkChoiceStrategy::Custom(true)));
    assert_eq!(params.auxiliary, vec![AuxWrite::BlockWeight(HASH, 40)]);
    assert_eq!(params.intermediate, None);
}

#[test]
fn heaviest_chain_wins() {
    let decide = |best_weight: u32, best_number: u64| {
        let state = best(block(300, Vec::new()), 39)
            .answered(BestBlock { hash: BEST, number: best_number });
        match state {
            ImportState::BestWeight(next) => {
                handed_on(next.answered(Ok(Some(best_weight)))).params().0.fork_choice
            }
            _ => panic!("the best block's weight should have been asked for"),
        }
    };
    assert_eq!(decide(39, 100), Some(ForkChoiceStrategy::Custom(true)));
    assert_eq!(decide(41, 1), Some(ForkChoiceStrategy::Custom(false)));
    assert_eq!(decide(40, 40), Some(ForkChoiceStrategy::Custom(true)));
    assert_eq!(decide(40, 41), Some(ForkChoiceStrategy::Custom(false)));
    assert_eq!(decide(40, 42), Some(ForkChoiceStrategy::Custom(false)));
}

#[test]
fn better_chain_is_heavier_or_as_heavy_and_longer() {
    assert!(choose_fork(2, 0, 1, 9));
    assert!(choose_fork(2, 5, 2, 4));
    assert!(!choose_fork(2, 5, 2, 5));
    assert!(!choose_fork(1, 9, 2, 0));
}

#[test]
fn best_block_must_have_a_weight() {
    let ask = || match best(block(300, Vec::new()), 39)
        .answered(BestBlock { hash: BEST, number: 40 })
    {
        ImportState::BestWeight(next) => next,
        _ => panic!("the best block's weight should have been asked for"),
    };
    let end = refused(ask().answered(Ok(None)));
    assert_eq!(end.error, ConsensusError::ChainLookup(Reason::NoBestWeight));
    let end = refused(ask().answered(Err("down".to_string())));
    assert_eq!(end.error, ConsensusError::ChainLookup(node("down")));
}

#[test]
fn launched_epoch_follows_that_of_the_block() {
    let next = finalized(vec![next_epoch()]);
    assert_eq!(
        next.epoch,
        PersistedEpoch::Regular(Epoch {
            epoch_index: 4,
            start_slot: 408,
            duration: 100,
            randomness: [9u8; 32],
            config: PoCEpochConfiguration { c: (1, 2) },
        }),
    );
    match finalized(vec![next_epoch(), next_config()]).epoch {
        PersistedEpoch::Regular(epoch) => {
            assert_eq!(epoch.config, PoCEpochConfiguration { c: (2, 3) });
        }
        _ => panic!("there is one epoch to record"),
    }
}

#[test]
fn epoch_must_be_on_record() {
    let end = refused(stored_epoch(vec![next_epoch()]).answered(&config(), None));
    assert_eq!(end.error, engine(Error::FetchEpoch(PARENT)));
    assert!(!end.restore);
}

#[test]
fn epoch_is_launched_and_put_on_record() {
    let header = at_slot([5u8; 32], 30, 290, Vec::new());
    let state = finalized(vec![next_epoch()]).answered([5u8; 32], 30, Ok(Some(header)));
    let prune = match state {
        ImportState::Prune(next) => next,
        _ => panic!("the tree should have been pruned"),
    };
    assert_eq!(prune.finalized, Finalized { hash: [5u8; 32], number: 30, slot: 290 });
    let launch = match prune.answered(Ok(())) {
        ImportState::Launch(next) => next,
        _ => panic!("the epoch should have been launched"),
    };
    let hand_on = handed_on(launch.answered(Ok(())));
    assert!(hand_on.epoch_changed);
    let params = hand_on.params().0;
    assert_eq!(params.auxiliary, vec![AuxWrite::EpochChanges, AuxWrite::BlockWeight(HASH, 40)]);
    assert_eq!(params.fork_choice, Some(ForkChoiceStrategy::Custom(true)));
}

#[test]
fn failed_launch_restores_the_tree() {
    let end = refused(
        finalized(vec![next_epoch()]).answered([5u8; 32], 30, Err("down".to_string())),
    );
    assert_eq!(end.error, ConsensusError::ClientImport(node("down")));
    assert!(end.restore);
    let prune = || {
        let header = at_slot([5u8; 32], 30, 290, Vec::new());
        match finalized(vec![next_epoch()]).answered([5u8; 32], 30, Ok(Some(header))) {
            ImportState::Prune(next) => next,
            _ => panic!("the tree should have been pruned"),
        }
    };
    let end = refused(prune().answered(Err("broken".to_string())));
    assert_eq!(end.error, ConsensusError::ClientImport(node("broken")));
    assert!(end.restore);
    let launch = match prune().answered(Ok(())) {
        ImportState::Launch(next) => next,
        _ => panic!("the epoch should have been launched"),
    };
    let end = refused(launch.answered(Err("duplicate".to_string())));
    assert_eq!(end.error, ConsensusError::ClientImport(node("duplicate")));
    assert!(end.restore);
}

#[test]
fn missing_best_weight_restores_the_tree() {
    let ask = |logs: Vec<ConsensusLog>, start_slot: u64| {
        let best_block = BestBlock { hash: BEST, number: 40 };
        let mut state = best(block(start_slot, logs), 39).answered(best_block);
        loop {
            state = match state {
                ImportState::StoredEpoch(next) => next.answered(&config(), Some(epoch())),
                ImportState::Finalized(next) => {
                    let header = at_slot([5u8; 32], 30, 290, Vec::new());
                    next.answered([5u8; 32], 30, Ok(Some(header)))
                }
                ImportState::Prune(next) => next.answered(Ok(())),
                ImportState::Launch(next) => next.answered(Ok(())),
                ImportState::BestWeight(next) => return next,
                _ => panic!("the best block's weight should have been asked for"),
            }
        }
    };
    let end = refused(ask(vec![next_epoch()], 308).answered(Ok(None)));
    assert_eq!(end.error, ConsensusError::ChainLookup(Reason::NoBestWeight));
    assert!(end.restore);
    let end = refused(ask(vec![next_epoch()], 308).answered(Err("down".to_string())));
    assert_eq!(end.error, ConsensusError::ChainLookup(node("down")));
    assert!(end.restore);
    let end = refused(ask(Vec::new(), 300).answered(Ok(None)));
    assert!(!end.restore);
}

#[test]
fn failed_import_restores_the_tree_that_changed() {
    let done = after_import(true, Ok(5u8));
    assert_eq!(done.result, Ok(5u8));
    assert!(!done.restore);
    for error in [
        ConsensusError::Other("full".to_string()),
        ConsensusError::InvalidAuthoritiesSet,
        ConsensusError::ClientImport(node("full")),
    ] {
        let failed = after_import::<u8>(true, Err(error.clone()));
        assert_eq!(failed.result, Err(error.clone()));
        assert!(failed.restore);
        let failed = after_import::<u8>(false, Err(error));
        assert!(!failed.restore);
    }
}

#[test]
fn finalized_block_sets_the_limit_of_pruning() {
    let header = at_slot([5u8; 32], 30, 290, Vec::new());
    assert_eq!(
        prune_finalized([5u8; 32], 30, Ok(Some(header))),
        Ok(Finalized { hash: [5u8; 32], number: 30, slot: 290 }),
    );
    let genesis = Header { hash: BEST, parent_hash: [0u8; 32], number: 0, digest: Vec::new() };
    assert_eq!(
        prune_finalized(BEST, 0, Ok(Some(genesis))),
        Ok(Finalized { hash: BEST, number: 0, slot: 0 }),
    );
    assert_eq!(
        prune_finalized(BEST, 0, Err("down".to_string())),
        Err(ConsensusError::ClientImport(node("down"))),
    );
}

#[test]
fn chain_weighs_as_many_blocks_as_it_has() {
    let mut weight = 0u32;
    for n in 1u32..6 {
        let hand_on = handed_on(
            best(block(300, Vec::new()), weight).answered(BestBlock { hash: PARENT, number: 40 }),
        );
        weight = hand_on.weight.unwrap();
        assert_eq!(weight, n);
    }
}

#[test]
fn check_is_left_to_the_next_importer() {
    assert_eq!(importer().check_block(Ok(3u8)), Ok(3u8));
    let error = ConsensusError::ClientImport(node("bad"));
    assert_eq!(importer().check_block::<u8>(Err(error.clone())), Err(error));
}

#[test]
fn importer_and_link_share_the_tree() {
    let tree = Arc::new('t');
    let ask = block_import(config(), 'i', Ok(tree.clone())).unwrap_or_else(|_| panic!("refused"));
    let header = at_slot([5u8; 32], 30, 290, Vec::new());
    let prune = ask
        .answered([5u8; 32], 30, Ok(Some(header)))
        .unwrap_or_else(|_| panic!("refused"));
    assert_eq!(prune.finalized, Finalized { hash: [5u8; 32], number: 30, slot: 290 });
    let (import, link) = prune.answered(Ok(())).unwrap_or_else(|_| panic!("refused"));
    assert!(Arc::ptr_eq(&import.epoch_changes, &tree));
    assert!(Arc::ptr_eq(link.epoch_changes(), &tree));
    assert_eq!(import.inner, 'i');
    assert_eq!(import.config, config());
    assert_eq!(link.config(), &config());
    let copy = import.clone();
    assert!(Arc::ptr_eq(&copy.epoch_changes, &tree));
    assert_eq!((copy.inner, copy.config), ('i', config()));
}

#[test]
fn importer_needs_a_tree_that_is_loaded_and_pruned() {
    let down = || ClientError::Node("down".to_string());
    let failed = block_import::<char, char>(config(), 'i', Err(down()));
    assert!(matches!(failed, Err(e) if e == down()));
    let ask = || {
        block_import(config(), 'i', Ok(Arc::new('t'))).unwrap_or_else(|_| panic!("refused"))
    };
    let failure = ClientError::Consensus(ConsensusError::ClientImport(node("gone")));
    let failed = ask().answered([5u8; 32], 30, Err("gone".to_string()));
    assert!(matches!(failed, Err(e) if e == failure));
    let header = at_slot([5u8; 32], 30, 290, Vec::new());
    let prune = ask()
        .answered([5u8; 32], 30, Ok(Some(header)))
        .unwrap_or_else(|_| panic!("refused"));
    assert!(matches!(prune.answered(Err("gone".to_string())), Err(e) if e == failure));
}

#[test]
fn cache_is_handed_on() {
    let hand_on = handed_on(
        best(block(300, Vec::new()), 39).answered(BestBlock { hash: PARENT, number: 40 }),
    );
    assert_eq!(hand_on.params().1, cache());
    let hand_on = handed_on(offer(block(300, Vec::new())).answered(Ok(BlockStatus::InChain)));
    assert_eq!(hand_on.params().1, cache());
}

#[test]
fn known_post_hash_is_used() {
    let mut known = block(300, Vec::new());
    assert_eq!(offer(known.clone()).offered.hash, HASH);
    known.post_hash = Some([4u8; 32]);
    assert_eq!(offer(known).offered.hash, [4u8; 32]);
}

#[test]
fn best_block_does_not_depend_on_the_order() {
    let blocks = [(3u32, 7u64), (5, 2), (5, 4), (4, 9)];
    let orders = [[0usize, 1, 2, 3], [3, 2, 1, 0], [2, 0, 3, 1], [1, 3, 0, 2]];
    for order in orders.iter() {
        let mut best = (1u32, 1u64);
        for i in order.iter() {
            let (weight, number) = blocks[*i];
            if choose_fork(weight, number, best.0, best.1) {
                best = (weight, number);
            }
        }
        assert_eq!(best, (5, 4));
    }
}
