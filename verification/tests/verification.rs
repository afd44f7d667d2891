use poc_consensus::check_inherents::{
    check_inherents, inherents_checked, CheckInherentsResult, InherentsState,
};
use poc_consensus::config::Config;
use poc_consensus::consensus_log::{ConsensusLog, SaltDescriptor, SolutionRangeDescriptor};
use poc_consensus::digest::{DigestItem, Header};
use poc_consensus::digests::CompatibleDigestItem;
use poc_consensus::epoch::{Epoch, EpochDescriptor, EpochIdentifierPosition};
use poc_consensus::equivocation::{
    check_and_report_equivocation, equivocation_best_chain, equivocation_searched,
    equivocation_submitted, EquivocationCheck, EquivocationState,
};
use poc_consensus::error::Error;
use poc_consensus::import_params::{
    BlockImportParams, BlockOrigin, Intermediate, PoCIntermediate, StateAction,
};
use poc_consensus::inherents::PoCInherentData;
use poc_consensus::primitives::{PoCEpochConfiguration, PoCGenesisConfiguration, POC_ENGINE_ID};
use poc_consensus::scan::find_pre_digest;
use poc_consensus::solution::{Solution, SolutionPreDigest};
use poc_consensus::verification::{
    Accepted, AskBlockList, AskCheck, AskDescriptor, AskEpoch, AskEquivocation, CheckedHeader,
    IncomingBlock, PoCVerifier, VerifiedHeaderInfo, VerifyState,
};
use sp_inherents::InherentData;

const HASH: [u8; 32] = [1u8; 32];
const PARENT: [u8; 32] = [2u8; 32];
const FARMER: [u8; 32] = [6u8; 32];

fn engine() -> PoCVerifier {
    PoCVerifier::new(Config {
        genesis: PoCGenesisConfiguration {
            slot_duration: 6000,
            epoch_length: 100,
            c: (1, 4),
            randomness: [7u8; 32],
        },
    })
}

fn epoch() -> Epoch {
    Epoch {
        epoch_index: 3,
        start_slot: 300,
        duration: 100,
        randomness: [8u8; 32],
        config: PoCEpochConfiguration { c: (1, 2) },
    }
}

fn signaled() -> EpochDescriptor {
    EpochDescriptor::Signaled {
        position: EpochIdentifierPosition::Regular,
        hash: [8u8; 32],
        number: 1,
        start_slot: 300,
        end_slot: 400,
    }
}

fn pre_digest() -> SolutionPreDigest {
    SolutionPreDigest {
        slot: 310,
        solution: Solution {
            public_key: FARMER,
            nonce: 3,
            encoding: vec![1u8, 2, 3],
            signature: vec![4u8; 64],
            tag: [5u8; 8],
        },
    }
}

fn range() -> ConsensusLog {
    ConsensusLog::SolutionRangeData(SolutionRangeDescriptor { solution_range: 1000 })
}

fn salt() -> ConsensusLog {
    ConsensusLog::SaltData(SaltDescriptor { salt: 258 })
}

fn with_logs(logs: Vec<ConsensusLog>) -> IncomingBlock {
    let mut digest = vec![pre_digest().to_item()];
    for log in logs.iter() {
        digest.push(DigestItem::Consensus(POC_ENGINE_ID, log.encode()));
    }
    digest.push(DigestItem::poc_seal([9u8; 64]));
    IncomingBlock {
        origin: BlockOrigin::NetworkBroadcast,
        header: Header { hash: HASH, parent_hash: PARENT, number: 41, digest },
        justifications: Some(vec![(*b"FRNK", vec![3u8])]),
        body: Some(vec![vec![1u8], vec![2u8]]),
    }
}

fn block() -> IncomingBlock {
    with_logs(vec![range(), salt()])
}

fn descriptor(block: IncomingBlock) -> AskDescriptor {
    match engine().verify(block).answered(Ok(312)) {
        VerifyState::ParentNumber(next) => match next.answered(Ok(40)) {
            VerifyState::Descriptor(next) => next,
            _ => panic!("the epoch should have been looked up"),
        },
        _ => panic!("the parent should have been asked for"),
    }
}

fn stored(block: IncomingBlock) -> AskEpoch {
    match descriptor(block).answered(Ok(Some(signaled()))) {
        VerifyState::StoredEpoch(next) => next,
        _ => panic!("the record of the epoch should have been asked for"),
    }
}

fn block_list(block: IncomingBlock) -> AskBlockList {
    match stored(block).answered(&engine(), Some(epoch())) {
        VerifyState::BlockList(next) => next,
        _ => panic!("the block list should have been asked for"),
    }
}

fn check(block: IncomingBlock) -> AskCheck {
    match block_list(block).answered(Ok(false)) {
        VerifyState::Check(next) => next,
        _ => panic!("the header should have been checked"),
    }
}

/// The header without its seal, and what was found in it.
fn checked() -> CheckedHeader {
    let mut pre_header = block().header;
    let seal = pre_header.digest.pop().unwrap();
    CheckedHeader::Checked(
        pre_header,
        VerifiedHeaderInfo { pre_digest: pre_digest().to_item(), seal },
    )
}

fn equivocation(block: IncomingBlock) -> AskEquivocation {
    match check(block).answered(Ok(checked())) {
        VerifyState::Equivocation(next) => next,
        _ => panic!("equivocation should have been checked"),
    }
}

fn accepted(state: VerifyState) -> Accepted {
    match state {
        VerifyState::Accepted(accepted) => accepted,
        _ => panic!("the block should have been accepted"),
    }
}

fn refused(state: VerifyState) -> Error {
    match state {
        VerifyState::Refused(error) => error,
        _ => panic!("the block should have been refused"),
    }
}

#[test]
fn good_block_is_accepted_whole() {
    let asked = match equivocation(block()).answered() {
        VerifyState::Inherents(next) => next,
        _ => panic!("the inherents should have been checked"),
    };
    assert_eq!(asked.parent_hash, PARENT);
    assert_eq!(asked.body, vec![vec![1u8], vec![2u8]]);
    assert_eq!(asked.slot, 310);
    let params: BlockImportParams<u8> = accepted(asked.answered(Ok(()))).params().0;
    let mut pre_header = block().header;
    let seal = pre_header.digest.pop().unwrap();
    assert_eq!(params.origin, BlockOrigin::NetworkBroadcast);
    assert_eq!(params.header, pre_header);
    assert_eq!(params.post_digests, vec![seal]);
    assert_eq!(params.body, Some(vec![vec![1u8], vec![2u8]]));
    assert_eq!(params.justifications, Some(vec![(*b"FRNK", vec![3u8])]));
    assert_eq!(
        params.intermediate,
        Some(Intermediate::PoC(PoCIntermediate { epoch_descriptor: signaled() })),
    );
    assert_eq!(params.post_hash, Some(HASH));
    assert_eq!(params.state_action, StateAction::Execute);
    assert_eq!(params.fork_choice, None);
    assert!(params.auxiliary.is_empty());
}

#[test]
fn verified_block_changes_no_cache() {
    let mut header_only = block();
    header_only.body = None;
    assert_eq!(accepted(equivocation(header_only).answered()).params::<u8>().1, None);
}

#[test]
fn header_alone_needs_no_inherents() {
    let mut header_only = block();
    header_only.body = None;
    let params: BlockImportParams<u8> =
        accepted(equivocation(header_only).answered()).params().0;
    assert_eq!(params.body, None);
    assert_eq!(params.post_hash, Some(HASH));
}

#[test]
fn verified_epoch_is_the_one_imported() {
    let mut header_only = block();
    header_only.body = None;
    let mut params: BlockImportParams<u8> =
        accepted(equivocation(header_only).answered()).params().0;
    assert_eq!(
        params.take_intermediate(),
        Ok(PoCIntermediate { epoch_descriptor: signaled() }),
    );
    assert_eq!(params.intermediate, None);
}

#[test]
fn providers_and_parent_are_needed() {
    assert_eq!(
        refused(engine().verify(block()).answered(Err("down".to_string()))),
        Error::Client("down".to_string()),
    );
    match engine().verify(block()).answered(Ok(312)) {
        VerifyState::ParentNumber(next) => assert_eq!(
            refused(next.answered(Err("gone".to_string()))),
            Error::FetchParentHeader("gone".to_string()),
        ),
        _ => panic!("the parent should have been asked for"),
    }
}

#[test]
fn pre_digest_is_needed() {
    let mut incoming = block();
    incoming.header.digest.remove(0);
    match engine().verify(incoming).answered(Ok(312)) {
        VerifyState::ParentNumber(next) => {
            assert_eq!(refused(next.answered(Ok(40))), Error::NoPreRuntimeDigest);
        }
        _ => panic!("the parent should have been asked for"),
    }
}

#[test]
fn epoch_is_looked_up_for_the_slot_of_the_block() {
    let asked = descriptor(block());
    assert_eq!((asked.parent_number, asked.slot, asked.farmer), (40, 310, FARMER));
    assert_eq!(
        refused(asked.answered(Err("broken".to_string()))),
        Error::ForkTree("broken".to_string()),
    );
    assert_eq!(refused(descriptor(block()).answered(Ok(None))), Error::FetchEpoch(PARENT));
    assert_eq!(
        refused(stored(block()).answered(&engine(), None)),
        Error::FetchEpoch(PARENT),
    );
}

#[test]
fn range_and_salt_are_needed() {
    let fault = |logs: Vec<ConsensusLog>| {
        refused(stored(with_logs(logs)).answered(&engine(), Some(epoch())))
    };
    assert_eq!(fault(vec![salt()]), Error::MissingSolutionRange(HASH));
    assert_eq!(fault(vec![range()]), Error::MissingSalt(HASH));
    assert_eq!(fault(Vec::new()), Error::MissingSolutionRange(HASH));
    assert_eq!(fault(vec![range(), range(), salt()]), Error::MultipleSolutionRangeDigests);
    assert_eq!(fault(vec![range(), salt(), salt()]), Error::MultipleSaltDigests);
}

#[test]
fn farmer_in_block_list_is_kept_out() {
    assert_eq!(
        refused(block_list(block()).answered(Ok(true))),
        Error::FarmerInBlockList(FARMER),
    );
    assert_eq!(
        refused(block_list(block()).answered(Err("down".to_string()))),
        Error::RuntimeApi("down".to_string()),
    );
}

#[test]
fn header_is_checked_against_what_it_holds() {
    let asked = check(block());
    let params = asked.params();
    assert_eq!(params.header, &block().header);
    assert_eq!(params.pre_digest, Some(pre_digest()));
    assert_eq!(params.slot_now, 313);
    assert_eq!(params.epoch, epoch());
    assert_eq!(params.solution_range, 1000);
    assert_eq!(params.salt, [2u8, 1, 0, 0, 0, 0, 0, 0]);
}

#[test]
fn bad_header_is_refused() {
    assert_eq!(
        refused(check(block()).answered(Err(Error::BadSignature(HASH)))),
        Error::BadSignature(HASH),
    );
    let deferred = CheckedHeader::Deferred(block().header, 400);
    assert_eq!(
        refused(check(block()).answered(Ok(deferred))),
        Error::TooFarInFuture(HASH),
    );
}

#[test]
fn equivocation_is_checked_for_the_author() {
    let asked = equivocation(block());
    let check = asked.check();
    assert_eq!((check.slot_now, check.slot, check.author), (312, 310, FARMER));
    assert_eq!(check.header, &block().header);
    assert_eq!(check.origin, BlockOrigin::NetworkBroadcast);
}

#[test]
fn inherents_get_the_slot_of_the_block() {
    let asked = match equivocation(block()).answered() {
        VerifyState::Inherents(next) => next,
        _ => panic!("the inherents should have been checked"),
    };
    let mut created = InherentData::new();
    created.poc_replace_inherent_data(312);
    let data = asked.data(Ok(created)).unwrap_or_else(|_| panic!("there is data"));
    assert_eq!(data.poc_inherent_data(), Ok(Some(310)));
    assert!(matches!(
        asked.data(Err("no time".to_string())),
        Err(Error::CreateInherents(text)) if text == "no time",
    ));
    assert_eq!(
        refused(asked.answered(Err(Error::CheckInherents("late".to_string())))),
        Error::CheckInherents("late".to_string()),
    );
}

fn errors() -> CheckInherentsResult {
    CheckInherentsResult {
        ok: false,
        errors: vec![(*b"timstap0", vec![1u8]), (*b"poc0slot", vec![2u8, 3])],
    }
}

fn done(state: InherentsState) -> Result<(), Error> {
    match state {
        InherentsState::Done(result) => result,
        _ => panic!("the check should be over"),
    }
}

#[test]
fn inherents_are_not_checked_by_another_version() {
    assert_eq!(done(check_inherents(Err("old".to_string()))), Ok(()));
    assert!(matches!(check_inherents(Ok(())), InherentsState::Runtime));
}

#[test]
fn inherents_in_order_pass() {
    let good = CheckInherentsResult { ok: true, errors: errors().errors };
    assert_eq!(done(inherents_checked(Ok(good))), Ok(()));
    let none = CheckInherentsResult { ok: false, errors: Vec::new() };
    assert_eq!(done(inherents_checked(Ok(none))), Ok(()));
    assert_eq!(
        done(inherents_checked(Err("down".to_string()))),
        Err(Error::RuntimeApi("down".to_string())),
    );
}

#[test]
fn every_inherent_error_must_be_handled() {
    let first = || match inherents_checked(Ok(errors())) {
        InherentsState::Handle(pending) => pending,
        _ => panic!("an error should have been handled"),
    };
    let second = || match first().answered(Some(Ok(()))) {
        InherentsState::Handle(pending) => pending,
        _ => panic!("an error should have been handled"),
    };
    assert_eq!(first().current(), (b"timstap0", &[1u8][..]));
    assert_eq!(second().current(), (b"poc0slot", &[2u8, 3][..]));
    assert_eq!(
        done(first().answered(None)),
        Err(Error::CheckInherentsUnhandled(*b"timstap0")),
    );
    assert_eq!(
        done(first().answered(Some(Err("late".to_string())))),
        Err(Error::CheckInherents("late".to_string())),
    );
    assert_eq!(
        done(second().answered(None)),
        Err(Error::CheckInherentsUnhandled(*b"poc0slot")),
    );
    assert_eq!(done(second().answered(Some(Ok(())))), Ok(()));
}

fn equivocation_check(header: &Header, origin: BlockOrigin) -> EquivocationCheck<'_> {
    EquivocationCheck { slot_now: 312, slot: 310, header, author: FARMER, origin }
}

#[test]
fn initial_sync_reports_no_equivocation() {
    let header = block().header;
    let state = check_and_report_equivocation::<u8>(equivocation_check(
        &header,
        BlockOrigin::NetworkInitialSync,
    ));
    assert!(matches!(state, EquivocationState::Done(Ok(()))));
    for origin in [BlockOrigin::NetworkBroadcast, BlockOrigin::Own, BlockOrigin::File] {
        let state = check_and_report_equivocation::<u8>(equivocation_check(&header, origin));
        assert!(matches!(state, EquivocationState::Search(check) if check.slot == 310));
    }
}

#[test]
fn equivocation_is_reported_at_the_best_block() {
    assert!(matches!(
        equivocation_searched::<u8>(Ok(None)),
        EquivocationState::Done(Ok(())),
    ));
    assert!(matches!(
        equivocation_searched(Ok(Some(7u8))),
        EquivocationState::BestChain(7),
    ));
    assert!(matches!(
        equivocation_best_chain(7u8, Ok([4u8; 32])),
        EquivocationState::Submit(hash, 7) if hash == [4u8; 32],
    ));
    assert!(matches!(
        equivocation_submitted::<u8>(Ok(())),
        EquivocationState::Done(Ok(())),
    ));
}

#[test]
fn equivocation_errors_are_told() {
    let down = || "down".to_string();
    assert!(matches!(
        equivocation_searched::<u8>(Err(down())),
        EquivocationState::Done(Err(Error::Client(text))) if text == down(),
    ));
    assert!(matches!(
        equivocation_best_chain(7u8, Err(down())),
        EquivocationState::Done(Err(Error::Client(text))) if text == down(),
    ));
    assert!(matches!(
        equivocation_submitted::<u8>(Err(down())),
        EquivocationState::Done(Err(Error::RuntimeApi(text))) if text == down(),
    ));
}

#[test]
fn accepted_block_has_its_slot() {
    let mut header_only = block();
    header_only.body = None;
    let params: BlockImportParams<u8> =
        accepted(equivocation(header_only).answered()).params().0;
    assert_eq!(find_pre_digest(&params.header), Ok(pre_digest()));
    assert_eq!(find_pre_digest(&block().header), Ok(pre_digest()));
}
