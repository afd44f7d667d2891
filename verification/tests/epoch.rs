use poc_consensus::config::{ClientError, Config, ConfigState, PoCLink};
use poc_consensus::digests::NextEpochDescriptor;
use poc_consensus::epoch::{
    descriptor_for_child, epoch_data, viable_epoch, Epoch, EpochDescriptor,
    EpochIdentifierPosition, PersistedEpoch, PoCRequest, ViableEpoch,
};
use poc_consensus::error::{ConsensusError, Error, Reason};
use poc_consensus::primitives::{PoCEpochConfiguration, PoCGenesisConfiguration};
use std::sync::Arc;

fn genesis() -> PoCGenesisConfiguration {
    PoCGenesisConfiguration {
        slot_duration: 6000,
        epoch_length: 100,
        c: (1, 4),
        randomness: [7u8; 32],
    }
}

fn config() -> Config {
    Config { genesis: genesis() }
}

fn signaled() -> EpochDescriptor {
    EpochDescriptor::Signaled {
        position: EpochIdentifierPosition::Regular,
        hash: [3u8; 32],
        number: 40,
        start_slot: 300,
        end_slot: 400,
    }
}

fn third() -> Epoch {
    Epoch {
        epoch_index: 3,
        start_slot: 300,
        duration: 100,
        randomness: [8u8; 32],
        config: PoCEpochConfiguration { c: (1, 2) },
    }
}

#[test]
fn genesis_epoch_starts_at_the_first_block() {
    let epoch = Epoch::genesis(&genesis(), 42);
    assert_eq!(epoch.epoch_index, 0);
    assert_eq!(epoch.start_slot(), 42);
    assert_eq!(epoch.end_slot(), 142);
    assert_eq!(epoch.randomness, [7u8; 32]);
    assert_eq!(epoch.config, PoCEpochConfiguration { c: (1, 4) });
}

#[test]
fn epochs_follow_without_a_gap() {
    let next = NextEpochDescriptor { randomness: [9u8; 32] };
    let mut epoch = Epoch::genesis(&genesis(), 42);
    for i in 0u64..5 {
        let after = epoch.increment((next, PoCEpochConfiguration { c: (2, 3) }));
        assert_eq!(after.epoch_index, i + 1);
        assert_eq!(after.start_slot(), epoch.end_slot());
        assert_eq!(after.duration, 100);
        assert_eq!(after.randomness, [9u8; 32]);
        assert_eq!(after.config, PoCEpochConfiguration { c: (2, 3) });
        epoch = after;
    }
    assert_eq!(epoch.start_slot(), 542);
}

#[test]
fn descriptor_tells_the_start() {
    assert_eq!(EpochDescriptor::UnimportedGenesis(17).start_slot(), 17);
    assert_eq!(signaled().start_slot(), 300);
}

#[test]
fn first_epoch_needs_no_record() {
    let found = viable_epoch(&EpochDescriptor::UnimportedGenesis(17), None, &config()).unwrap();
    assert_eq!(found.as_ref(), &Epoch::genesis(&genesis(), 17));
    assert_eq!(found, ViableEpoch::UnimportedGenesis(Epoch::genesis(&genesis(), 17)));
}

#[test]
fn later_epochs_are_read_from_the_record() {
    assert_eq!(
        viable_epoch(&signaled(), Some(third()), &config()),
        Some(ViableEpoch::Signaled(third())),
    );
    assert_eq!(viable_epoch(&signaled(), None, &config()), None);
}

#[test]
fn first_announcement_records_two_epochs() {
    let next = NextEpochDescriptor { randomness: [9u8; 32] };
    let configuration = PoCEpochConfiguration { c: (2, 3) };
    let first = Epoch::genesis(&genesis(), 17);
    let second = first.increment((next, configuration));
    assert_eq!(
        ViableEpoch::UnimportedGenesis(first).increment((next, configuration)),
        PersistedEpoch::Genesis(first, second),
    );
    assert_eq!(
        ViableEpoch::Signaled(third()).increment((next, configuration)),
        PersistedEpoch::Regular(third().increment((next, configuration))),
    );
}

#[test]
fn lookup_errors_are_told_apart() {
    assert_eq!(
        descriptor_for_child([1u8; 32], Err("broken".to_string())),
        Err(Error::ForkTree("broken".to_string())),
    );
    assert_eq!(descriptor_for_child([1u8; 32], Ok(None)), Err(Error::FetchEpoch([1u8; 32])));
    assert_eq!(descriptor_for_child([1u8; 32], Ok(Some(signaled()))), Ok(signaled()));
}

#[test]
fn requests_are_answered() {
    let request = PoCRequest::EpochForChild([1u8; 32], 39, 310);
    assert_eq!(request.answer(Ok(Some(signaled())), Some(third()), &config()), Ok(third()));
    assert_eq!(
        request.answer(Ok(Some(signaled())), None, &config()),
        Err(Error::FetchEpoch([1u8; 32])),
    );
    assert_eq!(
        request.answer(Ok(None), None, &config()),
        Err(Error::FetchEpoch([1u8; 32])),
    );
    assert_eq!(
        request.answer(Err("broken".to_string()), None, &config()),
        Err(Error::ForkTree("broken".to_string())),
    );
    assert_eq!(
        request.answer(Ok(Some(EpochDescriptor::UnimportedGenesis(310))), None, &config()),
        Ok(Epoch::genesis(&genesis(), 310)),
    );
}

#[test]
fn slot_worker_needs_an_epoch() {
    assert_eq!(epoch_data(Ok(Some(signaled()))), Ok(signaled()));
    assert_eq!(epoch_data(Ok(None)), Err(ConsensusError::InvalidAuthoritiesSet));
    assert_eq!(
        epoch_data(Err("broken".to_string())),
        Err(ConsensusError::ChainLookup(Reason::Node("broken".to_string()))),
    );
}

fn node_error(text: &str) -> ConfigState {
    ConfigState::Done(Err(ClientError::Node(text.to_string())))
}

#[test]
fn configuration_on_disk_comes_first() {
    assert_eq!(Config::get_or_compute(Ok(Some(genesis()))), ConfigState::Done(Ok(config())));
    assert_eq!(Config::get_or_compute(Ok(None)), ConfigState::AskApi);
    assert_eq!(
        Config::get_or_compute(Err(ClientError::Node("broken disk".to_string()))),
        node_error("broken disk"),
    );
}

#[test]
fn configuration_needs_the_right_api() {
    assert_eq!(Config::check_api(Ok(true)), ConfigState::AskConfiguration);
    assert_eq!(
        Config::check_api(Ok(false)),
        ConfigState::Done(Err(ClientError::VersionInvalid(
            "Unsupported or invalid PoCApi version",
        ))),
    );
    assert_eq!(Config::check_api(Err("down".to_string())), node_error("down"));
}

#[test]
fn configuration_is_computed_last() {
    assert_eq!(Config::computed(Ok(genesis())), ConfigState::Done(Ok(config())));
    assert_eq!(Config::computed(Err("down".to_string())), node_error("down"));
}

#[test]
fn configuration_is_kept() {
    assert_eq!(config().slot_duration(), 6000);
    assert_eq!(config().epoch_length, 100);
    let link = PoCLink::new(Arc::new(vec![1u8, 2]), config());
    assert_eq!(**link.epoch_changes(), vec![1u8, 2]);
    assert_eq!(link.config(), &config());
    let copy = link.clone();
    assert!(Arc::ptr_eq(copy.epoch_changes(), link.epoch_changes()));
    assert_eq!(copy.config(), &config());
}
