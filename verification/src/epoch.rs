//! Epochs: contiguous runs of slots that share one randomness and one configuration.

use crate::config::Config;
use crate::digests::NextEpochDescriptor;
use crate::error::{ConsensusError, Error, Reason};
use crate::primitives::{
    BlockHash, BlockNumber, PoCEpochConfiguration, PoCGenesisConfiguration, Randomness, Slot,
};
use vstd::prelude::*;

verus! {

/// PoC epoch information
#[derive(Clone, Copy, Debug, PartialEq, Eq)]
pub struct Epoch {
    /// The epoch index.
    pub epoch_index: u64,
    /// The starting slot of the epoch.
    pub start_slot: Slot,
    /// The duration of this epoch.
    pub duration: u64,
    /// Randomness for this epoch.
    pub randomness: Randomness,
    /// Configuration of the epoch.
    pub config: PoCEpochConfiguration,
}

impl Epoch {
    /// The epoch has a successor whose index and slots can be counted.
    pub open spec fn can_increment(self) -> bool {
        &&& self.epoch_index < u64::MAX
        &&& self.start_slot + self.duration <= u64::MAX
    }

    /// The epoch that follows, with the randomness and the configuration announced for it.
    pub open spec fn successor(
        self,
        descriptor: NextEpochDescriptor,
        config: PoCEpochConfiguration,
    ) -> Epoch {
        Epoch {
            epoch_index: (self.epoch_index + 1) as u64,
            start_slot: (self.start_slot + self.duration) as u64,
            duration: self.duration,
            randomness: descriptor.randomness,
            config,
        }
    }

    /// The first epoch of a chain whose first block is at `slot`.
    pub open spec fn first(genesis: PoCGenesisConfiguration, slot: Slot) -> Epoch {
        Epoch {
            epoch_index: 0,
            start_slot: slot,
            duration: genesis.epoch_length,
            randomness: genesis.randomness,
            config: PoCEpochConfiguration { c: genesis.c },
        }
    }

    /// Whether a slot belongs to the epoch.
    pub open spec fn contains(self, slot: int) -> bool {
        self.start_slot <= slot < self.start_slot + self.duration
    }

    /// The epoch that follows this one.
    pub fn increment(&self, next: (NextEpochDescriptor, PoCEpochConfiguration)) -> (r: Epoch)
        requires
            self.can_increment(),
        ensures
            r == self.successor(next.0, next.1),
    {
        let (descriptor, config) = next;
        Epoch {
            epoch_index: self.epoch_index + 1,
            start_slot: self.start_slot + self.duration,
            duration: self.duration,
            randomness: descriptor.randomness,
            config,
        }
    }

    /// The first slot of the epoch.
    pub fn start_slot(&self) -> (r: Slot)
        ensures
            r == self.start_slot,
    {
        self.start_slot
    }

    /// The first slot after the epoch.
    pub fn end_slot(&self) -> (r: Slot)
        requires
            self.start_slot + self.duration <= u64::MAX,
        ensures
            r == self.start_slot + self.duration,
    {
        self.start_slot + self.duration
    }

    /// Create the genesis epoch (epoch #0). This is defined to start at the slot of the first
    /// block, so that has to be provided.
    pub fn genesis(genesis_config: &PoCGenesisConfiguration, slot: Slot) -> (r: Epoch)
        ensures
            r == Epoch::first(*genesis_config, slot),
    {
        Epoch {
            epoch_index: 0,
            start_slot: slot,
            duration: genesis_config.epoch_length,
            randomness: genesis_config.randomness,
            config: PoCEpochConfiguration { c: genesis_config.c },
        }
    }
}

/// Where in the record of epochs an epoch is kept: a block that announces the first epoch change
/// records two epochs, any other records one.
#[derive(Clone, Copy, Debug, PartialEq, Eq)]
pub enum EpochIdentifierPosition {
    /// The epoch that starts with the first block.
    Genesis0,
    /// The epoch after that.
    Genesis1,
    /// Any later epoch.
    Regular,
}

/// Names the epoch that a block would belong to.
#[derive(Clone, Copy, Debug, PartialEq, Eq)]
pub enum EpochDescriptor {
    /// The epoch is the first one, and no block of it has been imported: it starts at this slot.
    UnimportedGenesis(Slot),
    /// The epoch was announced in a block.
    Signaled {
        /// Where the block's record holds the epoch.
        position: EpochIdentifierPosition,
        /// The hash of the block that announced the epoch.
        hash: BlockHash,
        /// The number of that block.
        number: BlockNumber,
        /// The first slot of the epoch.
        start_slot: Slot,
        /// The first slot after the epoch.
        end_slot: Slot,
    },
}

impl EpochDescriptor {
    /// The first slot of the epoch.
    pub open spec fn starts_at(self) -> Slot {
        match self {
            EpochDescriptor::UnimportedGenesis(slot) => slot,
            EpochDescriptor::Signaled { start_slot, .. } => start_slot,
        }
    }

    /// The first slot of the epoch.
    pub fn start_slot(&self) -> (r: Slot)
        ensures
            r == self.starts_at(),
    {
        match self {
            EpochDescriptor::UnimportedGenesis(slot) => *slot,
            EpochDescriptor::Signaled { start_slot, .. } => *start_slot,
        }
    }
}

/// The epoch that a descriptor names.
#[derive(Clone, Copy, Debug, PartialEq, Eq)]
pub enum ViableEpoch {
    /// The first epoch, of which no block has been imported.
    UnimportedGenesis(Epoch),
    /// An epoch that was announced in a block.
    Signaled(Epoch),
}

/// What is recorded of an epoch change.
#[derive(Clone, Copy, Debug, PartialEq, Eq)]
pub enum PersistedEpoch {
    /// The first block records the first epoch and the one after it.
    Genesis(Epoch, Epoch),
    /// Any other block records the epoch that it announces.
    Regular(Epoch),
}

impl ViableEpoch {
    /// The epoch itself.
    pub open spec fn epoch(self) -> Epoch {
        match self {
            ViableEpoch::UnimportedGenesis(epoch) => epoch,
            ViableEpoch::Signaled(epoch) => epoch,
        }
    }

    /// The epoch itself.
    pub fn as_ref(&self) -> (r: &Epoch)
        ensures
            *r == self.epoch(),
    {
        match self {
            ViableEpoch::UnimportedGenesis(epoch) => epoch,
            ViableEpoch::Signaled(epoch) => epoch,
        }
    }

    /// What is recorded when the epoch after this one is announced.
    pub open spec fn incremented(
        self,
        descriptor: NextEpochDescriptor,
        config: PoCEpochConfiguration,
    ) -> PersistedEpoch {
        let next = self.epoch().successor(descriptor, config);
        match self {
            ViableEpoch::UnimportedGenesis(epoch) => PersistedEpoch::Genesis(epoch, next),
            ViableEpoch::Signaled(_) => PersistedEpoch::Regular(next),
        }
    }

    /// What is recorded when the epoch after this one is announced.
    pub fn increment(&self, next: (NextEpochDescriptor, PoCEpochConfiguration)) -> (r:
        PersistedEpoch)
        requires
            self.epoch().can_increment(),
        ensures
            r == self.incremented(next.0, next.1),
    {
        let next_epoch: Epoch = self.as_ref().increment(next);
        match self {
            ViableEpoch::UnimportedGenesis(epoch) => PersistedEpoch::Genesis(*epoch, next_epoch),
            ViableEpoch::Signaled(_) => PersistedEpoch::Regular(next_epoch),
        }
    }
}

/// The epoch that a descriptor names, where `stored` is the epoch on record for an announced one.
pub open spec fn viable(
    descriptor: EpochDescriptor,
    stored: Option<Epoch>,
    genesis: PoCGenesisConfiguration,
) -> Option<ViableEpoch> {
    match descriptor {
        EpochDescriptor::UnimportedGenesis(slot) => Some(
            ViableEpoch::UnimportedGenesis(Epoch::first(genesis, slot)),
        ),
        EpochDescriptor::Signaled { .. } => match stored {
            Some(epoch) => Some(ViableEpoch::Signaled(epoch)),
            None => None,
        },
    }
}

/// The epoch that `descriptor` names. `stored` is what the record of epochs holds for it; the
/// first epoch is on no record before a block of it is imported, and is made from the
/// configuration.
pub fn viable_epoch(descriptor: &EpochDescriptor, stored: Option<Epoch>, config: &Config) -> (r:
    Option<ViableEpoch>)
    ensures
        r == viable(*descriptor, stored, config.genesis),
{
    match descriptor {
        EpochDescriptor::UnimportedGenesis(slot) => Some(
            ViableEpoch::UnimportedGenesis(Epoch::genesis(&config.genesis, *slot)),
        ),
        EpochDescriptor::Signaled { .. } => match stored {
            Some(epoch) => Some(ViableEpoch::Signaled(epoch)),
            None => None,
        },
    }
}

/// The descriptor that a lookup in the tree of epochs gave for a child of `parent_hash`, or the
/// error when the lookup failed or found nothing.
pub open spec fn descriptor_for(
    parent_hash: BlockHash,
    lookup: Result<Option<EpochDescriptor>, String>,
) -> Result<EpochDescriptor, Error> {
    match lookup {
        Err(text) => Err(Error::ForkTree(text)),
        Ok(None) => Err(Error::FetchEpoch(parent_hash)),
        Ok(Some(descriptor)) => Ok(descriptor),
    }
}

/// The descriptor that `lookup` gave for a child of `parent_hash`.
pub fn descriptor_for_child(
    parent_hash: BlockHash,
    lookup: Result<Option<EpochDescriptor>, String>,
) -> (r: Result<EpochDescriptor, Error>)
    ensures
        r == descriptor_for(parent_hash, lookup),
{
    match lookup {
        Err(text) => Err(Error::ForkTree(text)),
        Ok(None) => Err(Error::FetchEpoch(parent_hash)),
        Ok(Some(descriptor)) => Ok(descriptor),
    }
}

/// Requests to the PoC service.
#[non_exhaustive]
#[derive(Clone, Copy, Debug, PartialEq, Eq)]
pub enum PoCRequest {
    /// Request the epoch that a child of the given block, with the given slot number would have.
    ///
    /// The parent block is identified by its hash and number.
    EpochForChild(BlockHash, BlockNumber, Slot),
}

/// The answer to a request.
pub open spec fn epoch_for_child(
    request: PoCRequest,
    lookup: Result<Option<EpochDescriptor>, String>,
    stored: Option<Epoch>,
    config: Config,
) -> Result<Epoch, Error> {
    match request {
        PoCRequest::EpochForChild(parent_hash, _, _) => match descriptor_for(parent_hash, lookup) {
            Err(e) => Err(e),
            Ok(descriptor) => match viable(descriptor, stored, config.genesis) {
                Some(found) => Ok(found.epoch()),
                None => Err(Error::FetchEpoch(parent_hash)),
            },
        },
    }
}

impl PoCRequest {
    /// The answer to the request. `lookup` is what the tree of epochs gave for a child of the
    /// block at the slot of the request, and `stored` what the record of epochs holds for the
    /// descriptor found.
    pub fn answer(
        &self,
        lookup: Result<Option<EpochDescriptor>, String>,
        stored: Option<Epoch>,
        config: &Config,
    ) -> (r: Result<Epoch, Error>)
        ensures
            r == epoch_for_child(*self, lookup, stored, *config),
            r == (match *self {
                PoCRequest::EpochForChild(parent_hash, _, _) => match descriptor_for(
                    parent_hash,
                    lookup,
                ) {
                    Err(e) => Err(e),
                    Ok(descriptor) => match viable(descriptor, stored, config.genesis) {
                        Some(found) => Ok(found.epoch()),
                        None => Err(Error::FetchEpoch(parent_hash)),
                    },
                },
            }),
    {
        match self {
            PoCRequest::EpochForChild(parent_hash, _, _) => {
                let descriptor = match descriptor_for_child(*parent_hash, lookup) {
                    Ok(descriptor) => descriptor,
                    Err(e) => {
                        return Err(e);
                    },
                };
                match viable_epoch(&descriptor, stored, config) {
                    Some(found) => Ok(*found.as_ref()),
                    None => Err(Error::FetchEpoch(*parent_hash)),
                }
            },
        }
    }
}

/// The epoch of a slot on top of the chain's head.
pub open spec fn epoch_for_slot(lookup: Result<Option<EpochDescriptor>, String>) -> Result<
    EpochDescriptor,
    ConsensusError,
> {
    match lookup {
        Err(text) => Err(ConsensusError::ChainLookup(Reason::Node(text))),
        Ok(None) => Err(ConsensusError::InvalidAuthoritiesSet),
        Ok(Some(descriptor)) => Ok(descriptor),
    }
}

/// The epoch of a slot on top of the chain's head, from what the tree of epochs gave for it.
pub fn epoch_data(lookup: Result<Option<EpochDescriptor>, String>) -> (r: Result<
    EpochDescriptor,
    ConsensusError,
>)
    ensures
        r == epoch_for_slot(lookup),
        r == (match lookup {
            Err(text) => Err(ConsensusError::ChainLookup(Reason::Node(text))),
            Ok(None) => Err(ConsensusError::InvalidAuthoritiesSet),
            Ok(Some(descriptor)) => Ok(descriptor),
        }),
{
    match lookup {
        Err(text) => Err(ConsensusError::ChainLookup(Reason::Node(text))),
        Ok(None) => Err(ConsensusError::InvalidAuthoritiesSet),
        Ok(Some(descriptor)) => Ok(descriptor),
    }
}

/// Epochs follow each other without a gap and without an overlap: a slot from the start of an
/// epoch to the end of the next one belongs to exactly one of the two.
pub proof fn law_epochs_are_contiguous(
    epoch: Epoch,
    descriptor: NextEpochDescriptor,
    config: PoCEpochConfiguration,
    slot: int,
)
    requires
        epoch.can_increment(),
    ensures
        epoch.successor(descriptor, config).start_slot == epoch.start_slot + epoch.duration,
        !(epoch.contains(slot) && epoch.successor(descriptor, config).contains(slot)),
        epoch.start_slot <= slot < epoch.start_slot + 2 * epoch.duration ==> epoch.contains(slot)
            || epoch.successor(descriptor, config).contains(slot),
{
}

/// Whether each epoch of a run is the successor of the one before it, with some announcement.
pub open spec fn chained(epochs: Seq<Epoch>) -> bool {
    forall|i: int|
        #![trigger epochs[i]]
        0 <= i < epochs.len() - 1 ==> epochs[i].can_increment() && exists|
            descriptor: NextEpochDescriptor,
            config: PoCEpochConfiguration,
        |
            epochs[i + 1] == #[trigger] epochs[i].successor(descriptor, config)
}

/// In a chain that starts with the first epoch, the index of an epoch counts the epochs before it
/// and its start is as many durations after the first block's slot, whatever was announced.
pub proof fn law_epoch_index_and_start(
    epochs: Seq<Epoch>,
    genesis: PoCGenesisConfiguration,
    slot: Slot,
    n: int,
)
    requires
        chained(epochs),
        0 <= n < epochs.len(),
        epochs[0] == Epoch::first(genesis, slot),
    ensures
        epochs[n].epoch_index == n,
        epochs[n].duration == genesis.epoch_length,
        epochs[n].start_slot == slot + n * genesis.epoch_length,
    decreases n,
{
    if n > 0 {
        law_epoch_index_and_start(epochs, genesis, slot, n - 1);
        assert(epochs[n - 1].can_increment());
        assert(n * genesis.epoch_length == (n - 1) * genesis.epoch_length + genesis.epoch_length)
            by (nonlinear_arith);
        let (descriptor, config) = choose|
            descriptor: NextEpochDescriptor,
            config: PoCEpochConfiguration,
        |
            epochs[(n - 1) + 1] == #[trigger] epochs[n - 1].successor(descriptor, config);
    }
}

/// The epoch after an epoch has the next index, starts where the epoch ends, is as long, and has
/// the randomness and the configuration that were announced for it, whatever those of the epoch
/// are.
pub proof fn law_successor_takes_what_is_announced(
    epoch: Epoch,
    descriptor: NextEpochDescriptor,
    config: PoCEpochConfiguration,
)
    requires
        epoch.epoch_index < u64::MAX,
        epoch.start_slot + epoch.duration <= u64::MAX,
    ensures
        epoch.can_increment(),
        epoch.successor(descriptor, config).epoch_index == epoch.epoch_index + 1,
        epoch.successor(descriptor, config).start_slot == epoch.start_slot + epoch.duration,
        epoch.successor(descriptor, config).duration == epoch.duration,
        epoch.successor(descriptor, config).randomness == descriptor.randomness,
        epoch.successor(descriptor, config).config == config,
{
}

/// The first epoch has index zero, starts at the slot of the first block, and has the length, the
/// randomness and the ratio that the chain starts with.
pub proof fn law_first_epoch(genesis: PoCGenesisConfiguration, slot: Slot)
    ensures
        Epoch::first(genesis, slot).epoch_index == 0,
        Epoch::first(genesis, slot).start_slot == slot,
        Epoch::first(genesis, slot).duration == genesis.epoch_length,
        Epoch::first(genesis, slot).randomness == genesis.randomness,
        Epoch::first(genesis, slot).config.c == genesis.c,
{
}

/// The first epoch is made from the configuration, whatever is on record; it starts where its
/// descriptor says. Any other epoch is the one on record, and there is none where there is no
/// record.
pub proof fn law_epoch_of_a_descriptor(
    slot: Slot,
    position: EpochIdentifierPosition,
    hash: BlockHash,
    number: BlockNumber,
    start_slot: Slot,
    end_slot: Slot,
    stored: Option<Epoch>,
    genesis: PoCGenesisConfiguration,
)
    ensures
        viable(EpochDescriptor::UnimportedGenesis(slot), stored, genesis) matches Some(found)
            && found is UnimportedGenesis && found.epoch() == Epoch::first(genesis, slot)
            && found.epoch().start_slot == EpochDescriptor::UnimportedGenesis(slot).starts_at(),
        ({
            let signaled = EpochDescriptor::Signaled {
                position,
                hash,
                number,
                start_slot,
                end_slot,
            };
            &&& signaled.starts_at() == start_slot
            &&& viable(signaled, stored, genesis) is Some <==> stored is Some
            &&& viable(signaled, stored, genesis) matches Some(found) ==> found is Signaled
                && Some(found.epoch()) == stored
        }),
{
}

/// When the epoch after the first one is announced, both are recorded; when any other is, it is
/// recorded alone. What is recorded of the new epoch is the successor of the epoch that announces
/// it.
pub proof fn law_what_is_recorded(
    epoch: Epoch,
    descriptor: NextEpochDescriptor,
    config: PoCEpochConfiguration,
)
    ensures
        ViableEpoch::UnimportedGenesis(epoch).epoch() == epoch,
        ViableEpoch::Signaled(epoch).epoch() == epoch,
        ViableEpoch::UnimportedGenesis(epoch).incremented(descriptor, config)
            matches PersistedEpoch::Genesis(first, second) && first == epoch && second
            == epoch.successor(descriptor, config),
        ViableEpoch::Signaled(epoch).incremented(descriptor, config)
            matches PersistedEpoch::Regular(next) && next == epoch.successor(descriptor, config),
{
}

/// A descriptor is found if and only if the lookup gave one, and it is that one. A lookup that
/// failed and one that found nothing are told apart.
pub proof fn law_descriptor_is_the_one_found(
    parent_hash: BlockHash,
    lookup: Result<Option<EpochDescriptor>, String>,
)
    ensures
        match descriptor_for(parent_hash, lookup) {
            Ok(descriptor) => lookup == Ok::<Option<EpochDescriptor>, String>(Some(descriptor)),
            Err(e) => match lookup {
                Ok(found) => found is None && e == Error::FetchEpoch(parent_hash),
                Err(text) => e == Error::ForkTree(text),
            },
        },
        match epoch_for_slot(lookup) {
            Ok(descriptor) => lookup == Ok::<Option<EpochDescriptor>, String>(Some(descriptor)),
            Err(e) => match lookup {
                Ok(found) => found is None && e == ConsensusError::InvalidAuthoritiesSet,
                Err(text) => e == ConsensusError::ChainLookup(Reason::Node(text)),
            },
        },
{
}

/// A request for the epoch of a child is answered with the epoch that its descriptor names: the
/// first one if no block of it was imported, else the one on record. The number of the block and
/// the slot play no part beyond the lookup.
pub proof fn law_request_is_answered_with_the_epoch(
    parent_hash: BlockHash,
    number: BlockNumber,
    slot: Slot,
    lookup: Result<Option<EpochDescriptor>, String>,
    stored: Option<Epoch>,
    config: Config,
)
    ensures
        ({
            let answer = epoch_for_child(
                PoCRequest::EpochForChild(parent_hash, number, slot),
                lookup,
                stored,
                config,
            );
            match lookup {
                Err(text) => answer == Err::<Epoch, Error>(Error::ForkTree(text)),
                Ok(None) => answer == Err::<Epoch, Error>(Error::FetchEpoch(parent_hash)),
                Ok(Some(EpochDescriptor::UnimportedGenesis(start))) => answer == Ok::<Epoch, Error>(
                    Epoch::first(config.genesis, start),
                ),
                Ok(Some(EpochDescriptor::Signaled { .. })) => match stored {
                    Some(epoch) => answer == Ok::<Epoch, Error>(epoch),
                    None => answer == Err::<Epoch, Error>(Error::FetchEpoch(parent_hash)),
                },
            }
        }),
{
}

} // verus!
