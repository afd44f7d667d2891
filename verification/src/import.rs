//! Importing a block: from one answer of the node to the next question, until the block is handed
//! on to the next importer or refused.
//!
//! Each state of an import is a struct that says what is asked. Its method `answered` takes the
//! answer and gives the state that follows.

use crate::config::{ClientError, Config, PoCLink};
use crate::digest::{hash_eq, Header};
use crate::digests::{NextConfigDescriptor, NextEpochDescriptor};
use crate::epoch::{viable_epoch, EpochDescriptor, Epoch, PersistedEpoch, ViableEpoch};
use crate::error::{ConsensusError, Error, Reason};
use crate::import_params::{
    AuxWrite, BlockImportParams, ForkChoiceStrategy, NewCache, PoCIntermediate,
};
use crate::primitives::{BlockHash, BlockNumber, PoCBlockWeight, PoCEpochConfiguration, Slot};
use crate::scan::{find_next_config_digest, find_next_epoch_digest, find_pre_digest, slot_in};
use std::sync::Arc;
use vstd::prelude::*;

verus! {

/// Whether the node has a block.
#[derive(Clone, Copy, Debug, PartialEq, Eq)]
pub enum BlockStatus {
    /// It is in the chain already.
    InChain,
    /// It is not known.
    Unknown,
}

/// A block-import handler for PoC.
///
/// This scans each imported block for epoch change signals. The signals are tracked in a tree (of
/// all forks), and the import logic validates all epoch change transitions, i.e. whether a given
/// epoch change is expected or whether it is missing.
///
/// `T` is the tree of epoch changes, which is shared with the verifier of blocks and the slot
/// worker, and `I` is the next importer.
pub struct PoCBlockImport<T, I> {
    /// The tree of epoch changes.
    pub epoch_changes: Arc<T>,
    /// The next importer.
    pub inner: I,
    /// The configuration of the chain.
    pub config: Config,
}

/// A block that is offered for import.
pub struct Offered<S> {
    /// The block.
    pub block: BlockImportParams<S>,
    /// Its hash, with the digest items that were taken off its header.
    pub hash: BlockHash,
    /// What it changes in the node's cache.
    pub new_cache: NewCache,
}

/// An import in progress.
pub enum ImportState<S> {
    /// The node is asked whether it has the block.
    Status(AskStatus<S>),
    /// The node is asked for the parent's header.
    Parent(AskParent<S>),
    /// The node is asked for the weight on record for the parent.
    ParentWeight(AskParentWeight<S>),
    /// The node is asked for its best block.
    Best(AskBest<S>),
    /// The tree of epoch changes is saved, and asked for the epoch of the block.
    StoredEpoch(AskStoredEpoch<S>),
    /// The node is asked for its last finalized block.
    Finalized(AskFinalized<S>),
    /// The tree of epoch changes is pruned.
    Prune(AskPrune<S>),
    /// The next epoch is put into the tree of epoch changes.
    Launch(AskLaunch<S>),
    /// The node is asked for the weight on record for its best block.
    BestWeight(AskBestWeight<S>),
    /// The block goes to the next importer.
    HandOn(HandOn<S>),
    /// The block is refused.
    Refused(Refused),
}

/// A block that is refused.
pub struct Refused {
    /// Why.
    pub error: ConsensusError,
    /// Whether the tree of epoch changes that was saved is put back.
    pub restore: bool,
}

/// The node is asked whether it has the block.
pub struct AskStatus<S> {
    /// The block.
    pub offered: Offered<S>,
}

/// The node is asked for the parent's header.
pub struct AskParent<S> {
    /// The block.
    pub offered: Offered<S>,
}

/// The node is asked for the weight on record for the parent.
pub struct AskParentWeight<S> {
    /// The block.
    pub offered: Offered<S>,
    /// Its slot.
    pub slot: Slot,
    /// The slot of the parent.
    pub parent_slot: Slot,
}

/// A block whose place in its epoch was found to be right.
pub struct Placed<S> {
    /// The block.
    pub offered: Offered<S>,
    /// The weight of the chain that ends in the parent.
    pub parent_weight: PoCBlockWeight,
    /// The weight of the chain that ends in the block.
    pub total_weight: PoCBlockWeight,
    /// The epoch of the block.
    pub epoch_descriptor: EpochDescriptor,
}

/// The node's best block.
#[derive(Clone, Copy, Debug, PartialEq, Eq)]
pub struct BestBlock {
    /// Its hash.
    pub hash: BlockHash,
    /// Its number.
    pub number: BlockNumber,
}

/// The node is asked for its best block.
pub struct AskBest<S> {
    /// The block.
    pub placed: Placed<S>,
    /// The epoch change that the block announces.
    pub next_epoch: Option<NextEpochDescriptor>,
    /// The config change that the block announces.
    pub next_config: Option<NextConfigDescriptor>,
}

/// The tree of epoch changes is saved, and asked for the epoch of the block.
pub struct AskStoredEpoch<S> {
    /// The block.
    pub placed: Placed<S>,
    /// The epoch change that the block announces.
    pub next_epoch: NextEpochDescriptor,
    /// The config change that the block announces.
    pub next_config: Option<NextConfigDescriptor>,
    /// The node's best block.
    pub best: BestBlock,
}

/// The node is asked for its last finalized block.
pub struct AskFinalized<S> {
    /// The block.
    pub placed: Placed<S>,
    /// What is put on record of the next epoch.
    pub epoch: PersistedEpoch,
    /// The node's best block.
    pub best: BestBlock,
}

/// The last finalized block.
#[derive(Clone, Copy, Debug, PartialEq, Eq)]
pub struct Finalized {
    /// Its hash.
    pub hash: BlockHash,
    /// Its number.
    pub number: BlockNumber,
    /// Its slot.
    pub slot: Slot,
}

/// The tree of epoch changes is pruned.
pub struct AskPrune<S> {
    /// The block.
    pub placed: Placed<S>,
    /// What is put on record of the next epoch.
    pub epoch: PersistedEpoch,
    /// The node's best block.
    pub best: BestBlock,
    /// The finalized block up to which the tree is pruned.
    pub finalized: Finalized,
}

/// The next epoch is put into the tree of epoch changes, under the hash and number of the block
/// and below its parent.
pub struct AskLaunch<S> {
    /// The block.
    pub placed: Placed<S>,
    /// What is put on record of the next epoch.
    pub epoch: PersistedEpoch,
    /// The node's best block.
    pub best: BestBlock,
}

/// The node is asked for the weight on record for its best block.
pub struct AskBestWeight<S> {
    /// The block.
    pub placed: Placed<S>,
    /// The node's best block.
    pub best: BestBlock,
    /// Whether the tree of epoch changes has changed.
    pub epoch_changed: bool,
}

/// The block goes to the next importer.
pub struct HandOn<S> {
    /// The block.
    pub offered: Offered<S>,
    /// The weight of the chain that ends in the block, to put on record; none for a block that is
    /// in the chain already.
    pub weight: Option<PoCBlockWeight>,
    /// Whether the tree of epoch changes has changed, and is put on record.
    pub epoch_changed: bool,
}

/// The state in which a block is refused.
pub open spec fn refused<S>(error: ConsensusError, restore: bool) -> ImportState<S> {
    ImportState::Refused(Refused { error, restore })
}

/// An error of the engine that stops the import.
pub open spec fn import_error(error: Error) -> ConsensusError {
    ConsensusError::ClientImport(Reason::Engine(error))
}

/// Whether a block may announce what it announces: the first block of an epoch in its chain must
/// announce the next epoch, and may announce a configuration for it; no other block may announce
/// either.
pub open spec fn announcement_fault(
    first_in_epoch: bool,
    announces_epoch: bool,
    announces_config: bool,
    hash: BlockHash,
    slot: Slot,
) -> Option<Error> {
    if first_in_epoch && !announces_epoch {
        Some(Error::ExpectedEpochChange(hash, slot))
    } else if !first_in_epoch && announces_epoch {
        Some(Error::UnexpectedEpochChange)
    } else if !first_in_epoch && announces_config {
        Some(Error::UnexpectedConfigChange)
    } else {
        None
    }
}

/// Whether a block may announce what it announces.
pub fn check_announcement(
    first_in_epoch: bool,
    announces_epoch: bool,
    announces_config: bool,
    hash: BlockHash,
    slot: Slot,
) -> (r: Result<(), Error>)
    ensures
        match announcement_fault(first_in_epoch, announces_epoch, announces_config, hash, slot) {
            Some(e) => r == Err::<(), Error>(e),
            None => r == Ok::<(), Error>(()),
        },
{
    match (first_in_epoch, announces_epoch, announces_config) {
        (true, true, _) => Ok(()),
        (false, false, false) => Ok(()),
        (false, false, true) => Err(Error::UnexpectedConfigChange),
        (true, false, _) => Err(Error::ExpectedEpochChange(hash, slot)),
        (false, true, _) => Err(Error::UnexpectedEpochChange),
    }
}

/// The fork choice rule: the heaviest chain is the best (i.e. more primary blocks), and in case of
/// a tie the longest.
pub open spec fn is_better(
    weight: PoCBlockWeight,
    number: BlockNumber,
    best_weight: PoCBlockWeight,
    best_number: BlockNumber,
) -> bool {
    weight > best_weight || weight == best_weight && number > best_number
}

/// Whether the chain that ends in a block of this weight and number is better than the best one.
pub fn choose_fork(
    weight: PoCBlockWeight,
    number: BlockNumber,
    best_weight: PoCBlockWeight,
    best_number: BlockNumber,
) -> (r: bool)
    ensures
        r == is_better(weight, number, best_weight, best_number),
{
    if weight > best_weight {
        true
    } else if weight == best_weight {
        number > best_number
    } else {
        false
    }
}

/// The configuration of the next epoch: the one that is announced, or else that of the epoch
/// before it.
pub open spec fn next_configuration(
    announced: Option<NextConfigDescriptor>,
    current: PoCEpochConfiguration,
) -> PoCEpochConfiguration {
    match announced {
        Some(NextConfigDescriptor::V1 { c }) => PoCEpochConfiguration { c },
        None => current,
    }
}

/// The state once the weight of the parent's chain is known.
pub open spec fn after_parent_weight<S>(
    offered: Offered<S>,
    slot: Slot,
    parent_slot: Slot,
    parent_weight: PoCBlockWeight,
) -> ImportState<S> {
    match crate::import_params::intermediate_taken(offered.block.intermediate) {
        Err(e) => refused(e, false),
        Ok(intermediate) => match (
            crate::scan::next_epoch_in(offered.block.header),
            crate::scan::next_config_in(offered.block.header),
        ) {
            (Err(e), _) => refused(import_error(e), false),
            (_, Err(e)) => refused(import_error(e), false),
            (Ok(next_epoch), Ok(next_config)) => match announcement_fault(
                parent_slot < intermediate.epoch_descriptor.starts_at(),
                next_epoch is Some,
                next_config is Some,
                offered.hash,
                slot,
            ) {
                Some(e) => refused(import_error(e), false),
                None => ImportState::Best(
                    AskBest {
                        placed: Placed {
                            offered: Offered {
                                block: BlockImportParams { intermediate: None, ..offered.block },
                                ..offered
                            },
                            parent_weight,
                            total_weight: (parent_weight + 1) as u32,
                            epoch_descriptor: intermediate.epoch_descriptor,
                        },
                        next_epoch,
                        next_config,
                    },
                ),
            },
        },
    }
}

/// The state once the weight of the best chain is known.
pub open spec fn after_best_weight<S>(
    placed: Placed<S>,
    best: BestBlock,
    best_weight: PoCBlockWeight,
    epoch_changed: bool,
) -> ImportState<S> {
    ImportState::HandOn(
        HandOn {
            offered: Offered {
                block: BlockImportParams {
                    fork_choice: Some(
                        ForkChoiceStrategy::Custom(
                            is_better(
                                placed.total_weight,
                                placed.offered.block.header.number,
                                best_weight,
                                best.number,
                            ),
                        ),
                    ),
                    ..placed.offered.block
                },
                ..placed.offered
            },
            weight: Some(placed.total_weight),
            epoch_changed,
        },
    )
}

/// The state once the tree of epoch changes is as it has to be: where the best block is the
/// parent, its weight is known.
pub open spec fn after_epoch_changes<S>(
    placed: Placed<S>,
    best: BestBlock,
    epoch_changed: bool,
) -> ImportState<S> {
    if best.hash == placed.offered.block.header.parent_hash {
        after_best_weight(placed, best, placed.parent_weight, epoch_changed)
    } else {
        ImportState::BestWeight(AskBestWeight { placed, best, epoch_changed })
    }
}

/// The importer can be cloned where the next one can. Both work on the same tree.
impl<T, I: Clone> Clone for PoCBlockImport<T, I> {
    fn clone(&self) -> (r: Self)
        ensures
            r.epoch_changes == self.epoch_changes,
            r.config == self.config,
            cloned(self.inner, r.inner),
    {
        PoCBlockImport {
            epoch_changes: self.epoch_changes.clone(),
            inner: self.inner.clone(),
            config: self.config,
        }
    }
}

/// The block that is offered. Its hash is the one that came along with it; `post_hash`, that of
/// the header with the items that were taken off it, is used where none did.
pub open spec fn offer<S>(
    block: BlockImportParams<S>,
    post_hash: BlockHash,
    new_cache: NewCache,
) -> Offered<S> {
    Offered {
        block,
        hash: match block.post_hash {
            Some(known) => known,
            None => post_hash,
        },
        new_cache,
    }
}

impl<T, I> PoCBlockImport<T, I> {
    /// A handler for the chain of this configuration.
    pub fn new(epoch_changes: Arc<T>, inner: I, config: Config) -> (r: PoCBlockImport<T, I>)
        ensures
            r.epoch_changes == epoch_changes,
            r.inner == inner,
            r.config == config,
    {
        PoCBlockImport { epoch_changes, inner, config }
    }

    /// Starts to import `block`. `post_hash` is the hash of the header with the digest items that
    /// were taken off it, and is used where the block does not know it.
    pub fn import_block<S>(
        &self,
        block: BlockImportParams<S>,
        post_hash: BlockHash,
        new_cache: NewCache,
    ) -> (r: AskStatus<S>)
        ensures
            r == (AskStatus { offered: offer(block, post_hash, new_cache) }),
    {
        let hash: BlockHash = match block.post_hash {
            Some(known) => known,
            None => post_hash,
        };
        AskStatus { offered: Offered { block, hash, new_cache } }
    }

    /// Checking a block before it is imported is left to the next importer: what it answers is
    /// answered.
    pub fn check_block<R>(&self, inner: Result<R, ConsensusError>) -> (r: Result<R, ConsensusError>)
        ensures
            r == inner,
    {
        inner
    }
}

impl<S> AskStatus<S> {
    /// The state that follows.
    pub open spec fn after(self, status: Result<BlockStatus, String>) -> ImportState<S> {
        match status {
            Err(text) => refused(ConsensusError::ClientImport(Reason::Node(text)), false),
            Ok(BlockStatus::InChain) => match crate::import_params::intermediate_taken(
                self.offered.block.intermediate,
            ) {
                Err(e) => refused(e, false),
                Ok(_) => ImportState::HandOn(
                    HandOn {
                        offered: Offered {
                            block: BlockImportParams {
                                intermediate: None,
                                fork_choice: Some(ForkChoiceStrategy::Custom(false)),
                                ..self.offered.block
                            },
                            ..self.offered
                        },
                        weight: None,
                        epoch_changed: false,
                    },
                ),
            },
            Ok(BlockStatus::Unknown) => ImportState::Parent(
                AskParent { offered: self.offered },
            ),
        }
    }

    /// Early exit if the block is in the chain already, otherwise the check for epoch changes
    /// would fail when an epoch change is imported again.
    pub fn answered(self, status: Result<BlockStatus, String>) -> (r: ImportState<S>)
        ensures
            r == self.after(status),
    {
        match status {
            Err(text) => ImportState::Refused(
                Refused {
                    error: ConsensusError::ClientImport(Reason::Node(text)),
                    restore: false,
                },
            ),
            Ok(BlockStatus::InChain) => {
                let mut offered: Offered<S> = self.offered;
                // When re-importing an existing block strip away intermediates.
                match offered.block.take_intermediate() {
                    Err(e) => ImportState::Refused(Refused { error: e, restore: false }),
                    Ok(_) => {
                        offered.block.fork_choice = Some(ForkChoiceStrategy::Custom(false));
                        ImportState::HandOn(
                            HandOn { offered, weight: None, epoch_changed: false },
                        )
                    },
                }
            },
            Ok(BlockStatus::Unknown) => ImportState::Parent(
                AskParent { offered: self.offered },
            ),
        }
    }
}

/// The state once the parent's chain weighs `parent_weight`.
fn place<S>(
    offered: Offered<S>,
    slot: Slot,
    parent_slot: Slot,
    parent_weight: PoCBlockWeight,
) -> (r: ImportState<S>)
    requires
        parent_weight < u32::MAX,
    ensures
        r == after_parent_weight(offered, slot, parent_slot, parent_weight),
{
    let mut offered: Offered<S> = offered;
    let intermediate: PoCIntermediate = match offered.block.take_intermediate() {
        Ok(intermediate) => intermediate,
        Err(e) => {
            return ImportState::Refused(Refused { error: e, restore: false });
        },
    };
    let epoch_descriptor: EpochDescriptor = intermediate.epoch_descriptor;
    let first_in_epoch: bool = parent_slot < epoch_descriptor.start_slot();
    let total_weight: u32 = parent_weight + 1;

    // Search for this all the time so we can reject unexpected announcements.
    let next_epoch: Option<NextEpochDescriptor> = match find_next_epoch_digest(
        &offered.block.header,
    ) {
        Ok(found) => found,
        Err(e) => {
            return ImportState::Refused(
                Refused { error: ConsensusError::ClientImport(Reason::Engine(e)), restore: false },
            );
        },
    };
    let next_config: Option<NextConfigDescriptor> = match find_next_config_digest(
        &offered.block.header,
    ) {
        Ok(found) => found,
        Err(e) => {
            return ImportState::Refused(
                Refused { error: ConsensusError::ClientImport(Reason::Engine(e)), restore: false },
            );
        },
    };
    match check_announcement(
        first_in_epoch,
        next_epoch.is_some(),
        next_config.is_some(),
        offered.hash,
        slot,
    ) {
        Err(e) => ImportState::Refused(
            Refused { error: ConsensusError::ClientImport(Reason::Engine(e)), restore: false },
        ),
        Ok(_) => ImportState::Best(
            AskBest {
                placed: Placed { offered, parent_weight, total_weight, epoch_descriptor },
                next_epoch,
                next_config,
            },
        ),
    }
}

/// The state once the best chain weighs `best_weight`.
fn finish<S>(
    placed: Placed<S>,
    best: BestBlock,
    best_weight: PoCBlockWeight,
    epoch_changed: bool,
) -> (r: ImportState<S>)
    ensures
        r == after_best_weight(placed, best, best_weight, epoch_changed),
{
    let mut offered: Offered<S> = placed.offered;
    let better: bool = choose_fork(
        placed.total_weight,
        offered.block.header.number,
        best_weight,
        best.number,
    );
    offered.block.fork_choice = Some(ForkChoiceStrategy::Custom(better));
    ImportState::HandOn(
        HandOn { offered, weight: Some(placed.total_weight), epoch_changed },
    )
}

/// The state once the tree of epoch changes is as it has to be.
fn weigh<S>(placed: Placed<S>, best: BestBlock, epoch_changed: bool) -> (r: ImportState<S>)
    ensures
        r == after_epoch_changes(placed, best, epoch_changed),
{
    if hash_eq(&best.hash, &placed.offered.block.header.parent_hash) {
        // The case of genesis as the parent is covered by the parent's weight.
        let parent_weight: u32 = placed.parent_weight;
        finish(placed, best, parent_weight, epoch_changed)
    } else {
        ImportState::BestWeight(AskBestWeight { placed, best, epoch_changed })
    }
}

impl<S> AskParent<S> {
    /// The header of the block, and that of the parent if it was found, are those of blocks that
    /// were verified: their pre-digests can be read.
    pub open spec fn verified(self, parent: Result<Option<Header>, String>) -> bool {
        &&& slot_in(self.offered.block.header) is Some
        &&& parent matches Ok(Some(header)) ==> slot_in(header) is Some
    }

    /// The state that follows.
    pub open spec fn after(self, parent: Result<Option<Header>, String>) -> ImportState<S> {
        match parent {
            Err(text) => refused(ConsensusError::ChainLookup(Reason::Node(text)), false),
            Ok(None) => refused(
                ConsensusError::ChainLookup(
                    Reason::Engine(
                        Error::ParentUnavailable(
                            self.offered.block.header.parent_hash,
                            self.offered.hash,
                        ),
                    ),
                ),
                false,
            ),
            Ok(Some(header)) => {
                let slot = slot_in(self.offered.block.header)->0;
                let parent_slot = slot_in(header)->0;
                if slot <= parent_slot {
                    refused(import_error(Error::SlotMustIncrease(parent_slot, slot)), false)
                } else if header.number == 0 {
                    after_parent_weight(self.offered, slot, parent_slot, 0)
                } else {
                    ImportState::ParentWeight(
                        AskParentWeight { offered: self.offered, slot, parent_slot },
                    )
                }
            },
        }
    }

    /// Makes sure that the slot number is strictly increasing. The chain of genesis weighs
    /// nothing.
    pub fn answered(self, parent: Result<Option<Header>, String>) -> (r: ImportState<S>)
        requires
            self.verified(parent),
        ensures
            r == self.after(parent),
    {
        let header: Header = match parent {
            Err(text) => {
                return ImportState::Refused(
                    Refused {
                        error: ConsensusError::ChainLookup(Reason::Node(text)),
                        restore: false,
                    },
                );
            },
            Ok(None) => {
                return ImportState::Refused(
                    Refused {
                        error: ConsensusError::ChainLookup(
                            Reason::Engine(
                                Error::ParentUnavailable(
                                    self.offered.block.header.parent_hash,
                                    self.offered.hash,
                                ),
                            ),
                        ),
                        restore: false,
                    },
                );
            },
            Ok(Some(header)) => header,
        };
        let slot: Slot = find_pre_digest(&self.offered.block.header).unwrap().slot;
        let parent_slot: Slot = find_pre_digest(&header).unwrap().slot;
        if slot <= parent_slot {
            return ImportState::Refused(
                Refused {
                    error: ConsensusError::ClientImport(
                        Reason::Engine(Error::SlotMustIncrease(parent_slot, slot)),
                    ),
                    restore: false,
                },
            );
        }
        if header.number == 0 {
            place(self.offered, slot, parent_slot, 0)
        } else {
            ImportState::ParentWeight(
                AskParentWeight { offered: self.offered, slot, parent_slot },
            )
        }
    }
}

impl<S> AskParentWeight<S> {
    /// The state that follows.
    pub open spec fn after(self, loaded: Result<Option<PoCBlockWeight>, String>) -> ImportState<
        S,
    > {
        match loaded {
            Err(text) => refused(ConsensusError::ClientImport(Reason::Node(text)), false),
            Ok(None) => refused(
                import_error(Error::ParentBlockNoAssociatedWeight(self.offered.hash)),
                false,
            ),
            Ok(Some(weight)) => after_parent_weight(
                self.offered,
                self.slot,
                self.parent_slot,
                weight,
            ),
        }
    }

    /// Checks whether there is an epoch change that is expected to happen at the slot.
    pub fn answered(self, loaded: Result<Option<PoCBlockWeight>, String>) -> (r: ImportState<S>)
        requires
            loaded matches Ok(Some(weight)) ==> weight < u32::MAX,
        ensures
            r == self.after(loaded),
    {
        match loaded {
            Err(text) => ImportState::Refused(
                Refused {
                    error: ConsensusError::ClientImport(Reason::Node(text)),
                    restore: false,
                },
            ),
            Ok(None) => ImportState::Refused(
                Refused {
                    error: ConsensusError::ClientImport(
                        Reason::Engine(Error::ParentBlockNoAssociatedWeight(self.offered.hash)),
                    ),
                    restore: false,
                },
            ),
            Ok(Some(weight)) => place(
                self.offered,
                self.slot,
                self.parent_slot,
                weight,
            ),
        }
    }
}

impl<S> AskBest<S> {
    /// The state that follows.
    pub open spec fn after(self, best: BestBlock) -> ImportState<S> {
        match self.next_epoch {
            Some(next_epoch) => ImportState::StoredEpoch(
                AskStoredEpoch {
                    placed: self.placed,
                    next_epoch,
                    next_config: self.next_config,
                    best,
                },
            ),
            None => after_epoch_changes(self.placed, best, false),
        }
    }

    /// The tree of epoch changes is left alone unless the block announces an epoch.
    pub fn answered(self, best: BestBlock) -> (r: ImportState<S>)
        ensures
            r == self.after(best),
    {
        match self.next_epoch {
            Some(next_epoch) => ImportState::StoredEpoch(
                AskStoredEpoch {
                    placed: self.placed,
                    next_epoch,
                    next_config: self.next_config,
                    best,
                },
            ),
            None => weigh(self.placed, best, false),
        }
    }
}

impl<S> AskStoredEpoch<S> {
    /// The epoch of the block, if it is found.
    pub open spec fn epoch_found(self, config: Config, stored: Option<Epoch>) -> Option<
        ViableEpoch,
    > {
        crate::epoch::viable(self.placed.epoch_descriptor, stored, config.genesis)
    }

    /// The state that follows.
    pub open spec fn after(self, config: Config, stored: Option<Epoch>) -> ImportState<S> {
        match self.epoch_found(config, stored) {
            None => refused(
                import_error(Error::FetchEpoch(self.placed.offered.block.header.parent_hash)),
                false,
            ),
            Some(found) => ImportState::Finalized(
                AskFinalized {
                    placed: self.placed,
                    epoch: found.incremented(
                        self.next_epoch,
                        next_configuration(self.next_config, found.epoch().config),
                    ),
                    best: self.best,
                },
            ),
        }
    }

    /// The epoch that is launched follows the epoch of the block, with the randomness that the
    /// block announces.
    pub fn answered(self, config: &Config, stored: Option<Epoch>) -> (r: ImportState<S>)
        requires
            self.epoch_found(*config, stored) matches Some(found)
                ==> found.epoch().can_increment(),
        ensures
            r == self.after(*config, stored),
    {
        match viable_epoch(&self.placed.epoch_descriptor, stored, config) {
            None => ImportState::Refused(
                Refused {
                    error: ConsensusError::ClientImport(
                        Reason::Engine(
                            Error::FetchEpoch(self.placed.offered.block.header.parent_hash),
                        ),
                    ),
                    restore: false,
                },
            ),
            Some(found) => {
                let epoch_config: PoCEpochConfiguration = match self.next_config {
                    Some(announced) => PoCEpochConfiguration::from(announced),
                    None => found.as_ref().config,
                };
                let epoch: PersistedEpoch = found.increment((self.next_epoch, epoch_config));
                ImportState::Finalized(
                    AskFinalized { placed: self.placed, epoch, best: self.best },
                )
            },
        }
    }
}

/// The finalized block up to which the tree of epoch changes is pruned.
pub open spec fn finalized_block(
    hash: BlockHash,
    number: BlockNumber,
    header: Result<Option<Header>, String>,
) -> Result<Finalized, ConsensusError> {
    match header {
        Err(text) => Err(ConsensusError::ClientImport(Reason::Node(text))),
        Ok(found) => Ok(Finalized { hash, number, slot: slot_in(found->0)->0 }),
    }
}

/// The header of the finalized block, if it could be looked up, is there, and is that of a block
/// that was verified.
pub open spec fn finalized_exists(header: Result<Option<Header>, String>) -> bool {
    header matches Ok(found) ==> (found matches Some(h) && slot_in(h) is Some)
}

/// Gets the best finalized block and its slot, up to which the tree of epoch changes is to be
/// pruned. `header` is what was found as the header of the block.
pub fn prune_finalized(
    hash: BlockHash,
    number: BlockNumber,
    header: Result<Option<Header>, String>,
) -> (r: Result<Finalized, ConsensusError>)
    requires
        finalized_exists(header),
    ensures
        r == finalized_block(hash, number, header),
{
    match header {
        Err(text) => Err(ConsensusError::ClientImport(Reason::Node(text))),
        Ok(found) => {
            let finalized_header: Header = found.unwrap();
            let slot: Slot = find_pre_digest(&finalized_header).unwrap().slot;
            Ok(Finalized { hash, number, slot })
        },
    }
}

impl<S> AskFinalized<S> {
    /// The state that follows.
    pub open spec fn after(
        self,
        hash: BlockHash,
        number: BlockNumber,
        header: Result<Option<Header>, String>,
    ) -> ImportState<S> {
        match finalized_block(hash, number, header) {
            Err(e) => refused(e, true),
            Ok(finalized) => ImportState::Prune(
                AskPrune { placed: self.placed, epoch: self.epoch, best: self.best, finalized },
            ),
        }
    }

    /// The tree is pruned of epochs that are not part of the finalized chain or that are not live
    /// anymore, before the epoch change is tracked in it: pruning may not know about the block
    /// that is being imported.
    pub fn answered(
        self,
        hash: BlockHash,
        number: BlockNumber,
        header: Result<Option<Header>, String>,
    ) -> (r: ImportState<S>)
        requires
            finalized_exists(header),
        ensures
            r == self.after(hash, number, header),
    {
        match prune_finalized(hash, number, header) {
            Err(e) => ImportState::Refused(Refused { error: e, restore: true }),
            Ok(finalized) => ImportState::Prune(
                AskPrune { placed: self.placed, epoch: self.epoch, best: self.best, finalized },
            ),
        }
    }
}

impl<S> AskPrune<S> {
    /// The state that follows.
    pub open spec fn after(self, pruned: Result<(), String>) -> ImportState<S> {
        match pruned {
            Err(text) => refused(ConsensusError::ClientImport(Reason::Node(text)), true),
            Ok(_) => ImportState::Launch(
                AskLaunch { placed: self.placed, epoch: self.epoch, best: self.best },
            ),
        }
    }

    /// When the tree cannot be pruned it is put back as it was.
    pub fn answered(self, pruned: Result<(), String>) -> (r: ImportState<S>)
        ensures
            r == self.after(pruned),
    {
        match pruned {
            Err(text) => ImportState::Refused(
                Refused { error: ConsensusError::ClientImport(Reason::Node(text)), restore: true },
            ),
            Ok(_) => ImportState::Launch(
                AskLaunch { placed: self.placed, epoch: self.epoch, best: self.best },
            ),
        }
    }
}

impl<S> AskLaunch<S> {
    /// The state that follows.
    pub open spec fn after(self, launched: Result<(), String>) -> ImportState<S> {
        match launched {
            Err(text) => refused(ConsensusError::ClientImport(Reason::Node(text)), true),
            Ok(_) => after_epoch_changes(self.placed, self.best, true),
        }
    }

    /// When the epoch cannot be put into the tree, the tree is put back as it was.
    pub fn answered(self, launched: Result<(), String>) -> (r: ImportState<S>)
        ensures
            r == self.after(launched),
    {
        match launched {
            Err(text) => ImportState::Refused(
                Refused { error: ConsensusError::ClientImport(Reason::Node(text)), restore: true },
            ),
            Ok(_) => weigh(self.placed, self.best, true),
        }
    }
}

impl<S> AskBestWeight<S> {
    /// The state that follows.
    pub open spec fn after(self, loaded: Result<Option<PoCBlockWeight>, String>) -> ImportState<
        S,
    > {
        match loaded {
            Err(text) => refused(
                ConsensusError::ChainLookup(Reason::Node(text)),
                self.epoch_changed,
            ),
            Ok(None) => refused(
                ConsensusError::ChainLookup(Reason::NoBestWeight),
                self.epoch_changed,
            ),
            Ok(Some(weight)) => after_best_weight(
                self.placed,
                self.best,
                weight,
                self.epoch_changed,
            ),
        }
    }

    /// Without the weight of the best block no fork can be chosen. If the block has launched an
    /// epoch, the tree is put back as it was.
    pub fn answered(self, loaded: Result<Option<PoCBlockWeight>, String>) -> (r: ImportState<S>)
        ensures
            r == self.after(loaded),
    {
        match loaded {
            Err(text) => ImportState::Refused(
                Refused {
                    error: ConsensusError::ChainLookup(Reason::Node(text)),
                    restore: self.epoch_changed,
                },
            ),
            Ok(None) => ImportState::Refused(
                Refused {
                    error: ConsensusError::ChainLookup(Reason::NoBestWeight),
                    restore: self.epoch_changed,
                },
            ),
            Ok(Some(weight)) => finish(self.placed, self.best, weight, self.epoch_changed),
        }
    }
}

/// What the import comes to.
pub struct Imported<R> {
    /// What is answered.
    pub result: Result<R, ConsensusError>,
    /// Whether the tree of epoch changes that was saved is put back.
    pub restore: bool,
}

impl<S> HandOn<S> {
    /// What is put on record with the block: the tree of epoch changes, if it has changed, and the
    /// weight of the chain that ends in the block.
    pub open spec fn records(self) -> Seq<AuxWrite> {
        let tree = if self.epoch_changed {
            seq![AuxWrite::EpochChanges]
        } else {
            Seq::empty()
        };
        match self.weight {
            Some(weight) => tree.push(AuxWrite::BlockWeight(self.offered.hash, weight)),
            None => tree,
        }
    }

    /// The block as the next importer gets it, and what it changes in the node's cache.
    pub fn params(self) -> (r: (BlockImportParams<S>, NewCache))
        ensures
            r.0 == (BlockImportParams { auxiliary: r.0.auxiliary, ..self.offered.block }),
            r.0.auxiliary@ == self.offered.block.auxiliary@ + self.records(),
            r.1 == self.offered.new_cache,
    {
        let mut block: BlockImportParams<S> = self.offered.block;
        if self.epoch_changed {
            block.auxiliary.push(AuxWrite::EpochChanges);
        }
        match self.weight {
            Some(weight) => {
                block.auxiliary.push(AuxWrite::BlockWeight(self.offered.hash, weight));
            },
            None => {},
        }
        assert(block.auxiliary@ =~= self.offered.block.auxiliary@ + self.records());
        (block, self.offered.new_cache)
    }
}

/// Whether the tree of epoch changes is to be restored: it had changed, and the import failed.
pub open spec fn restored<R>(epoch_changed: bool, result: Result<R, ConsensusError>) -> bool {
    epoch_changed && result is Err
}

/// What the import comes to, from what the next importer answered and whether the tree of epoch
/// changes had changed: in case there's an error importing the block, the tree is reverted.
pub fn after_import<R>(epoch_changed: bool, result: Result<R, ConsensusError>) -> (r: Imported<R>)
    ensures
        r.result == result,
        r.restore == restored(epoch_changed, result),
        r.restore == (epoch_changed && result is Err),
{
    let restore: bool = epoch_changed && result.is_err();
    Imported { result, restore }
}

/// The tree of epoch changes was loaded, and is to be pruned up to the last finalized block.
///
/// This isn't entirely necessary, but it is useful as a migration of trees that were never pruned:
/// nodes prune long trees on startup rather than waiting until importing the next epoch change
/// block.
pub struct AskFinalizedAtStart<T, I> {
    /// The tree of epoch changes.
    pub epoch_changes: Arc<T>,
    /// The next importer.
    pub inner: I,
    /// The configuration of the chain.
    pub config: Config,
}

/// The tree of epoch changes is pruned.
pub struct AskPruneAtStart<T, I> {
    /// The tree of epoch changes.
    pub epoch_changes: Arc<T>,
    /// The next importer.
    pub inner: I,
    /// The configuration of the chain.
    pub config: Config,
    /// The finalized block up to which the tree is pruned.
    pub finalized: Finalized,
}

/// Produce a PoC block-import object to be used later on in the construction of an import-queue.
///
/// Also returns a link object used to correctly instantiate the import queue and background
/// worker. Both come once the tree of epoch changes, `loaded`, is pruned.
pub fn block_import<T, I>(config: Config, inner: I, loaded: Result<Arc<T>, ClientError>) -> (r:
    Result<AskFinalizedAtStart<T, I>, ClientError>)
    ensures
        r == loaded_tree(config, inner, loaded),
{
    match loaded {
        Err(e) => Err(e),
        Ok(epoch_changes) => Ok(AskFinalizedAtStart { epoch_changes, inner, config }),
    }
}

/// What follows when the tree of epoch changes was loaded, or could not be.
pub open spec fn loaded_tree<T, I>(
    config: Config,
    inner: I,
    loaded: Result<Arc<T>, ClientError>,
) -> Result<AskFinalizedAtStart<T, I>, ClientError> {
    match loaded {
        Err(e) => Err(e),
        Ok(epoch_changes) => Ok(AskFinalizedAtStart { epoch_changes, inner, config }),
    }
}

impl<T, I> AskFinalizedAtStart<T, I> {
    /// What follows.
    pub open spec fn after(
        self,
        hash: BlockHash,
        number: BlockNumber,
        header: Result<Option<Header>, String>,
    ) -> Result<AskPruneAtStart<T, I>, ClientError> {
        match finalized_block(hash, number, header) {
            Err(e) => Err(ClientError::Consensus(e)),
            Ok(finalized) => Ok(
                AskPruneAtStart {
                    epoch_changes: self.epoch_changes,
                    inner: self.inner,
                    config: self.config,
                    finalized,
                },
            ),
        }
    }

    /// `hash` and `number` are those of the last finalized block, and `header` is what was found
    /// as its header.
    pub fn answered(
        self,
        hash: BlockHash,
        number: BlockNumber,
        header: Result<Option<Header>, String>,
    ) -> (r: Result<AskPruneAtStart<T, I>, ClientError>)
        requires
            finalized_exists(header),
        ensures
            r == self.after(hash, number, header),
    {
        match prune_finalized(hash, number, header) {
            Err(e) => Err(ClientError::Consensus(e)),
            Ok(finalized) => Ok(
                AskPruneAtStart {
                    epoch_changes: self.epoch_changes,
                    inner: self.inner,
                    config: self.config,
                    finalized,
                },
            ),
        }
    }
}

impl<T, I> AskPruneAtStart<T, I> {
    /// What follows.
    pub open spec fn after(self, pruned: Result<(), String>) -> Result<
        (PoCBlockImport<T, I>, PoCLink<T>),
        ClientError,
    > {
        match pruned {
            Err(text) => Err(
                ClientError::Consensus(ConsensusError::ClientImport(Reason::Node(text))),
            ),
            Ok(_) => Ok(
                (
                    PoCBlockImport {
                        epoch_changes: self.epoch_changes,
                        inner: self.inner,
                        config: self.config,
                    },
                    PoCLink { epoch_changes: self.epoch_changes, config: self.config },
                ),
            ),
        }
    }

    /// The importer works on the tree that the link holds.
    pub fn answered(self, pruned: Result<(), String>) -> (r: Result<
        (PoCBlockImport<T, I>, PoCLink<T>),
        ClientError,
    >)
        ensures
            r == self.after(pruned),
    {
        match pruned {
            Err(text) => Err(
                ClientError::Consensus(ConsensusError::ClientImport(Reason::Node(text))),
            ),
            Ok(_) => {
                let link = PoCLink::new(self.epoch_changes.clone(), self.config);
                Ok((PoCBlockImport::new(self.epoch_changes, self.inner, self.config), link))
            },
        }
    }
}

} // verus!
