//! What holds of the single steps of an import.

use crate::config::{ClientError, Config};
use crate::digest::Header;
use crate::digests::NextConfigDescriptor;
use crate::error::{ConsensusError, Error, Reason};
use crate::import::{
    announcement_fault, finalized_block, import_error, is_better, loaded_tree, next_configuration,
    offer, refused, restored, AskFinalized, BestBlock, HandOn, ImportState, Offered, Placed,
    Refused,
};
use crate::import_laws::{next, Answers};
use crate::import_params::{
    intermediate_taken, AuxWrite, BlockImportParams, Intermediate, NewCache,
};
use crate::primitives::{BlockHash, BlockNumber, PoCBlockWeight, PoCEpochConfiguration, Slot};
use crate::scan::slot_in;
use std::sync::Arc;
use vstd::prelude::*;

verus! {

/// A block is offered whole, under its post hash: the one that it brings, and the one that it is
/// offered with where it brings none. Two blocks that bring none are offered under the same hash if
/// and only if they are offered with the same one, whatever their headers hash to.
pub proof fn law_offered_under_the_post_hash<S>(
    block: BlockImportParams<S>,
    post_hash: BlockHash,
    new_cache: NewCache,
    other: BlockImportParams<S>,
    other_hash: BlockHash,
)
    ensures
        offer(block, post_hash, new_cache).block == block,
        offer(block, post_hash, new_cache).new_cache == new_cache,
        block.post_hash is None ==> offer(block, post_hash, new_cache).hash == post_hash,
        block.post_hash matches Some(known) ==> offer(block, post_hash, new_cache).hash == known,
        block.post_hash is None && other.post_hash is None ==> (offer(
            block,
            post_hash,
            new_cache,
        ).hash == offer(other, other_hash, new_cache).hash <==> post_hash == other_hash),
{
}

/// Weight comes first: a heavier chain is better whatever the numbers are, and the numbers only
/// decide between chains that are as heavy.
pub proof fn law_weight_comes_first(
    weight: PoCBlockWeight,
    number: BlockNumber,
    best_weight: PoCBlockWeight,
    best_number: BlockNumber,
)
    ensures
        weight > best_weight ==> is_better(weight, number, best_weight, best_number),
        weight < best_weight ==> !is_better(weight, number, best_weight, best_number),
        weight == best_weight && number > best_number ==> is_better(
            weight,
            number,
            best_weight,
            best_number,
        ),
        weight == best_weight && number <= best_number ==> !is_better(
            weight,
            number,
            best_weight,
            best_number,
        ),
{
}

/// What a block announces is in order if and only if it announces an epoch just where it is the
/// first block of its epoch, and a configuration only along with an epoch. A missing epoch is told
/// with the hash and the slot of the block.
pub proof fn law_announcement(
    first_in_epoch: bool,
    announces_epoch: bool,
    announces_config: bool,
    hash: BlockHash,
    slot: Slot,
)
    ensures
        ({
            let fault = announcement_fault(
                first_in_epoch,
                announces_epoch,
                announces_config,
                hash,
                slot,
            );
            &&& fault is None <==> announces_epoch == first_in_epoch && (announces_config
                ==> announces_epoch)
            &&& fault == Some(Error::ExpectedEpochChange(hash, slot)) <==> first_in_epoch
                && !announces_epoch
            &&& fault == Some(Error::UnexpectedEpochChange) <==> announces_epoch && !first_in_epoch
            &&& fault == Some(Error::UnexpectedConfigChange) <==> announces_config
                && !announces_epoch && !first_in_epoch
        }),
{
}

/// A configuration that is announced is taken as it is, for every configuration that was in force
/// before; where none is announced, the one in force stays.
pub proof fn law_announced_configuration_is_taken(
    c: (u64, u64),
    current: PoCEpochConfiguration,
    other: PoCEpochConfiguration,
)
    ensures
        next_configuration(Some(NextConfigDescriptor::V1 { c }), current).c == c,
        next_configuration(Some(NextConfigDescriptor::V1 { c }), current) == next_configuration(
            Some(NextConfigDescriptor::V1 { c }),
            other,
        ),
        next_configuration(None, current) == current,
        <PoCEpochConfiguration as vstd::std_specs::convert::FromSpec<
            NextConfigDescriptor,
        >>::from_spec(NextConfigDescriptor::V1 { c }).c == c,
{
}

/// An error of the engine is told as one that the import failed with, and a refusal tells the error
/// and whether the tree is put back.
pub proof fn law_refusals_tell_the_error<S>(e: Error, error: ConsensusError, restore: bool)
    ensures
        import_error(e) == ConsensusError::ClientImport(Reason::Engine(e)),
        refused::<S>(error, restore) == ImportState::<S>::Refused(Refused { error, restore }),
{
}

/// The engine's own data is taken out if and only if it is there. Where nothing is there, and where
/// something else is, the errors differ.
pub proof fn law_intermediate_is_taken(held: Option<Intermediate>)
    ensures
        match intermediate_taken(held) {
            Ok(taken) => held == Some(Intermediate::PoC(taken)),
            Err(e) => match held {
                None => e == ConsensusError::NoIntermediate,
                Some(other) => other is Other && e == ConsensusError::InvalidIntermediate,
            },
        },
{
}

/// The tree is pruned up to the last finalized block, at the slot that its own header tells.
pub proof fn law_pruned_up_to_the_finalized_block(
    hash: BlockHash,
    number: BlockNumber,
    header: Result<Option<Header>, String>,
    finalized_slot: Slot,
)
    ensures
        header matches Err(text) ==> finalized_block(hash, number, header) == Err::<
            crate::import::Finalized,
            ConsensusError,
        >(ConsensusError::ClientImport(Reason::Node(text))),
        (header matches Ok(Some(found)) && slot_in(found) == Some(finalized_slot))
            ==> (finalized_block(hash, number, header) matches Ok(finalized) && finalized.hash
            == hash && finalized.number == number && finalized.slot == finalized_slot),
{
}

/// What is put on record with a block: the tree of epoch changes just where it has changed, and the
/// weight just where there is one, under the hash of the block; nothing else, and the tree first.
pub proof fn law_records<S>(h: HandOn<S>)
    ensures
        h.epoch_changed && h.weight is Some ==> h.records() == seq![
            AuxWrite::EpochChanges,
            AuxWrite::BlockWeight(h.offered.hash, h.weight->0),
        ],
        !h.epoch_changed && h.weight is Some ==> h.records() == seq![
            AuxWrite::BlockWeight(h.offered.hash, h.weight->0),
        ],
        h.epoch_changed && h.weight is None ==> h.records() == seq![AuxWrite::EpochChanges],
        !h.epoch_changed && h.weight is None ==> h.records() == Seq::<AuxWrite>::empty(),
{
    if h.epoch_changed && h.weight is Some {
        assert(h.records() =~= seq![
            AuxWrite::EpochChanges,
            AuxWrite::BlockWeight(h.offered.hash, h.weight->0),
        ]);
    } else if h.weight is Some {
        assert(h.records() =~= seq![AuxWrite::BlockWeight(h.offered.hash, h.weight->0)]);
    }
}

/// The block that is being imported, in a state in which it is.
pub open spec fn block_in<S>(state: ImportState<S>) -> Option<Offered<S>> {
    match state {
        ImportState::Status(s) => Some(s.offered),
        ImportState::Parent(s) => Some(s.offered),
        ImportState::ParentWeight(s) => Some(s.offered),
        ImportState::HandOn(s) => Some(s.offered),
        ImportState::Refused(_) => None,
        _ => Some(placed_in(state)->0.offered),
    }
}

/// The block whose place in its epoch was found to be right, in a state in which it was.
pub open spec fn placed_in<S>(state: ImportState<S>) -> Option<Placed<S>> {
    match state {
        ImportState::Best(s) => Some(s.placed),
        ImportState::StoredEpoch(s) => Some(s.placed),
        ImportState::Finalized(s) => Some(s.placed),
        ImportState::Prune(s) => Some(s.placed),
        ImportState::Launch(s) => Some(s.placed),
        ImportState::BestWeight(s) => Some(s.placed),
        _ => None,
    }
}

/// The best block, in a state in which it is known.
pub open spec fn best_in<S>(state: ImportState<S>) -> Option<BestBlock> {
    match state {
        ImportState::StoredEpoch(s) => Some(s.best),
        ImportState::Finalized(s) => Some(s.best),
        ImportState::Prune(s) => Some(s.best),
        ImportState::Launch(s) => Some(s.best),
        ImportState::BestWeight(s) => Some(s.best),
        _ => None,
    }
}

/// No step of an import changes the block that is imported: not the hash that it goes under, not
/// what it changes in the cache, and nothing of the block but the engine's own data and the fork
/// choice. What was found of its weight and its epoch is kept too, and the best block that the node
/// has named, and the epoch that is to be launched.
pub proof fn law_steps_keep_what_is_known<S>(config: Config, state: ImportState<S>, a: Answers)
    ensures
        ({
            let after = next(config, state, a);
            &&& block_in(after) matches Some(later) ==> (block_in(state) matches Some(now)
                && later.hash == now.hash && later.new_cache == now.new_cache && later.block == (
            BlockImportParams {
                intermediate: later.block.intermediate,
                fork_choice: later.block.fork_choice,
                ..now.block
            }))
            &&& placed_in(state) matches Some(now) ==> (placed_in(after) matches Some(later)
                ==> later == now)
            &&& best_in(state) matches Some(now) ==> (best_in(after) matches Some(later) ==> later
                == now)
            &&& state is Best ==> (best_in(after) matches Some(later) ==> later == a.best)
            &&& state matches ImportState::Finalized(s) ==> (after matches ImportState::Prune(t)
                ==> t.epoch == s.epoch)
            &&& state matches ImportState::Prune(s) ==> (after matches ImportState::Launch(t)
                ==> t.epoch == s.epoch)
        }),
{
}

/// While an epoch is launched the tree is pruned up to the last finalized block that the node has
/// named, at the slot that the header of that block tells.
pub proof fn law_launch_prunes_up_to_the_finalized_block<S>(
    state: AskFinalized<S>,
    hash: BlockHash,
    number: BlockNumber,
    header: Header,
)
    requires
        slot_in(header) is Some,
    ensures
        state.after(hash, number, Ok(Some(header))) matches ImportState::Prune(prune)
            && prune.finalized.hash == hash && prune.finalized.number == number && Some(
            prune.finalized.slot,
        ) == slot_in(header),
{
}

/// When the importer is started the tree that was loaded is pruned up to the last finalized block
/// that the node has named, at the slot that the header of that block tells.
pub proof fn law_start_prunes_up_to_the_finalized_block<T, I>(
    config: Config,
    inner: I,
    tree: Arc<T>,
    hash: BlockHash,
    number: BlockNumber,
    header: Header,
)
    requires
        slot_in(header) is Some,
    ensures
        loaded_tree(config, inner, Ok::<Arc<T>, ClientError>(tree)) matches Ok(ask) && ask.after(
            hash,
            number,
            Ok(Some(header)),
        ) matches Ok(prune) && prune.epoch_changes == tree && prune.inner == inner && prune.config
            == config && prune.finalized.hash == hash && prune.finalized.number == number && Some(
            prune.finalized.slot,
        ) == slot_in(header),
{
}

/// A tree of epoch changes that was not changed is never restored; one that was is restored
/// whatever the error of the next importer, and kept whatever its success.
pub proof fn law_tree_is_restored_iff_the_import_fails<R>(e: ConsensusError, success: R)
    ensures
        restored(true, Err::<R, ConsensusError>(e)),
        !restored(true, Ok::<R, ConsensusError>(success)),
        !restored(false, Err::<R, ConsensusError>(e)),
        !restored(false, Ok::<R, ConsensusError>(success)),
{
}


} // verus!
