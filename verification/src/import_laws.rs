//! What holds of every import, whatever the node answers.

use crate::config::{ClientError, Config, PoCLink};
use crate::digest::Header;
use crate::digests::NextConfigDescriptor;
use crate::epoch::{viable, Epoch, EpochDescriptor, PersistedEpoch};
use crate::error::{ConsensusError, Error, Reason};
use crate::import::{
    after_best_weight, after_epoch_changes, finalized_block, import_error, is_better, loaded_tree,
    next_configuration, offer, refused, AskBest, AskFinalized, AskParent, AskStatus, BestBlock,
    BlockStatus, HandOn, ImportState, Offered, Placed, PoCBlockImport, Refused,
};
use crate::import_params::{
    AuxWrite, BlockImportParams, ForkChoiceStrategy, Intermediate, NewCache,
};
use crate::primitives::{BlockHash, BlockNumber, PoCBlockWeight, Slot};
use crate::scan::{next_config_in, next_epoch_in, slot_in};
use std::sync::Arc;
use vstd::prelude::*;

verus! {

/// What the node answers in the course of an import, if it is asked.
pub struct Answers {
    /// Whether it has the block.
    pub status: Result<BlockStatus, String>,
    /// The parent's header.
    pub parent: Result<Option<Header>, String>,
    /// The weight on record for the parent.
    pub parent_weight: Result<Option<PoCBlockWeight>, String>,
    /// The best block.
    pub best: BestBlock,
    /// The epoch on record for the descriptor of the block's epoch.
    pub stored: Option<Epoch>,
    /// The hash of the last finalized block.
    pub finalized_hash: BlockHash,
    /// The number of the last finalized block.
    pub finalized_number: BlockNumber,
    /// The header of the last finalized block.
    pub finalized_header: Result<Option<Header>, String>,
    /// Whether the tree of epoch changes could be pruned.
    pub pruned: Result<(), String>,
    /// Whether the next epoch could be put into the tree.
    pub launched: Result<(), String>,
    /// The weight on record for the best block.
    pub best_weight: Result<Option<PoCBlockWeight>, String>,
}

/// How far an import is from its end.
pub open spec fn questions_left<S>(state: ImportState<S>) -> nat {
    match state {
        ImportState::Status(_) => 9,
        ImportState::Parent(_) => 8,
        ImportState::ParentWeight(_) => 7,
        ImportState::Best(_) => 6,
        ImportState::StoredEpoch(_) => 5,
        ImportState::Finalized(_) => 4,
        ImportState::Prune(_) => 3,
        ImportState::Launch(_) => 2,
        ImportState::BestWeight(_) => 1,
        ImportState::HandOn(_) => 0,
        ImportState::Refused(_) => 0,
    }
}

/// The state that follows when the node answers what is asked in a state.
pub open spec fn next<S>(
    config: Config,
    state: ImportState<S>,
    a: Answers,
) -> ImportState<S> {
    match state {
        ImportState::Status(s) => s.after(a.status),
        ImportState::Parent(s) => s.after(a.parent),
        ImportState::ParentWeight(s) => s.after(a.parent_weight),
        ImportState::Best(s) => s.after(a.best),
        ImportState::StoredEpoch(s) => s.after(config, a.stored),
        ImportState::Finalized(s) => s.after(
            a.finalized_hash,
            a.finalized_number,
            a.finalized_header,
        ),
        ImportState::Prune(s) => s.after(a.pruned),
        ImportState::Launch(s) => s.after(a.launched),
        ImportState::BestWeight(s) => s.after(a.best_weight),
        ImportState::HandOn(_) => state,
        ImportState::Refused(_) => state,
    }
}

/// The state in which the import ends: the block is handed on or refused.
#[verifier::opaque]
pub open spec fn settled<S>(
    config: Config,
    state: ImportState<S>,
    a: Answers,
) -> ImportState<S>
    decreases questions_left(state),
{
    if questions_left(state) == 0 {
        state
    } else {
        settled(config, next(config, state, a), a)
    }
}

/// How the import of a block ends.
pub open spec fn import_end<S>(
    config: Config,
    offered: Offered<S>,
    a: Answers,
) -> ImportState<S> {
    settled(config, ImportState::Status(AskStatus { offered }), a)
}

/// The weight of the chain that ends in the parent: none if the parent is genesis, else the one
/// on record.
pub open spec fn weight_of_parent(a: Answers) -> Option<PoCBlockWeight> {
    match a.parent {
        Ok(Some(header)) => if header.number == 0 {
            Some(0)
        } else {
            match a.parent_weight {
                Ok(weight) => weight,
                Err(_) => None,
            }
        },
        _ => None,
    }
}

/// The weight of the chain that ends in the best block: that of the parent's chain if the best
/// block is the parent, else the one on record.
pub open spec fn weight_of_best(a: Answers, parent_hash: BlockHash) -> Option<PoCBlockWeight> {
    if a.best.hash == parent_hash {
        weight_of_parent(a)
    } else {
        match a.best_weight {
            Ok(weight) => weight,
            Err(_) => None,
        }
    }
}

/// Every question brings the import nearer to its end, so that it ends.
pub proof fn law_import_ends<S>(config: Config, state: ImportState<S>, a: Answers)
    ensures
        questions_left(state) > 0 ==> questions_left(next(config, state, a)) < questions_left(
            state,
        ),
        settled(config, state, a) is HandOn || settled(config, state, a) is Refused,
    decreases questions_left(state),
{
    lemma_step(config, state, a);
    if questions_left(state) > 0 {
        law_import_ends(config, next(config, state, a), a);
    }
}

/// The end of an import is the end that it has after one more answer.
proof fn lemma_step<S>(config: Config, state: ImportState<S>, a: Answers)
    ensures
        questions_left(state) == 0 ==> settled(config, state, a) == state,
        questions_left(state) > 0 ==> settled(config, state, a) == settled(
            config,
            next(config, state, a),
            a,
        ),
{
    reveal(settled);
}

/// The end of an import once the tree of epoch changes is as it has to be.
pub open spec fn weighed_end<S>(placed: Placed<S>, a: Answers, epoch_changed: bool) -> ImportState<
    S,
> {
    let best_weight = if a.best.hash == placed.offered.block.header.parent_hash {
        Ok(Some(placed.parent_weight))
    } else {
        a.best_weight
    };
    match best_weight {
        Err(text) => refused(ConsensusError::ChainLookup(Reason::Node(text)), epoch_changed),
        Ok(None) => refused(ConsensusError::ChainLookup(Reason::NoBestWeight), epoch_changed),
        Ok(Some(weight)) => after_best_weight(placed, a.best, weight, epoch_changed),
    }
}

proof fn lemma_weighed_end<S>(
    config: Config,
    placed: Placed<S>,
    a: Answers,
    epoch_changed: bool,
)
    ensures
        settled(config, after_epoch_changes(placed, a.best, epoch_changed), a) == weighed_end(
            placed,
            a,
            epoch_changed,
        ),
{
    let state = after_epoch_changes(placed, a.best, epoch_changed);
    lemma_step(config, state, a);
    lemma_step(config, next(config, state, a), a);
}

/// The end of an import that launches the epoch `epoch`.
pub open spec fn launch_end<S>(placed: Placed<S>, a: Answers) -> ImportState<S> {
    match finalized_block(a.finalized_hash, a.finalized_number, a.finalized_header) {
        Err(e) => refused(e, true),
        Ok(_) => match (a.pruned, a.launched) {
            (Err(text), _) => refused(ConsensusError::ClientImport(Reason::Node(text)), true),
            (Ok(_), Err(text)) => refused(ConsensusError::ClientImport(Reason::Node(text)), true),
            (Ok(_), Ok(_)) => weighed_end(placed, a, true),
        },
    }
}

proof fn lemma_launch_end<S>(config: Config, state: AskFinalized<S>, a: Answers)
    requires
        state.best == a.best,
    ensures
        settled(config, ImportState::Finalized(state), a) == launch_end(state.placed, a),
{
    let s1 = ImportState::Finalized(state);
    let s2 = next(config, s1, a);
    let s3 = next(config, s2, a);
    let s4 = next(config, s3, a);
    lemma_step(config, s1, a);
    lemma_step(config, s2, a);
    if s2 is Prune {
        lemma_step(config, s3, a);
        if s3 is Launch {
            lemma_weighed_end(config, state.placed, a, true);
            lemma_step(config, s4, a);
        }
    }
}

/// The end of an import once the block's place in its epoch was found to be right.
pub open spec fn placed_end<S>(config: Config, s: AskBest<S>, a: Answers) -> ImportState<
    S,
> {
    match s.next_epoch {
        None => weighed_end(s.placed, a, false),
        Some(_) => match viable(s.placed.epoch_descriptor, a.stored, config.genesis) {
            None => refused(
                import_error(Error::FetchEpoch(s.placed.offered.block.header.parent_hash)),
                false,
            ),
            Some(_) => launch_end(s.placed, a),
        },
    }
}

proof fn lemma_placed_end<S>(config: Config, state: AskBest<S>, a: Answers)
    ensures
        settled(config, ImportState::Best(state), a) == placed_end(config, state, a),
{
    let s1 = ImportState::Best(state);
    let s2 = next(config, s1, a);
    lemma_step(config, s1, a);
    match state.next_epoch {
        None => {
            lemma_weighed_end(config, state.placed, a, false);
        },
        Some(_) => {
            let s3 = next(config, s2, a);
            lemma_step(config, s2, a);
            lemma_step(config, s3, a);
            match s3 {
                ImportState::Finalized(f) => {
                    lemma_launch_end(config, f, a);
                },
                _ => {},
            }
        },
    }
}

/// The state of an import once the weight of the parent's chain is known, or the refusal.
pub open spec fn parent_end<S>(
    offered: Offered<S>,
    a: Answers,
) -> ImportState<S> {
    let state = (AskParent { offered }).after(a.parent);
    match state {
        ImportState::ParentWeight(s) => s.after(a.parent_weight),
        _ => state,
    }
}

/// The end of the import of a block that is not known yet.
pub open spec fn new_block_end<S>(
    config: Config,
    offered: Offered<S>,
    a: Answers,
) -> ImportState<S> {
    match parent_end(offered, a) {
        ImportState::Best(s) => placed_end(config, s, a),
        state => state,
    }
}

proof fn lemma_new_block_end<S>(
    config: Config,
    offered: Offered<S>,
    a: Answers,
)
    requires
        a.status == Ok::<BlockStatus, String>(BlockStatus::Unknown),
    ensures
        import_end(config, offered, a) == new_block_end(config, offered, a),
{
    let s1 = ImportState::Status(AskStatus { offered });
    let s2 = ImportState::Parent(AskParent { offered });
    let s3 = next(config, s2, a);
    lemma_step(config, s1, a);
    lemma_step(config, s2, a);
    lemma_step(config, s3, a);
    let s4 = parent_end(offered, a);
    lemma_step(config, s4, a);
    match s4 {
        ImportState::Best(s) => {
            lemma_placed_end(config, s, a);
        },
        _ => {},
    }
}

proof fn lemma_import_end<S>(
    config: Config,
    offered: Offered<S>,
    a: Answers,
)
    ensures
        import_end(config, offered, a) == (match a.status {
            Ok(BlockStatus::Unknown) => new_block_end(config, offered, a),
            _ => (AskStatus { offered }).after(a.status),
        }),
{
    match a.status {
        Ok(BlockStatus::Unknown) => {
            lemma_new_block_end(config, offered, a);
        },
        _ => {
            let s1 = ImportState::Status(AskStatus { offered });
            lemma_step(config, s1, a);
            lemma_step(config, next(config, s1, a), a);
        },
    }
}

/// Why a block is refused, if it is, that is not known yet: the first thing that is wrong.
pub open spec fn new_block_fault<S>(
    config: Config,
    offered: Offered<S>,
    a: Answers,
) -> Option<Refused> {
    let header = offered.block.header;
    let parent = a.parent->Ok_0->0;
    let slot = slot_in(header)->0;
    let parent_slot = slot_in(parent)->0;
    let descriptor = offered.block.intermediate->0->PoC_0.epoch_descriptor;
    let next_epoch = crate::scan::next_epoch_in(header);
    let next_config = crate::scan::next_config_in(header);
    let first_in_epoch = parent_slot < descriptor.starts_at();
    let launches = next_epoch->Ok_0 is Some;
    let best_is_parent = a.best.hash == header.parent_hash;
    if a.parent is Err {
        Some(Refused { error: lookup_error(a.parent->Err_0), restore: false })
    } else if a.parent->Ok_0 is None {
        Some(
            Refused {
                error: ConsensusError::ChainLookup(
                    Reason::Engine(Error::ParentUnavailable(header.parent_hash, offered.hash)),
                ),
                restore: false,
            },
        )
    } else if slot <= parent_slot {
        Some(
            Refused {
                error: engine_error(Error::SlotMustIncrease(parent_slot, slot)),
                restore: false,
            },
        )
    } else if parent.number != 0 && a.parent_weight is Err {
        Some(Refused { error: node_error(a.parent_weight->Err_0), restore: false })
    } else if parent.number != 0 && a.parent_weight->Ok_0 is None {
        Some(
            Refused {
                error: engine_error(Error::ParentBlockNoAssociatedWeight(offered.hash)),
                restore: false,
            },
        )
    } else if offered.block.intermediate is None {
        Some(Refused { error: ConsensusError::NoIntermediate, restore: false })
    } else if offered.block.intermediate == Some(Intermediate::Other) {
        Some(Refused { error: ConsensusError::InvalidIntermediate, restore: false })
    } else if next_epoch is Err {
        Some(Refused { error: engine_error(next_epoch->Err_0), restore: false })
    } else if next_config is Err {
        Some(Refused { error: engine_error(next_config->Err_0), restore: false })
    } else if first_in_epoch && !launches {
        Some(
            Refused {
                error: engine_error(Error::ExpectedEpochChange(offered.hash, slot)),
                restore: false,
            },
        )
    } else if !first_in_epoch && launches {
        Some(Refused { error: engine_error(Error::UnexpectedEpochChange), restore: false })
    } else if !first_in_epoch && next_config->Ok_0 is Some {
        Some(Refused { error: engine_error(Error::UnexpectedConfigChange), restore: false })
    } else if launches && viable(descriptor, a.stored, config.genesis) is None {
        Some(
            Refused { error: engine_error(Error::FetchEpoch(header.parent_hash)), restore: false },
        )
    } else if launches && a.finalized_header is Err {
        Some(Refused { error: node_error(a.finalized_header->Err_0), restore: true })
    } else if launches && a.pruned is Err {
        Some(Refused { error: node_error(a.pruned->Err_0), restore: true })
    } else if launches && a.launched is Err {
        Some(Refused { error: node_error(a.launched->Err_0), restore: true })
    } else if !best_is_parent && a.best_weight is Err {
        Some(Refused { error: lookup_error(a.best_weight->Err_0), restore: launches })
    } else if !best_is_parent && a.best_weight->Ok_0 is None {
        Some(
            Refused { error: ConsensusError::ChainLookup(Reason::NoBestWeight), restore: launches },
        )
    } else {
        None
    }
}

/// An error of the engine that stops the import.
pub open spec fn engine_error(error: Error) -> ConsensusError {
    ConsensusError::ClientImport(Reason::Engine(error))
}

/// An error of the node that stops the import.
pub open spec fn node_error(text: String) -> ConsensusError {
    ConsensusError::ClientImport(Reason::Node(text))
}

/// An error of the node that keeps the chain from being looked up.
pub open spec fn lookup_error(text: String) -> ConsensusError {
    ConsensusError::ChainLookup(Reason::Node(text))
}

/// A block that is not known yet is handed on if there is nothing wrong with it, and refused with
/// the first thing that is wrong otherwise.
pub proof fn law_new_block_is_imported_iff_faultless<S>(
    config: Config,
    offered: Offered<S>,
    a: Answers,
)
    requires
        a.status == Ok::<BlockStatus, String>(BlockStatus::Unknown),
    ensures
        match new_block_fault(config, offered, a) {
            Some(refusal) => import_end(config, offered, a) == ImportState::<S>::Refused(
                refusal,
            ),
            None => import_end(config, offered, a) is HandOn,
        },
{
    lemma_new_block_end(config, offered, a);
}

/// What is known of a block that was not in the chain and is handed on.
pub open spec fn handed_on_new<S>(
    config: Config,
    offered: Offered<S>,
    a: Answers,
    h: HandOn<S>,
) -> bool {
    &&& a.status == Ok::<BlockStatus, String>(BlockStatus::Unknown)
    &&& import_end(config, offered, a) == ImportState::HandOn(h)
}

/// A block that is imported for the first time has a later slot than its parent.
pub proof fn law_slots_increase<S>(
    config: Config,
    offered: Offered<S>,
    a: Answers,
    h: HandOn<S>,
)
    requires
        handed_on_new(config, offered, a, h),
        slot_in(offered.block.header) is Some,
        a.parent matches Ok(Some(header)) ==> slot_in(header) is Some,
    ensures
        a.parent matches Ok(Some(header)) && slot_in(header)->0 < slot_in(offered.block.header)->0,
{
    lemma_new_block_end(config, offered, a);
}

/// The first block of an epoch in its chain announces the next epoch, and no other block does; a
/// configuration is announced only along with an epoch.
pub proof fn law_epoch_changes_where_expected<S>(
    config: Config,
    offered: Offered<S>,
    a: Answers,
    h: HandOn<S>,
)
    requires
        handed_on_new(config, offered, a, h),
        a.parent matches Ok(Some(header)) ==> slot_in(header) is Some,
    ensures
        offered.block.intermediate matches Some(Intermediate::PoC(intermediate))
            && a.parent matches Ok(Some(header)) && {
            let first_in_epoch = slot_in(header)->0 < intermediate.epoch_descriptor.starts_at();
            &&& crate::scan::next_epoch_in(offered.block.header) matches Ok(next_epoch)
            &&& crate::scan::next_config_in(offered.block.header) matches Ok(next_config)
            &&& next_epoch is Some <==> first_in_epoch
            &&& next_config is Some ==> next_epoch is Some
            &&& h.epoch_changed <==> first_in_epoch
        },
{
    lemma_new_block_end(config, offered, a);
}

/// A block adds one to the weight of its parent's chain, and that weight is put on record for it.
pub proof fn law_block_adds_one_to_weight<S>(
    config: Config,
    offered: Offered<S>,
    a: Answers,
    h: HandOn<S>,
)
    requires
        handed_on_new(config, offered, a, h),
        weight_of_parent(a) matches Some(weight) ==> weight < u32::MAX,
    ensures
        weight_of_parent(a) matches Some(weight) && h.weight == Some((weight + 1) as u32),
        h.records().last() == AuxWrite::BlockWeight(offered.hash, h.weight->0),
        h.records().contains(AuxWrite::EpochChanges) <==> h.epoch_changed,
{
    lemma_new_block_end(config, offered, a);
    if h.epoch_changed {
        assert(h.records()[0] == AuxWrite::EpochChanges);
    }
}

/// The fork choice: a block becomes the best one if and only if its chain is heavier than the best
/// one, or as heavy and longer.
pub proof fn law_heaviest_chain_wins<S>(
    config: Config,
    offered: Offered<S>,
    a: Answers,
    h: HandOn<S>,
)
    requires
        handed_on_new(config, offered, a, h),
    ensures
        h.weight matches Some(weight) && weight_of_best(
            a,
            offered.block.header.parent_hash,
        ) matches Some(best_weight) && h.offered.block.fork_choice == Some(
            ForkChoiceStrategy::Custom(
                is_better(weight, offered.block.header.number, best_weight, a.best.number),
            ),
        ),
{
    lemma_new_block_end(config, offered, a);
}

/// A block on top of the best block is always the new best block.
pub proof fn law_child_of_best_is_best<S>(
    config: Config,
    offered: Offered<S>,
    a: Answers,
    h: HandOn<S>,
)
    requires
        handed_on_new(config, offered, a, h),
        a.best.hash == offered.block.header.parent_hash,
        weight_of_parent(a) matches Some(weight) ==> weight < u32::MAX,
    ensures
        h.offered.block.fork_choice == Some(ForkChoiceStrategy::Custom(true)),
{
    law_heaviest_chain_wins(config, offered, a, h);
    law_block_adds_one_to_weight(config, offered, a, h);
}

/// "Better" is a strict total order on weights and numbers: of two chains that differ in either,
/// exactly one is better, none is better than itself, and what is better than a better one is
/// better.
pub proof fn law_better_is_an_order(
    w1: PoCBlockWeight,
    n1: BlockNumber,
    w2: PoCBlockWeight,
    n2: BlockNumber,
    w3: PoCBlockWeight,
    n3: BlockNumber,
)
    ensures
        !is_better(w1, n1, w1, n1),
        !(is_better(w1, n1, w2, n2) && is_better(w2, n2, w1, n1)),
        (w1, n1) != (w2, n2) ==> is_better(w1, n1, w2, n2) || is_better(w2, n2, w1, n1),
        is_better(w1, n1, w2, n2) && is_better(w2, n2, w3, n3) ==> is_better(w1, n1, w3, n3),
{
}

/// A block that is in the chain already never becomes the best one, and leaves the tree of epoch
/// changes and the records alone.
pub proof fn law_reimport_changes_nothing<S>(
    config: Config,
    offered: Offered<S>,
    a: Answers,
)
    requires
        a.status == Ok::<BlockStatus, String>(BlockStatus::InChain),
    ensures
        match import_end(config, offered, a) {
            ImportState::HandOn(h) => {
                &&& h.offered.block.fork_choice == Some(ForkChoiceStrategy::Custom(false))
                &&& !h.epoch_changed
                &&& h.records() =~= Seq::empty()
            },
            ImportState::Refused(r) => !r.restore,
            _ => false,
        },
{
    lemma_import_end(config, offered, a);
}

/// What a block announces, and how it is handed on, does not change what it holds: apart from the
/// engine's own data, which is taken off, and the fork choice, the block is handed on as it came.
pub proof fn law_block_is_handed_on_whole<S>(
    config: Config,
    offered: Offered<S>,
    a: Answers,
    h: HandOn<S>,
)
    requires
        import_end(config, offered, a) == ImportState::HandOn(h),
    ensures
        h.offered == (Offered {
            block: BlockImportParams {
                intermediate: None,
                fork_choice: h.offered.block.fork_choice,
                ..offered.block
            },
            ..offered
        }),
        h.offered.block.fork_choice is Some,
{
    lemma_import_end(config, offered, a);
}

/// The epoch that the import asks to be put into the tree of epoch changes, if it comes to that.
#[verifier::opaque]
pub open spec fn launches<S>(config: Config, state: ImportState<S>, a: Answers) -> Option<
    PersistedEpoch,
>
    decreases questions_left(state),
{
    match state {
        ImportState::Launch(s) => Some(s.epoch),
        _ => if questions_left(state) == 0 {
            None
        } else {
            launches(config, next(config, state, a), a)
        },
    }
}

/// Whether, in the course of an import, the tree of epoch changes was worked on.
#[verifier::opaque]
pub open spec fn tree_worked_on<S>(
    config: Config,
    state: ImportState<S>,
    a: Answers,
) -> bool
    decreases questions_left(state),
{
    match state {
        ImportState::Prune(_) => true,
        _ => questions_left(state) > 0 && tree_worked_on(config, next(config, state, a), a),
    }
}

/// One answer does not change what an import comes to do to the tree, unless it is the one that
/// does it.
proof fn lemma_tree_step<S>(config: Config, state: ImportState<S>, a: Answers)
    ensures
        state matches ImportState::Launch(s) ==> launches(config, state, a) == Some(s.epoch),
        questions_left(state) == 0 ==> launches(config, state, a) is None && !tree_worked_on(
            config,
            state,
            a,
        ),
        questions_left(state) > 0 && !(state is Launch) ==> launches(config, state, a)
            == launches(config, next(config, state, a), a),
        state is Prune ==> tree_worked_on(config, state, a),
        questions_left(state) > 0 && !(state is Prune) ==> tree_worked_on(config, state, a)
            == tree_worked_on(config, next(config, state, a), a),
{
    reveal(launches);
    reveal(tree_worked_on);
}

/// Once no epoch is left to launch, the tree is left alone.
proof fn lemma_tree_rests<S>(
    config: Config,
    placed: Placed<S>,
    a: Answers,
    epoch_changed: bool,
)
    ensures
        ({
            let state = after_epoch_changes(placed, a.best, epoch_changed);
            launches(config, state, a) is None && !tree_worked_on(config, state, a)
        }),
{
    let state = after_epoch_changes(placed, a.best, epoch_changed);
    lemma_tree_step(config, state, a);
    lemma_tree_step(config, next(config, state, a), a);
}

/// What an import does to the tree, once the block's place in its epoch was found to be right.
proof fn lemma_placed_tree<S>(config: Config, state: AskBest<S>, a: Answers)
    ensures
        ({
            let found = viable(
                state.placed.epoch_descriptor,
                a.stored,
                config.genesis,
            );
            let finalized = finalized_block(
                a.finalized_hash,
                a.finalized_number,
                a.finalized_header,
            );
            let worked_on = state.next_epoch is Some && found is Some && finalized is Ok;
            &&& tree_worked_on(config, ImportState::Best(state), a) == worked_on
            &&& launches(config, ImportState::Best(state), a) == (if worked_on && a.pruned is Ok {
                Some(
                    found->0.incremented(
                        state.next_epoch->0,
                        next_configuration(state.next_config, found->0.epoch().config),
                    ),
                )
            } else {
                None
            })
        }),
{
    let s1 = ImportState::Best(state);
    let s2 = next(config, s1, a);
    lemma_tree_step(config, s1, a);
    if state.next_epoch is None {
        lemma_tree_rests(config, state.placed, a, false);
    } else {
        let s3 = next(config, s2, a);
        lemma_tree_step(config, s2, a);
        lemma_tree_step(config, s3, a);
        if s3 is Finalized {
            let s4 = next(config, s3, a);
            lemma_tree_step(config, s4, a);
            if s4 is Prune {
                lemma_tree_step(config, next(config, s4, a), a);
            }
        }
    }
}

/// What an import does to the tree.
proof fn lemma_import_tree<S>(
    config: Config,
    offered: Offered<S>,
    a: Answers,
)
    ensures
        ({
            let start = ImportState::Status(AskStatus { offered });
            match (a.status, parent_end(offered, a)) {
                (Ok(BlockStatus::Unknown), ImportState::Best(s)) => {
                    &&& tree_worked_on(config, start, a) == tree_worked_on(
                        config,
                        ImportState::Best(s),
                        a,
                    )
                    &&& launches(config, start, a) == launches(config, ImportState::Best(s), a)
                },
                _ => !tree_worked_on(config, start, a) && launches(config, start, a) is None,
            }
        }),
{
    let s1 = ImportState::Status(AskStatus { offered });
    let s2 = next(config, s1, a);
    lemma_tree_step(config, s1, a);
    lemma_tree_step(config, s2, a);
    if s2 is Parent {
        let s3 = next(config, s2, a);
        lemma_tree_step(config, s3, a);
        if s3 is ParentWeight {
            lemma_tree_step(config, next(config, s3, a), a);
        }
    }
}

/// The epoch that a block launches is the one after its own: the next index, from the end of the
/// block's epoch on, as long, with the randomness that the block announces. The first block of all
/// puts its own epoch on record along with it.
pub proof fn law_launched_epoch_follows<S>(
    config: Config,
    offered: Offered<S>,
    a: Answers,
    launched: PersistedEpoch,
)
    requires
        launches(config, ImportState::Status(AskStatus { offered }), a) == Some(launched),
    ensures
        offered.block.intermediate matches Some(Intermediate::PoC(intermediate))
            && crate::scan::next_epoch_in(offered.block.header) matches Ok(Some(announced))
            && crate::scan::next_config_in(offered.block.header) matches Ok(announced_config)
            && viable(
            intermediate.epoch_descriptor,
            a.stored,
            config.genesis,
        ) matches Some(own) && {
            let next = own.epoch().successor(
                announced,
                next_configuration(announced_config, own.epoch().config),
            );
            match launched {
                PersistedEpoch::Genesis(first, second) => {
                    &&& intermediate.epoch_descriptor is UnimportedGenesis
                    &&& first == own.epoch()
                    &&& second == next
                },
                PersistedEpoch::Regular(epoch) => {
                    &&& intermediate.epoch_descriptor is Signaled
                    &&& epoch == next
                },
            }
        },
{
    lemma_import_tree(config, offered, a);
    match parent_end(offered, a) {
        ImportState::Best(s) => {
            lemma_placed_tree(config, s, a);
        },
        _ => {},
    }
}

/// A refused block leaves the tree of epoch changes as it was: if the tree was worked on, it is put
/// back.
pub proof fn law_refusal_leaves_the_tree<S>(config: Config, offered: Offered<S>, a: Answers)
    ensures
        import_end(config, offered, a) matches ImportState::Refused(r) ==> tree_worked_on(
            config,
            ImportState::Status(AskStatus { offered }),
            a,
        ) ==> r.restore,
{
    lemma_import_end(config, offered, a);
    lemma_import_tree(config, offered, a);
    match parent_end(offered, a) {
        ImportState::Best(s) => {
            lemma_placed_tree(config, s, a);
        },
        _ => {},
    }
}

/// A block that is handed on has the tree put back, if the next importer fails, just where the tree
/// was worked on: whether it was is what the block is handed on with.
pub proof fn law_failed_import_leaves_the_tree<S>(
    config: Config,
    offered: Offered<S>,
    a: Answers,
    h: HandOn<S>,
)
    requires
        import_end(config, offered, a) == ImportState::HandOn(h),
    ensures
        h.epoch_changed <==> tree_worked_on(
            config,
            ImportState::Status(AskStatus { offered }),
            a,
        ),
{
    lemma_import_end(config, offered, a);
    lemma_import_tree(config, offered, a);
    match parent_end(offered, a) {
        ImportState::Best(s) => {
            lemma_placed_tree(config, s, a);
        },
        _ => {},
    }
}

/// What starting the importer comes to: the tree of epoch changes is loaded, the last finalized
/// block is looked up, and the tree is pruned.
pub open spec fn started<T, I>(
    config: Config,
    inner: I,
    loaded: Result<Arc<T>, ClientError>,
    a: Answers,
) -> Result<(PoCBlockImport<T, I>, PoCLink<T>), ClientError> {
    match loaded_tree(config, inner, loaded) {
        Err(e) => Err(e),
        Ok(s) => match s.after(a.finalized_hash, a.finalized_number, a.finalized_header) {
            Err(e) => Err(e),
            Ok(s) => s.after(a.pruned),
        },
    }
}

/// The importer and the link share one tree of epoch changes, the one that was loaded and pruned,
/// and one configuration, and the importer wraps the next one. There is an importer if and only if
/// the tree could be loaded and pruned; else the first failure is what is answered.
pub proof fn law_importer_and_link_share_the_tree<T, I>(
    config: Config,
    inner: I,
    loaded: Result<Arc<T>, ClientError>,
    a: Answers,
)
    ensures
        match (loaded, a.finalized_header, a.pruned) {
            (Ok(tree), Ok(_), Ok(_)) => started(config, inner, loaded, a) matches Ok((import, link))
                && import.epoch_changes == tree && link.epoch_changes == tree && import.inner
                == inner && import.config == config && link.config == config,
            (Err(e), _, _) => started(config, inner, loaded, a) == Err::<
                (PoCBlockImport<T, I>, PoCLink<T>),
                ClientError,
            >(e),
            (Ok(_), Err(text), _) => started(config, inner, loaded, a) == Err::<
                (PoCBlockImport<T, I>, PoCLink<T>),
                ClientError,
            >(ClientError::Consensus(node_error(text))),
            (Ok(_), Ok(_), Err(text)) => started(config, inner, loaded, a) == Err::<
                (PoCBlockImport<T, I>, PoCLink<T>),
                ClientError,
            >(ClientError::Consensus(node_error(text))),
        },
{
}

/// One block of a chain, as it was imported.
pub struct Link<S> {
    /// The block.
    pub offered: Offered<S>,
    /// What the node answered.
    pub a: Answers,
    /// How it was handed on.
    pub h: HandOn<S>,
}

/// Whether a block of a chain was imported: the first one on top of genesis, any other with the
/// weight on record that the import of the one before put there.
pub open spec fn imported_link<S>(config: Config, chain: Seq<Link<S>>, i: int) -> bool {
    let link = chain[i];
    &&& handed_on_new(config, link.offered, link.a, link.h)
    &&& link.a.parent matches Ok(Some(header)) && (header.number == 0 <==> i == 0)
    &&& i > 0 ==> link.a.parent_weight == Ok::<Option<PoCBlockWeight>, String>(
        chain[i - 1].h.weight,
    )
}

/// The weight of a chain is the number of blocks in it after genesis.
pub proof fn law_weight_counts_blocks<S>(config: Config, chain: Seq<Link<S>>, n: int)
    requires
        forall|i: int| 0 <= i < chain.len() ==> #[trigger] imported_link(config, chain, i),
        0 <= n < chain.len() <= u32::MAX,
    ensures
        chain[n].h.weight == Some((n + 1) as u32),
    decreases n,
{
    let link = chain[n];
    assert(imported_link(config, chain, n));
    if n > 0 {
        law_weight_counts_blocks(config, chain, n - 1);
    }
    law_block_adds_one_to_weight(config, link.offered, link.a, link.h);
}

/// Whether a block of a chain has the block before it as its parent.
pub open spec fn on_top<S>(chain: Seq<Link<S>>, k: int) -> bool {
    chain[k].a.parent == Ok::<Option<Header>, String>(Some(chain[k - 1].offered.block.header))
}

/// Along a chain of blocks that were imported one on top of the other slots increase: of two
/// blocks, the later one has the later slot.
pub proof fn law_slots_increase_along_a_chain<S>(
    config: Config,
    chain: Seq<Link<S>>,
    i: int,
    j: int,
)
    requires
        0 <= i < j < chain.len(),
        forall|k: int| 0 < k < chain.len() ==> #[trigger] on_top(chain, k),
        forall|k: int|
            #![trigger chain[k]]
            0 <= k < chain.len() ==> slot_in(chain[k].offered.block.header) is Some
                && handed_on_new(config, chain[k].offered, chain[k].a, chain[k].h),
    ensures
        slot_in(chain[i].offered.block.header)->0 < slot_in(chain[j].offered.block.header)->0,
    decreases j,
{
    let link = chain[j];
    assert(on_top(chain, j));
    law_slots_increase(config, link.offered, link.a, link.h);
    if i < j - 1 {
        law_slots_increase_along_a_chain(config, chain, i, j - 1);
    }
}

/// The weight and the number of the best block, once some blocks were imported one after the other
/// on a node whose best block was `best`: each takes the place of the best one if it is better.
pub open spec fn best_after(
    best: (PoCBlockWeight, BlockNumber),
    blocks: Seq<(PoCBlockWeight, BlockNumber)>,
) -> (PoCBlockWeight, BlockNumber)
    decreases blocks.len(),
{
    if blocks.len() == 0 {
        best
    } else {
        let before = best_after(best, blocks.drop_last());
        let (weight, number) = blocks.last();
        if is_better(weight, number, before.0, before.1) {
            blocks.last()
        } else {
            before
        }
    }
}

/// In whatever order blocks are imported, the best block is one of them or the one that was best
/// before, and none of them is better.
pub proof fn law_best_block_is_not_beaten(
    best: (PoCBlockWeight, BlockNumber),
    blocks: Seq<(PoCBlockWeight, BlockNumber)>,
)
    ensures
        best_after(best, blocks) == best || blocks.contains(best_after(best, blocks)),
        !is_better(best.0, best.1, best_after(best, blocks).0, best_after(best, blocks).1),
        forall|i: int|
            0 <= i < blocks.len() ==> !is_better(
                (#[trigger] blocks[i]).0,
                blocks[i].1,
                best_after(best, blocks).0,
                best_after(best, blocks).1,
            ),
    decreases blocks.len(),
{
    if blocks.len() > 0 {
        let rest = blocks.drop_last();
        let before = best_after(best, rest);
        law_best_block_is_not_beaten(best, rest);
        if before != best {
            let k = choose|k: int| 0 <= k < rest.len() && rest[k] == before;
            assert(blocks[k] == before);
        }
        assert(blocks[blocks.len() - 1] == blocks.last());
        assert forall|i: int| 0 <= i < blocks.len() implies !is_better(
            (#[trigger] blocks[i]).0,
            blocks[i].1,
            best_after(best, blocks).0,
            best_after(best, blocks).1,
        ) by {
            if i < rest.len() {
                assert(rest[i] == blocks[i]);
            }
        }
    }
}

/// A block that launches an epoch decides its configuration: where it announces one, the launched
/// epoch has that one, whatever the configuration of the block's own epoch is; where it announces
/// none, the launched epoch has that of the block's own epoch. Its randomness is the one that the
/// block announces, its index is the next one, and it starts where the block's epoch ends.
pub proof fn law_launched_epoch_has_what_is_announced<S>(
    config: Config,
    offered: Offered<S>,
    a: Answers,
    launched: PersistedEpoch,
)
    requires
        launches(config, ImportState::Status(AskStatus { offered }), a) == Some(launched),
        offered.block.intermediate matches Some(Intermediate::PoC(intermediate)) && viable(
            intermediate.epoch_descriptor,
            a.stored,
            config.genesis,
        ) matches Some(own) && own.epoch().epoch_index < u64::MAX && own.epoch().start_slot
            + own.epoch().duration <= u64::MAX,
    ensures
        ({
            let descriptor = offered.block.intermediate->0->PoC_0.epoch_descriptor;
            let own = viable(descriptor, a.stored, config.genesis)->0.epoch();
            let new = match launched {
                PersistedEpoch::Genesis(_, second) => second,
                PersistedEpoch::Regular(epoch) => epoch,
            };
            &&& crate::scan::next_epoch_in(offered.block.header) matches Ok(Some(announced))
            &&& new.randomness == announced.randomness
            &&& new.epoch_index == own.epoch_index + 1
            &&& new.start_slot == own.start_slot + own.duration
            &&& new.duration == own.duration
            &&& match crate::scan::next_config_in(offered.block.header) {
                Ok(Some(NextConfigDescriptor::V1 { c })) => new.config.c == c,
                Ok(None) => new.config == own.config,
                Err(_) => false,
            }
        }),
{
    law_launched_epoch_follows(config, offered, a, launched);
}

/// A block goes on record under the hash of its header with the items that were taken off it,
/// which is the one that came along with the block, and where none did the one that it is offered
/// with; the hash of the header without those items plays no part.
pub proof fn law_weight_is_recorded_under_the_post_hash<S>(
    config: Config,
    block: BlockImportParams<S>,
    post_hash: BlockHash,
    new_cache: NewCache,
    a: Answers,
    h: HandOn<S>,
)
    requires
        handed_on_new(config, offer(block, post_hash, new_cache), a, h),
        weight_of_parent(a) matches Some(weight) ==> weight < u32::MAX,
    ensures
        weight_of_parent(a) matches Some(weight) && {
            let recorded = (weight + 1) as u32;
            &&& block.post_hash is None ==> h.records().last() == AuxWrite::BlockWeight(
                post_hash,
                recorded,
            )
            &&& block.post_hash matches Some(known) ==> h.records().last() == AuxWrite::BlockWeight(
                known,
                recorded,
            )
        },
{
    law_block_adds_one_to_weight(config, offer(block, post_hash, new_cache), a, h);
}

/// A block that is in the chain already is handed on if it carries the engine's own data, and
/// refused for the lack of it otherwise. Where it is not known whether the block is in the chain,
/// it is refused with the node's error.
pub proof fn law_known_block<S>(config: Config, offered: Offered<S>, a: Answers)
    ensures
        a.status == Ok::<BlockStatus, String>(
            BlockStatus::InChain,
        ) ==> match offered.block.intermediate {
            Some(Intermediate::PoC(_)) => import_end(config, offered, a) is HandOn,
            Some(Intermediate::Other) => import_end(config, offered, a) == ImportState::<
                S,
            >::Refused(
                Refused { error: ConsensusError::InvalidIntermediate, restore: false },
            ),
            None => import_end(config, offered, a) == ImportState::<S>::Refused(
                Refused { error: ConsensusError::NoIntermediate, restore: false },
            ),
        },
        a.status matches Err(text) ==> import_end(config, offered, a) == ImportState::<S>::Refused(
            Refused { error: node_error(text), restore: false },
        ),
{
    lemma_import_end(config, offered, a);
}

/// A block becomes the best one if its chain is heavier than the best one, however much longer
/// that is. If both are as heavy, the longer one is the best, and the one that was best before
/// stays where they are as long. A lighter chain never is. A block on top of the best one always
/// is.
pub proof fn law_fork_choice<S>(config: Config, offered: Offered<S>, a: Answers, h: HandOn<S>)
    requires
        handed_on_new(config, offered, a, h),
        weight_of_parent(a) matches Some(weight) ==> weight < u32::MAX,
    ensures
        weight_of_parent(a) matches Some(weight) && weight_of_best(
            a,
            offered.block.header.parent_hash,
        ) matches Some(best_weight) && {
            let number = offered.block.header.number;
            h.offered.block.fork_choice == Some(
                ForkChoiceStrategy::Custom(
                    weight + 1 > best_weight || weight + 1 == best_weight && number
                        > a.best.number,
                ),
            )
        },
        a.best.hash == offered.block.header.parent_hash ==> h.offered.block.fork_choice == Some(
            ForkChoiceStrategy::Custom(true),
        ),
{
    law_heaviest_chain_wins(config, offered, a, h);
    law_block_adds_one_to_weight(config, offered, a, h);
    crate::import_step_laws::law_weight_comes_first(
        h.weight->0,
        offered.block.header.number,
        weight_of_best(a, offered.block.header.parent_hash)->0,
        a.best.number,
    );
}

/// A block that is not known yet is handed on if and only if its parent is there, its slot is later
/// than the parent's, the weight of the parent's chain is known, unless the parent is the first
/// block of the chain, the engine's own data came along, the block announces an epoch just if
/// the parent is of an earlier one, and a configuration at most along with an epoch, the epoch
/// that is announced could be launched, and the weight of the best block is known, unless that is
/// the parent. Otherwise it is refused.
pub proof fn law_new_block_is_handed_on_iff_everything_is_in_order<S>(
    config: Config,
    offered: Offered<S>,
    a: Answers,
    parent: Header,
    starts_at: Slot,
)
    requires
        a.status == Ok::<BlockStatus, String>(BlockStatus::Unknown),
        a.parent matches Ok(Some(header)) ==> header == parent,
        offered.block.intermediate matches Some(Intermediate::PoC(intermediate)) ==> (
        match intermediate.epoch_descriptor {
            EpochDescriptor::UnimportedGenesis(slot) => slot == starts_at,
            EpochDescriptor::Signaled { start_slot, .. } => start_slot == starts_at,
        }),
    ensures
        import_end(config, offered, a) is HandOn <==> {
            &&& a.parent is Ok
            &&& a.parent->Ok_0 is Some
            &&& slot_in(parent)->0 < slot_in(offered.block.header)->0
            &&& parent.number == 0 || (a.parent_weight is Ok && a.parent_weight->Ok_0 is Some)
            &&& offered.block.intermediate matches Some(Intermediate::PoC(intermediate))
            &&& next_epoch_in(offered.block.header) is Ok
            &&& next_config_in(offered.block.header) is Ok
            &&& next_epoch_in(offered.block.header)->Ok_0 is Some <==> slot_in(parent)->0
                < starts_at
            &&& next_config_in(offered.block.header)->Ok_0 is Some ==> next_epoch_in(
                offered.block.header,
            )->Ok_0 is Some
            &&& next_epoch_in(offered.block.header)->Ok_0 is Some ==> {
                &&& intermediate.epoch_descriptor is Signaled ==> a.stored is Some
                &&& a.finalized_header is Ok
                &&& a.pruned is Ok
                &&& a.launched is Ok
            }
            &&& a.best.hash == offered.block.header.parent_hash || (a.best_weight is Ok
                && a.best_weight->Ok_0 is Some)
        },
        import_end(config, offered, a) is HandOn || import_end(config, offered, a) is Refused,
{
    law_new_block_is_imported_iff_faultless(config, offered, a);
}


} // verus!
