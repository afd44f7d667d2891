//! Blocks on their way to be imported.

use crate::claim::Claim;
use crate::digest::{DigestItem, Header};
use crate::epoch::EpochDescriptor;
use crate::error::ConsensusError;
use crate::primitives::{BlockHash, ConsensusEngineId, PoCBlockWeight, POC_ENGINE_ID};
use std::collections::HashMap;
use vstd::prelude::*;

verus! {

/// Where a block comes from.
#[derive(Clone, Copy, Debug, PartialEq, Eq, Structural)]
pub enum BlockOrigin {
    /// It is the genesis block.
    Genesis,
    /// It was fetched in the initial sync.
    NetworkInitialSync,
    /// It was broadcast by a peer.
    NetworkBroadcast,
    /// It was received in the consensus process.
    ConsensusBroadcast,
    /// It was made by this node.
    Own,
    /// It was read from a file.
    File,
}

/// What is done about the state after a block.
#[derive(Clone, Debug, PartialEq, Eq)]
pub enum StateAction<S> {
    /// These changes are applied.
    ApplyChanges(S),
    /// The block is executed.
    Execute,
    /// The block is executed if the parent's state is there.
    ExecuteIfPossible,
    /// Nothing is done.
    Skip,
}

/// How the best chain is chosen when a block has been imported.
#[derive(Clone, Copy, Debug, PartialEq, Eq)]
pub enum ForkChoiceStrategy {
    /// The longest chain is the best.
    LongestChain,
    /// The block is the new best block, or it is not.
    Custom(bool),
}

/// Something to put on record with a block.
#[derive(Clone, Copy, Debug, PartialEq, Eq)]
pub enum AuxWrite {
    /// The tree of epoch changes.
    EpochChanges,
    /// The weight of the chain that ends in a block.
    BlockWeight(BlockHash, PoCBlockWeight),
}

/// Names something that a block changes in the node's cache.
pub type CacheKeyId = [u8; 4];

/// What a block changes in the node's cache.
pub type NewCache = HashMap<CacheKeyId, Vec<u8>>;

/// Intermediate value passed to block importer.
#[derive(Clone, Copy, Debug, PartialEq, Eq)]
pub struct PoCIntermediate {
    /// The epoch descriptor.
    pub epoch_descriptor: EpochDescriptor,
}

/// What a block carries under the engine's key.
#[derive(Clone, Copy, Debug, PartialEq, Eq)]
pub enum Intermediate {
    /// What the engine has put there.
    PoC(PoCIntermediate),
    /// Something else.
    Other,
}

/// A block on its way to be imported. `S` is the type of changes to the state.
#[derive(Clone, Debug, PartialEq, Eq)]
pub struct BlockImportParams<S> {
    /// Where the block comes from.
    pub origin: BlockOrigin,
    /// The header, without the items that were taken off it.
    pub header: Header,
    /// Justifications that came with the block, each with the engine it belongs to.
    pub justifications: Option<Vec<(ConsensusEngineId, Vec<u8>)>>,
    /// The items that were taken off the header.
    pub post_digests: Vec<DigestItem>,
    /// The extrinsics, each in its encoding.
    pub body: Option<Vec<Vec<u8>>>,
    /// What is done about the state.
    pub state_action: StateAction<S>,
    /// What is handed on under the engine's key, `INTERMEDIATE_KEY`.
    pub intermediate: Option<Intermediate>,
    /// What is put on record with the block.
    pub auxiliary: Vec<AuxWrite>,
    /// How the best chain is chosen.
    pub fork_choice: Option<ForkChoiceStrategy>,
    /// The hash of the header with the items that were taken off it, if it is known.
    pub post_hash: Option<BlockHash>,
}

/// What taking out the engine's intermediate gives.
pub open spec fn intermediate_taken(held: Option<Intermediate>) -> Result<
    PoCIntermediate,
    ConsensusError,
> {
    match held {
        None => Err(ConsensusError::NoIntermediate),
        Some(Intermediate::PoC(intermediate)) => Ok(intermediate),
        Some(Intermediate::Other) => Err(ConsensusError::InvalidIntermediate),
    }
}

impl<S> BlockImportParams<S> {
    /// A block of which only the origin and the header are known.
    pub fn new(origin: BlockOrigin, header: Header) -> (r: BlockImportParams<S>)
        ensures
            r.origin == origin,
            r.header == header,
            r.justifications is None,
            r.post_digests@.len() == 0,
            r.body is None,
            r.state_action is Execute,
            r.intermediate is None,
            r.auxiliary@.len() == 0,
            r.fork_choice is None,
            r.post_hash is None,
    {
        BlockImportParams {
            origin,
            header,
            justifications: None,
            post_digests: Vec::new(),
            body: None,
            state_action: StateAction::Execute,
            intermediate: None,
            auxiliary: Vec::new(),
            fork_choice: None,
            post_hash: None,
        }
    }

    /// Takes out what the engine has put under its key. What is not the engine's stays.
    pub fn take_intermediate(&mut self) -> (r: Result<PoCIntermediate, ConsensusError>)
        ensures
            r == intermediate_taken(old(self).intermediate),
            *final(self) == (BlockImportParams {
                intermediate: if r is Ok {
                    None
                } else {
                    old(self).intermediate
                },
                ..*old(self)
            }),
    {
        match self.intermediate {
            None => Err(ConsensusError::NoIntermediate),
            Some(Intermediate::PoC(intermediate)) => {
                self.intermediate = None;
                Ok(intermediate)
            },
            Some(Intermediate::Other) => Err(ConsensusError::InvalidIntermediate),
        }
    }
}

/// The block that was made on a claim, ready to be imported: sealed with the key of the claim over
/// the hash of the header, with its body, the changes it makes to the state, and the epoch it
/// belongs to.
pub fn block_import_params<S>(
    header: Header,
    header_hash: &BlockHash,
    body: Vec<Vec<u8>>,
    storage_changes: S,
    claim: &Claim,
    epoch_descriptor: EpochDescriptor,
) -> (r: BlockImportParams<S>)
    ensures
        r.origin is Own,
        r.header == header,
        r.justifications is None,
        r.post_digests@.len() == 1,
        crate::digests::seal_of(r.post_digests@[0]) matches Some(signature)
            && crate::keys::sr25519_verifies(
            signature@,
            header_hash@,
            crate::keys::sr25519_public(claim.key.secret()),
        ),
        r.post_digests@[0] matches DigestItem::Seal(id, data) && id == POC_ENGINE_ID && data@.len()
            == 64,
        r.body == Some(body),
        r.state_action == StateAction::ApplyChanges(storage_changes),
        r.intermediate == Some(Intermediate::PoC(PoCIntermediate { epoch_descriptor })),
        r.auxiliary@.len() == 0,
        r.fork_choice is None,
        r.post_hash is None,
{
    // Sign the pre-sealed hash of the block and then add it to a digest item.
    let digest_item: DigestItem = claim.key.seal(header_hash);
    let mut import_block: BlockImportParams<S> = BlockImportParams::new(BlockOrigin::Own, header);
    import_block.post_digests.push(digest_item);
    import_block.body = Some(body);
    import_block.state_action = StateAction::ApplyChanges(storage_changes);
    import_block.intermediate = Some(Intermediate::PoC(PoCIntermediate { epoch_descriptor }));
    import_block
}

} // verus!
