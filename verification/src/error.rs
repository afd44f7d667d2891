//! What can go wrong while blocks are made, checked and imported.

use crate::primitives::{BlockHash, FarmerId, Slot};
use vstd::prelude::*;

verus! {

/// Errors encountered by the poc authorship task. Where an error comes from the node that the
/// engine runs in, its text is kept: the one that is meant for debugging in `Extraction` and in
/// `FetchParentHeader`, the one that is shown to users in all others.
#[derive(Clone, Debug, PartialEq, Eq)]
pub enum Error {
    /// Multiple PoC pre-runtime digests
    MultiplePreRuntimeDigests,
    /// No PoC pre-runtime digest found
    NoPreRuntimeDigest,
    /// Multiple PoC epoch change digests
    MultipleEpochChangeDigests,
    /// Multiple PoC config change digests
    MultipleConfigChangeDigests,
    /// Multiple PoC solution range digests
    MultipleSolutionRangeDigests,
    /// Multiple PoC next solution range digests
    MultipleNextSolutionRangeDigests,
    /// Multiple PoC salt digests
    MultipleSaltDigests,
    /// Multiple PoC next salt digests
    MultipleNextSaltDigests,
    /// Could not extract timestamp and slot
    Extraction(String),
    /// Could not fetch epoch
    FetchEpoch(BlockHash),
    /// Header rejected: too far in the future
    TooFarInFuture(BlockHash),
    /// Parent unavailable. Cannot import
    ParentUnavailable(BlockHash, BlockHash),
    /// Slot number must increase
    SlotMustIncrease(Slot, Slot),
    /// Header has a bad seal
    HeaderBadSeal(BlockHash),
    /// Header is unsealed
    HeaderUnsealed(BlockHash),
    /// Bad signature
    BadSignature(BlockHash),
    /// Bad solution signature
    BadSolutionSignature(Slot),
    /// Solution is outside of solution range
    OutsideOfSolutionRange(Slot),
    /// Encoding is of wrong size
    EncodingOfWrongSize,
    /// Invalid encoding of genesis piece for public key and nonce
    InvalidEncoding(Slot),
    /// Invalid commitment for salt
    InvalidCommitment(Slot),
    /// Could not fetch parent header
    FetchParentHeader(String),
    /// Expected epoch change to happen.
    ExpectedEpochChange(BlockHash, Slot),
    /// Unexpected config change.
    UnexpectedConfigChange,
    /// Unexpected epoch change
    UnexpectedEpochChange,
    /// Parent block has no associated weight
    ParentBlockNoAssociatedWeight(BlockHash),
    /// Block has no associated solution range
    MissingSolutionRange(BlockHash),
    /// Block has no associated salt
    MissingSalt(BlockHash),
    /// Farmer in block list
    FarmerInBlockList(FarmerId),
    /// Check inherents error
    CheckInherents(String),
    /// Unhandled check inherents error
    CheckInherentsUnhandled([u8; 8]),
    /// Create inherents error.
    CreateInherents(String),
    /// Client error
    Client(String),
    /// Runtime Api error.
    RuntimeApi(String),
    /// Fork tree error
    ForkTree(String),
}

/// Why a block was not imported, or an epoch not found: an error of the engine, or one of the
/// node, kept as its text.
#[derive(Clone, Debug, PartialEq, Eq)]
pub enum Reason {
    /// An error of the engine.
    Engine(Error),
    /// An error of the node.
    Node(String),
    /// There is no weight on record for the best block.
    NoBestWeight,
}

/// Errors that the importer of blocks and the slot worker answer with.
#[derive(Clone, Debug, PartialEq, Eq)]
pub enum ConsensusError {
    /// The block cannot be imported.
    ClientImport(Reason),
    /// The chain could not be looked up.
    ChainLookup(Reason),
    /// The block carries nothing under the engine's key.
    NoIntermediate,
    /// The block carries something else under the engine's key.
    InvalidIntermediate,
    /// There is no epoch for the slot.
    InvalidAuthoritiesSet,
    /// Any other error that an importer answers with, as its text.
    Other(String),
}

} // verus!
