//! Plain values that the whole engine speaks of.

use vstd::prelude::*;

verus! {

/// The number of a slot.
pub type Slot = u64;

/// The hash of a block.
pub type BlockHash = [u8; 32];

/// The number of a block: its distance from genesis.
pub type BlockNumber = u64;

/// The public key that a farmer is known by.
pub type FarmerId = [u8; 32];

/// A signature made with a farmer's key.
pub type FarmerSignature = [u8; 64];

/// The randomness of an epoch.
pub type Randomness = [u8; 32];

/// The salt of an eon, as farmers see it.
pub type Salt = [u8; 8];

/// The weight of a block, or of a chain of blocks.
pub type PoCBlockWeight = u32;

/// Names the consensus engine that a digest item belongs to.
pub type ConsensusEngineId = [u8; 4];

/// The engine id of Proof-of-Capacity: the characters `POC_`.
pub const POC_ENGINE_ID: ConsensusEngineId = [0x50, 0x4f, 0x43, 0x5f];

/// The key under which the engine hands its own data to the block importer: the characters
/// `poc0`.
pub const INTERMEDIATE_KEY: [u8; 4] = [0x70, 0x6f, 0x63, 0x30];

/// Configuration of an epoch.
#[derive(Clone, Copy, Debug, PartialEq, Eq)]
pub struct PoCEpochConfiguration {
    /// The ratio `c`: one less `c` is the probability that a slot is empty.
    pub c: (u64, u64),
}

/// Configuration that the chain starts with.
#[derive(Clone, Copy, Debug, PartialEq, Eq)]
pub struct PoCGenesisConfiguration {
    /// The duration of a slot in milliseconds.
    pub slot_duration: u64,
    /// The number of slots in an epoch.
    pub epoch_length: u64,
    /// The ratio `c` of the first epoch.
    pub c: (u64, u64),
    /// The randomness of the first epoch.
    pub randomness: Randomness,
}

} // verus!
