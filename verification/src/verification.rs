//! Verifying a block that came from elsewhere: from one answer of the node to the next question,
//! until the block is accepted or refused.
//!
//! Each state of a verification is a struct that says what is asked. Its method `answered` takes
//! the answer and gives the state that follows.

use crate::codec::{le_bytes, u64_to_le};
use crate::config::Config;
use crate::digest::{DigestItem, Header};
use crate::epoch::{
    descriptor_for, descriptor_for_child, viable, viable_epoch, Epoch, EpochDescriptor,
};
use crate::equivocation::EquivocationCheck;
use crate::error::Error;
use crate::import_params::{
    BlockImportParams, BlockOrigin, CacheKeyId, Intermediate, PoCIntermediate,
};
use crate::inherents::{inherents_in, PoCInherentData, INHERENT_IDENTIFIER};
use crate::primitives::{BlockHash, BlockNumber, ConsensusEngineId, FarmerId, Salt, Slot};
use crate::scan::{
    find_pre_digest, find_salt_digest, find_solution_range_digest, pre_digest_in, salt_in,
    solution_range_in,
};
use crate::solution::{solution_pre_digest_of, SolutionPreDigest, SolutionPreDigestView};
use sp_inherents::InherentData;
use vstd::prelude::*;

verus! {

/// A verifier for PoC blocks.
#[derive(Clone, Copy, Debug, PartialEq, Eq)]
pub struct PoCVerifier {
    /// The configuration of the chain.
    pub config: Config,
}

/// A block to verify.
pub struct IncomingBlock {
    /// Where it comes from.
    pub origin: BlockOrigin,
    /// The header.
    pub header: Header,
    /// Justifications, each with the engine it belongs to.
    pub justifications: Option<Vec<(ConsensusEngineId, Vec<u8>)>>,
    /// The extrinsics, each in its encoding, if they came along.
    pub body: Option<Vec<Vec<u8>>>,
}

/// A verification in progress.
pub enum VerifyState {
    /// Providers of inherents for a child of the parent are made, and asked for the slot that has
    /// come.
    Providers(AskProviders),
    /// The node is asked for the number of the parent.
    ParentNumber(AskParentNumber),
    /// The tree of epoch changes is asked for the epoch of the block.
    Descriptor(AskDescriptor),
    /// The tree of epoch changes is asked for what is on record of the epoch.
    StoredEpoch(AskEpoch),
    /// The runtime is asked, at the parent, whether the farmer is in the block list.
    BlockList(AskBlockList),
    /// The header is checked.
    Check(AskCheck),
    /// The header is checked for equivocation.
    Equivocation(AskEquivocation),
    /// Inherent data is created, and the inherents of the block are checked.
    Inherents(AskInherents),
    /// The block is accepted.
    Accepted(Accepted),
    /// The block is refused.
    Refused(Error),
}

/// Providers of inherents for a child of the parent are made.
pub struct AskProviders {
    /// The block.
    pub block: IncomingBlock,
}

/// The node is asked for the number of the parent.
pub struct AskParentNumber {
    /// The block.
    pub block: IncomingBlock,
    /// The slot that has come.
    pub slot_now: Slot,
}

/// The tree of epoch changes is asked for the epoch of a child of the parent at the block's slot.
pub struct AskDescriptor {
    /// The block.
    pub block: IncomingBlock,
    /// The slot that has come.
    pub slot_now: Slot,
    /// The number of the parent.
    pub parent_number: BlockNumber,
    /// The slot of the block.
    pub slot: Slot,
    /// The farmer that claimed the slot.
    pub farmer: FarmerId,
}

/// The tree of epoch changes is asked for what is on record of the epoch.
pub struct AskEpoch {
    /// The block.
    pub block: IncomingBlock,
    /// The slot that has come.
    pub slot_now: Slot,
    /// The farmer that claimed the slot.
    pub farmer: FarmerId,
    /// The epoch of the block.
    pub epoch_descriptor: EpochDescriptor,
}

/// The runtime is asked, at the parent, whether the farmer is in the block list.
pub struct AskBlockList {
    /// The block.
    pub block: IncomingBlock,
    /// The slot that has come.
    pub slot_now: Slot,
    /// The farmer that claimed the slot.
    pub farmer: FarmerId,
    /// The epoch of the block.
    pub epoch_descriptor: EpochDescriptor,
    /// What is known of the epoch.
    pub epoch: Epoch,
    /// The solution range of the block.
    pub solution_range: u64,
    /// The salt of the block.
    pub salt: u64,
}

/// The header is checked.
pub struct AskCheck {
    /// The block.
    pub block: IncomingBlock,
    /// The slot that has come.
    pub slot_now: Slot,
    /// The epoch of the block.
    pub epoch_descriptor: EpochDescriptor,
    /// What is known of the epoch.
    pub epoch: Epoch,
    /// The solution range of the block.
    pub solution_range: u64,
    /// The salt of the block.
    pub salt: u64,
}

/// What a header is checked against.
pub struct VerificationParams<'a> {
    /// The header.
    pub header: &'a Header,
    /// Its pre-digest.
    pub pre_digest: Option<SolutionPreDigest>,
    /// The last slot that is accepted: one more than the slot that has come, to allow for some
    /// small drift.
    pub slot_now: Slot,
    /// The epoch of the block.
    pub epoch: Epoch,
    /// The solution range of the block.
    pub solution_range: u64,
    /// The salt of the block.
    pub salt: Salt,
}

/// What a header that was checked holds.
pub struct VerifiedHeaderInfo {
    /// The pre-digest.
    pub pre_digest: DigestItem,
    /// The seal.
    pub seal: DigestItem,
}

/// What the check of a header gave.
pub enum CheckedHeader {
    /// The header is in order. It comes back without its seal.
    Checked(Header, VerifiedHeaderInfo),
    /// The header is of a slot that has not come yet.
    Deferred(Header, Slot),
}

/// The header is checked for equivocation.
pub struct AskEquivocation {
    /// The block.
    pub block: IncomingBlock,
    /// The slot that has come.
    pub slot_now: Slot,
    /// The slot of the block.
    pub slot: Slot,
    /// The farmer that made the block.
    pub author: FarmerId,
    /// The header without the seal.
    pub pre_header: Header,
    /// The seal.
    pub seal: DigestItem,
    /// The epoch of the block.
    pub epoch_descriptor: EpochDescriptor,
}

/// Inherent data is created, its slot replaced by that of the block, and the inherents of the
/// block are checked, at the parent.
pub struct AskInherents {
    /// The hash of the parent.
    pub parent_hash: BlockHash,
    /// The extrinsics.
    pub body: Vec<Vec<u8>>,
    /// The slot of the block.
    pub slot: Slot,
    /// The block, apart from its body.
    pub accepted: Accepted,
}

/// A block that is accepted.
pub struct Accepted {
    /// Where it comes from.
    pub origin: BlockOrigin,
    /// The header without the seal.
    pub pre_header: Header,
    /// The seal.
    pub seal: DigestItem,
    /// The extrinsics, if they came along.
    pub body: Option<Vec<Vec<u8>>>,
    /// Justifications.
    pub justifications: Option<Vec<(ConsensusEngineId, Vec<u8>)>>,
    /// The epoch of the block.
    pub epoch_descriptor: EpochDescriptor,
    /// The hash of the header with the seal.
    pub hash: BlockHash,
}

impl PoCVerifier {
    /// A verifier for the chain of this configuration.
    pub fn new(config: Config) -> (r: PoCVerifier)
        ensures
            r.config == config,
    {
        PoCVerifier { config }
    }

    /// Starts to verify a block.
    pub fn verify(&self, block: IncomingBlock) -> (r: AskProviders)
        ensures
            r == (AskProviders { block }),
    {
        AskProviders { block }
    }
}

impl AskProviders {
    /// The state that follows.
    pub open spec fn after(self, made: Result<Slot, String>) -> VerifyState {
        match made {
            Err(text) => VerifyState::Refused(Error::Client(text)),
            Ok(slot_now) => VerifyState::ParentNumber(
                AskParentNumber { block: self.block, slot_now },
            ),
        }
    }

    /// `made` is the slot that has come, or the error of making the providers.
    pub fn answered(self, made: Result<Slot, String>) -> (r: VerifyState)
        ensures
            r == self.after(made),
    {
        match made {
            Err(text) => VerifyState::Refused(Error::Client(text)),
            Ok(slot_now) => VerifyState::ParentNumber(
                AskParentNumber { block: self.block, slot_now },
            ),
        }
    }
}

impl AskParentNumber {
    /// The state that follows.
    pub open spec fn after(self, number: Result<BlockNumber, String>) -> VerifyState {
        match number {
            Err(text) => VerifyState::Refused(Error::FetchParentHeader(text)),
            Ok(parent_number) => match pre_digest_in(self.block.header) {
                Err(e) => VerifyState::Refused(e),
                Ok(pre_digest) => VerifyState::Descriptor(
                    AskDescriptor {
                        block: self.block,
                        slot_now: self.slot_now,
                        parent_number,
                        slot: pre_digest.slot,
                        farmer: pre_digest.solution.public_key,
                    },
                ),
            },
        }
    }

    /// Reads the pre-digest of the block.
    pub fn answered(self, number: Result<BlockNumber, String>) -> (r: VerifyState)
        ensures
            r == self.after(number),
    {
        match number {
            Err(text) => VerifyState::Refused(Error::FetchParentHeader(text)),
            Ok(parent_number) => match find_pre_digest(&self.block.header) {
                Err(e) => VerifyState::Refused(e),
                Ok(pre_digest) => VerifyState::Descriptor(
                    AskDescriptor {
                        block: self.block,
                        slot_now: self.slot_now,
                        parent_number,
                        slot: pre_digest.slot,
                        farmer: pre_digest.solution.public_key,
                    },
                ),
            },
        }
    }
}

impl AskDescriptor {
    /// The state that follows.
    pub open spec fn after(self, lookup: Result<Option<EpochDescriptor>, String>) -> VerifyState {
        match descriptor_for(self.block.header.parent_hash, lookup) {
            Err(e) => VerifyState::Refused(e),
            Ok(epoch_descriptor) => VerifyState::StoredEpoch(
                AskEpoch {
                    block: self.block,
                    slot_now: self.slot_now,
                    farmer: self.farmer,
                    epoch_descriptor,
                },
            ),
        }
    }

    /// Without an epoch the block cannot be verified.
    pub fn answered(self, lookup: Result<Option<EpochDescriptor>, String>) -> (r: VerifyState)
        ensures
            r == self.after(lookup),
    {
        match descriptor_for_child(self.block.header.parent_hash, lookup) {
            Err(e) => VerifyState::Refused(e),
            Ok(epoch_descriptor) => VerifyState::StoredEpoch(
                AskEpoch {
                    block: self.block,
                    slot_now: self.slot_now,
                    farmer: self.farmer,
                    epoch_descriptor,
                },
            ),
        }
    }
}

impl AskEpoch {
    /// The state that follows.
    pub open spec fn after(self, engine: PoCVerifier, stored: Option<Epoch>) -> VerifyState {
        let header = self.block.header;
        match viable(self.epoch_descriptor, stored, engine.config.genesis) {
            None => VerifyState::Refused(Error::FetchEpoch(header.parent_hash)),
            Some(found) => match solution_range_in(header) {
                Err(e) => VerifyState::Refused(e),
                Ok(None) => VerifyState::Refused(Error::MissingSolutionRange(header.hash)),
                Ok(Some(range)) => match salt_in(header) {
                    Err(e) => VerifyState::Refused(e),
                    Ok(None) => VerifyState::Refused(Error::MissingSalt(header.hash)),
                    Ok(Some(salt)) => VerifyState::BlockList(
                        AskBlockList {
                            block: self.block,
                            slot_now: self.slot_now,
                            farmer: self.farmer,
                            epoch_descriptor: self.epoch_descriptor,
                            epoch: found.epoch(),
                            solution_range: range.solution_range,
                            salt: salt.salt,
                        },
                    ),
                },
            },
        }
    }

    /// Reads the solution range and the salt of the block, both of which it has to hold.
    pub fn answered(self, engine: &PoCVerifier, stored: Option<Epoch>) -> (r: VerifyState)
        ensures
            r == self.after(*engine, stored),
    {
        let epoch: Epoch = match viable_epoch(&self.epoch_descriptor, stored, &engine.config) {
            None => {
                return VerifyState::Refused(Error::FetchEpoch(self.block.header.parent_hash));
            },
            Some(found) => *found.as_ref(),
        };
        let solution_range: u64 = match find_solution_range_digest(&self.block.header) {
            Err(e) => {
                return VerifyState::Refused(e);
            },
            Ok(None) => {
                return VerifyState::Refused(Error::MissingSolutionRange(self.block.header.hash));
            },
            Ok(Some(range)) => range.solution_range,
        };
        let salt: u64 = match find_salt_digest(&self.block.header) {
            Err(e) => {
                return VerifyState::Refused(e);
            },
            Ok(None) => {
                return VerifyState::Refused(Error::MissingSalt(self.block.header.hash));
            },
            Ok(Some(salt)) => salt.salt,
        };
        VerifyState::BlockList(
            AskBlockList {
                block: self.block,
                slot_now: self.slot_now,
                farmer: self.farmer,
                epoch_descriptor: self.epoch_descriptor,
                epoch,
                solution_range,
                salt,
            },
        )
    }
}

impl AskBlockList {
    /// The state that follows.
    pub open spec fn after(self, in_block_list: Result<bool, String>) -> VerifyState {
        match in_block_list {
            Err(text) => VerifyState::Refused(Error::RuntimeApi(text)),
            Ok(true) => VerifyState::Refused(Error::FarmerInBlockList(self.farmer)),
            Ok(false) => VerifyState::Check(
                AskCheck {
                    block: self.block,
                    slot_now: self.slot_now,
                    epoch_descriptor: self.epoch_descriptor,
                    epoch: self.epoch,
                    solution_range: self.solution_range,
                    salt: self.salt,
                },
            ),
        }
    }

    /// A block of a farmer in the block list is refused.
    pub fn answered(self, in_block_list: Result<bool, String>) -> (r: VerifyState)
        ensures
            r == self.after(in_block_list),
    {
        match in_block_list {
            Err(text) => VerifyState::Refused(Error::RuntimeApi(text)),
            Ok(listed) => {
                if listed {
                    return VerifyState::Refused(Error::FarmerInBlockList(self.farmer));
                }
                VerifyState::Check(
                    AskCheck {
                        block: self.block,
                        slot_now: self.slot_now,
                        epoch_descriptor: self.epoch_descriptor,
                        epoch: self.epoch,
                        solution_range: self.solution_range,
                        salt: self.salt,
                    },
                )
            },
        }
    }
}

/// The last slot whose headers are accepted where `slot_now` has come: one more, to allow for some
/// small drift.
pub open spec fn last_accepted_slot(slot_now: Slot) -> int {
    slot_now + 1
}

impl AskCheck {
    /// What the header is checked against.
    pub fn params(&self) -> (r: VerificationParams<'_>)
        requires
            self.slot_now < u64::MAX,
        ensures
            *r.header == self.block.header,
            match r.pre_digest {
                Some(d) => pre_digest_in(self.block.header) == Ok::<SolutionPreDigestView, Error>(
                    d@,
                ),
                None => pre_digest_in(self.block.header) is Err,
            },
            r.slot_now == last_accepted_slot(self.slot_now),
            r.slot_now == self.slot_now + 1,
            r.epoch == self.epoch,
            r.solution_range == self.solution_range,
            r.salt@ == le_bytes(self.salt as nat, 8),
    {
        let pre_digest: Option<SolutionPreDigest> = match find_pre_digest(&self.block.header) {
            Ok(d) => Some(d),
            Err(_) => None,
        };
        VerificationParams {
            header: &self.block.header,
            pre_digest,
            slot_now: self.slot_now + 1,
            epoch: self.epoch,
            solution_range: self.solution_range,
            salt: u64_to_le(self.salt),
        }
    }

    /// The state that follows.
    pub open spec fn after(self, checked: Result<CheckedHeader, Error>) -> VerifyState {
        match checked {
            Err(e) => VerifyState::Refused(e),
            Ok(CheckedHeader::Deferred(_, _)) => VerifyState::Refused(
                Error::TooFarInFuture(self.block.header.hash),
            ),
            Ok(CheckedHeader::Checked(pre_header, info)) => {
                let pre_digest = solution_pre_digest_of(info.pre_digest)->0;
                VerifyState::Equivocation(
                    AskEquivocation {
                        block: self.block,
                        slot_now: self.slot_now,
                        slot: pre_digest.slot,
                        author: pre_digest.solution.public_key,
                        pre_header,
                        seal: info.seal,
                        epoch_descriptor: self.epoch_descriptor,
                    },
                )
            },
        }
    }

    /// A header that is in order holds a pre-digest. One of a slot that has not come yet is
    /// refused.
    pub fn answered(self, checked: Result<CheckedHeader, Error>) -> (r: VerifyState)
        requires
            checked matches Ok(CheckedHeader::Checked(_, info)) ==> solution_pre_digest_of(
                info.pre_digest,
            ) is Some,
        ensures
            r == self.after(checked),
    {
        match checked {
            Err(e) => VerifyState::Refused(e),
            Ok(CheckedHeader::Deferred(_, _)) => VerifyState::Refused(
                Error::TooFarInFuture(self.block.header.hash),
            ),
            Ok(CheckedHeader::Checked(pre_header, info)) => {
                let pre_digest: SolutionPreDigest = SolutionPreDigest::from_item(
                    &info.pre_digest,
                ).unwrap();
                VerifyState::Equivocation(
                    AskEquivocation {
                        block: self.block,
                        slot_now: self.slot_now,
                        slot: pre_digest.slot,
                        author: pre_digest.solution.public_key,
                        pre_header,
                        seal: info.seal,
                        epoch_descriptor: self.epoch_descriptor,
                    },
                )
            },
        }
    }
}

impl AskEquivocation {
    /// What is checked for equivocation: the header with its seal.
    pub fn check(&self) -> (r: EquivocationCheck<'_>)
        ensures
            r.slot_now == self.slot_now,
            r.slot == self.slot,
            *r.header == self.block.header,
            r.author == self.author,
            r.origin == self.block.origin,
    {
        EquivocationCheck {
            slot_now: self.slot_now,
            slot: self.slot,
            header: &self.block.header,
            author: self.author,
            origin: self.block.origin,
        }
    }

    /// The block as it is accepted, with a body or without one.
    pub open spec fn accepted(self, body: Option<Vec<Vec<u8>>>) -> Accepted {
        Accepted {
            origin: self.block.origin,
            pre_header: self.pre_header,
            seal: self.seal,
            body,
            justifications: self.block.justifications,
            epoch_descriptor: self.epoch_descriptor,
            hash: self.block.header.hash,
        }
    }

    /// The state that follows.
    pub open spec fn after(self) -> VerifyState {
        match self.block.body {
            Some(body) => VerifyState::Inherents(
                AskInherents {
                    parent_hash: self.block.header.parent_hash,
                    body,
                    slot: self.slot,
                    accepted: self.accepted(None),
                },
            ),
            None => VerifyState::Accepted(self.accepted(None)),
        }
    }

    /// Goes on, whether an equivocation was found, reported, or neither. If the body came along,
    /// its inherents are checked.
    pub fn answered(self) -> (r: VerifyState)
        ensures
            r == self.after(),
    {
        let accepted = Accepted {
            origin: self.block.origin,
            pre_header: self.pre_header,
            seal: self.seal,
            body: None,
            justifications: self.block.justifications,
            epoch_descriptor: self.epoch_descriptor,
            hash: self.block.header.hash,
        };
        match self.block.body {
            Some(body) => VerifyState::Inherents(
                AskInherents {
                    parent_hash: self.block.header.parent_hash,
                    body,
                    slot: self.slot,
                    accepted,
                },
            ),
            None => VerifyState::Accepted(accepted),
        }
    }
}

impl AskInherents {
    /// The inherent data that the block is checked against: what was created, with the slot of
    /// the block in place of the one that has come.
    pub fn data(&self, created: Result<InherentData, String>) -> (r: Result<InherentData, Error>)
        ensures
            match created {
                Err(text) => r == Err::<InherentData, Error>(Error::CreateInherents(text)),
                Ok(data) => r matches Ok(replaced) && inherents_in(replaced) == inherents_in(
                    data,
                ).insert(INHERENT_IDENTIFIER@, le_bytes(self.slot as nat, 8)),
            },
    {
        match created {
            Err(text) => Err(Error::CreateInherents(text)),
            Ok(data) => {
                let mut data: InherentData = data;
                data.poc_replace_inherent_data(self.slot);
                Ok(data)
            },
        }
    }

    /// The state that follows.
    pub open spec fn after(self, checked: Result<(), Error>) -> VerifyState {
        match checked {
            Err(e) => VerifyState::Refused(e),
            Ok(_) => VerifyState::Accepted(Accepted { body: Some(self.body), ..self.accepted }),
        }
    }

    /// `checked` is what creating the inherent data or checking the inherents came to.
    pub fn answered(self, checked: Result<(), Error>) -> (r: VerifyState)
        ensures
            r == self.after(checked),
    {
        match checked {
            Err(e) => VerifyState::Refused(e),
            Ok(_) => {
                let mut accepted: Accepted = self.accepted;
                accepted.body = Some(self.body);
                VerifyState::Accepted(accepted)
            },
        }
    }
}

impl Accepted {
    /// The block, ready to be imported: the header without the seal, the seal beside it, and the
    /// epoch it belongs to under the engine's key. It changes nothing in the node's cache.
    pub fn params<S>(self) -> (r: (BlockImportParams<S>, Option<Vec<(CacheKeyId, Vec<u8>)>>))
        ensures
            r.0.origin == self.origin,
            r.0.header == self.pre_header,
            r.0.justifications == self.justifications,
            r.0.post_digests@ == seq![self.seal],
            r.0.body == self.body,
            r.0.state_action is Execute,
            r.0.intermediate == Some(
                Intermediate::PoC(PoCIntermediate { epoch_descriptor: self.epoch_descriptor }),
            ),
            r.0.auxiliary@.len() == 0,
            r.0.fork_choice is None,
            r.0.post_hash == Some(self.hash),
            r.1 is None,
    {
        let mut import_block: BlockImportParams<S> = BlockImportParams::new(
            self.origin,
            self.pre_header,
        );
        import_block.post_digests.push(self.seal);
        import_block.body = self.body;
        import_block.justifications = self.justifications;
        import_block.intermediate = Some(
            Intermediate::PoC(PoCIntermediate { epoch_descriptor: self.epoch_descriptor }),
        );
        import_block.post_hash = Some(self.hash);
        (import_block, None)
    }
}

} // verus!
