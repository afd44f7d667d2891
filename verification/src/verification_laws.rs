//! What holds of the verification of a block as a whole, whatever the node answers.

use crate::digest::Header;
use crate::epoch::{viable, Epoch, EpochDescriptor};
use crate::error::Error;
use crate::primitives::{BlockNumber, Slot};
use crate::scan::{all_held, pre_digest_in, salt_in, slot_in, solution_range_in};
use crate::solution::{solution_pre_digest_of, SolutionPreDigest, SolutionPreDigestView};
use crate::verification::{
    last_accepted_slot, Accepted, AskBlockList, AskCheck, AskDescriptor, AskEpoch, AskInherents,
    AskParentNumber, AskProviders, CheckedHeader, IncomingBlock, PoCVerifier, VerifyState,
};
use vstd::prelude::*;

verus! {

/// The answers of the node to everything that is asked while a block is verified.
pub struct VerifyAnswers {
    /// The slot that has come.
    pub slot_now: Result<Slot, String>,
    /// The number of the parent.
    pub parent_number: Result<BlockNumber, String>,
    /// The epoch of the block.
    pub descriptor: Result<Option<EpochDescriptor>, String>,
    /// What is on record of the epoch.
    pub stored: Option<Epoch>,
    /// Whether the farmer is in the block list.
    pub in_block_list: Result<bool, String>,
    /// What the check of the header gave.
    pub checked: Result<CheckedHeader, Error>,
    /// What the check of the inherents came to.
    pub inherents: Result<(), Error>,
}

/// The state that follows a state when the node answers.
pub open spec fn next(
    engine: PoCVerifier,
    state: VerifyState,
    answers: VerifyAnswers,
) -> VerifyState {
    match state {
        VerifyState::Providers(q) => q.after(answers.slot_now),
        VerifyState::ParentNumber(q) => q.after(answers.parent_number),
        VerifyState::Descriptor(q) => q.after(answers.descriptor),
        VerifyState::StoredEpoch(q) => q.after(engine, answers.stored),
        VerifyState::BlockList(q) => q.after(answers.in_block_list),
        VerifyState::Check(q) => q.after(answers.checked),
        VerifyState::Equivocation(q) => q.after(),
        VerifyState::Inherents(q) => q.after(answers.inherents),
        VerifyState::Accepted(_) => state,
        VerifyState::Refused(_) => state,
    }
}

/// The state after a number of answers.
pub open spec fn after_answers(
    engine: PoCVerifier,
    block: IncomingBlock,
    answers: VerifyAnswers,
    n: nat,
) -> VerifyState
    decreases n,
{
    if n == 0 {
        VerifyState::Providers(AskProviders { block })
    } else {
        next(engine, after_answers(engine, block, answers, (n - 1) as nat), answers)
    }
}

/// How the verification of a block ends.
pub open spec fn verify_end(
    engine: PoCVerifier,
    block: IncomingBlock,
    answers: VerifyAnswers,
) -> VerifyState {
    after_answers(engine, block, answers, 8)
}

/// The first error that a block is refused with, of those that come before its header is checked.
pub open spec fn early_fault(
    engine: PoCVerifier,
    block: IncomingBlock,
    answers: VerifyAnswers,
) -> Option<Error> {
    let header = block.header;
    if answers.slot_now is Err {
        Some(Error::Client(answers.slot_now->Err_0))
    } else if answers.parent_number is Err {
        Some(Error::FetchParentHeader(answers.parent_number->Err_0))
    } else if pre_digest_in(header) is Err {
        Some(pre_digest_in(header)->Err_0)
    } else if answers.descriptor is Err {
        Some(Error::ForkTree(answers.descriptor->Err_0))
    } else if answers.descriptor->Ok_0 is None {
        Some(Error::FetchEpoch(header.parent_hash))
    } else if viable(
        answers.descriptor->Ok_0->0,
        answers.stored,
        engine.config.genesis,
    ) is None {
        Some(Error::FetchEpoch(header.parent_hash))
    } else if solution_range_in(header) is Err {
        Some(solution_range_in(header)->Err_0)
    } else if solution_range_in(header)->Ok_0 is None {
        Some(Error::MissingSolutionRange(header.hash))
    } else if salt_in(header) is Err {
        Some(salt_in(header)->Err_0)
    } else if salt_in(header)->Ok_0 is None {
        Some(Error::MissingSalt(header.hash))
    } else if answers.in_block_list is Err {
        Some(Error::RuntimeApi(answers.in_block_list->Err_0))
    } else if answers.in_block_list->Ok_0 {
        Some(Error::FarmerInBlockList(pre_digest_in(header)->Ok_0.solution.public_key))
    } else {
        None
    }
}

/// The first error that a block is refused with.
pub open spec fn fault(
    engine: PoCVerifier,
    block: IncomingBlock,
    answers: VerifyAnswers,
) -> Option<Error> {
    match early_fault(engine, block, answers) {
        Some(e) => Some(e),
        None => match answers.checked {
            Err(e) => Some(e),
            Ok(CheckedHeader::Deferred(_, _)) => Some(Error::TooFarInFuture(block.header.hash)),
            Ok(CheckedHeader::Checked(_, _)) => match answers.inherents {
                Err(e) if block.body is Some => Some(e),
                _ => None,
            },
        },
    }
}

/// The state in which the header is checked, or in which the block has been refused before.
proof fn lemma_before_check(engine: PoCVerifier, block: IncomingBlock, answers: VerifyAnswers)
    ensures
        match early_fault(engine, block, answers) {
            Some(e) => after_answers(engine, block, answers, 5) == VerifyState::Refused(e),
            None => after_answers(engine, block, answers, 5) matches VerifyState::Check(q)
                && q.block == block && q.slot_now == answers.slot_now->Ok_0
                && q.epoch_descriptor == answers.descriptor->Ok_0->0 && q.epoch == viable(
                answers.descriptor->Ok_0->0,
                answers.stored,
                engine.config.genesis,
            )->0.epoch() && q.solution_range == solution_range_in(
                block.header,
            )->Ok_0->0.solution_range && q.salt == salt_in(block.header)->Ok_0->0.salt,
        },
{
    reveal_with_fuel(after_answers, 6);
}

/// Every verification ends: the block is accepted if there is nothing wrong with it, and refused
/// with the first thing that is wrong otherwise. What the check for equivocation came to does not
/// matter.
pub proof fn law_verify_ends(engine: PoCVerifier, block: IncomingBlock, answers: VerifyAnswers)
    ensures
        match fault(engine, block, answers) {
            Some(e) => verify_end(engine, block, answers) == VerifyState::Refused(e),
            None => verify_end(engine, block, answers) is Accepted,
        },
{
    lemma_before_check(engine, block, answers);
    reveal_with_fuel(after_answers, 4);
}

/// A block is accepted with nothing of it lost or changed: its origin, its justifications, its
/// body and its hash are kept, the header and the seal are those that the check gave, and the
/// epoch is the one that was found for it.
pub proof fn law_accepted_whole(engine: PoCVerifier, block: IncomingBlock, answers: VerifyAnswers)
    ensures
        verify_end(engine, block, answers) matches VerifyState::Accepted(accepted) ==> {
            &&& answers.checked matches Ok(CheckedHeader::Checked(pre_header, info))
            &&& accepted == (Accepted {
                origin: block.origin,
                pre_header,
                seal: info.seal,
                body: block.body,
                justifications: block.justifications,
                epoch_descriptor: answers.descriptor->Ok_0->0,
                hash: block.header.hash,
            })
        },
{
    law_verify_ends(engine, block, answers);
    lemma_before_check(engine, block, answers);
    reveal_with_fuel(after_answers, 4);
}

/// A header is only checked if it holds a pre-digest, a solution range and a salt. It is checked
/// against the range and the salt that it holds itself, and within the epoch that was found for it.
pub proof fn law_checked_against(engine: PoCVerifier, block: IncomingBlock, answers: VerifyAnswers)
    ensures
        after_answers(engine, block, answers, 5) matches VerifyState::Check(q) ==> {
            &&& q.block == block
            &&& pre_digest_in(block.header) is Ok
            &&& solution_range_in(block.header) matches Ok(Some(range))
            &&& q.solution_range == range.solution_range
            &&& salt_in(block.header) matches Ok(Some(salt))
            &&& q.salt == salt.salt
            &&& answers.slot_now == Ok::<Slot, String>(q.slot_now)
            &&& viable(q.epoch_descriptor, answers.stored, engine.config.genesis) matches Some(
                found,
            )
            &&& q.epoch == found.epoch()
        },
{
    lemma_before_check(engine, block, answers);
}

/// No block of a farmer in the block list is accepted.
pub proof fn law_block_list_keeps_blocks_out(
    engine: PoCVerifier,
    block: IncomingBlock,
    answers: VerifyAnswers,
)
    requires
        answers.in_block_list == Ok::<bool, String>(true),
    ensures
        verify_end(engine, block, answers) is Refused,
{
    law_verify_ends(engine, block, answers);
}

/// Taking the seal off a header does not change its pre-digest.
proof fn lemma_seal_holds_no_pre_digest(header: Header, pre_header: Header)
    requires
        header.digest@.len() > 0,
        header.digest@.last() is Seal,
        pre_header.digest@ == header.digest@.drop_last(),
        pre_header.number == header.number,
    ensures
        pre_digest_in(pre_header) == pre_digest_in(header),
{
    assert(solution_pre_digest_of(header.digest@.last()) is None);
    assert(all_held::<SolutionPreDigest>(header.digest@) == all_held::<SolutionPreDigest>(
        pre_header.digest@,
    ));
}

/// The importer can read the slot of every block that was accepted, and it is the slot that the
/// block was verified for: where the check gives back the header without its seal, the pre-digest
/// is still there.
pub proof fn law_accepted_block_has_its_slot(
    engine: PoCVerifier,
    block: IncomingBlock,
    answers: VerifyAnswers,
    accepted: Accepted,
)
    requires
        verify_end(engine, block, answers) == VerifyState::Accepted(accepted),
        block.header.digest@.len() > 0,
        block.header.digest@.last() is Seal,
        accepted.pre_header.digest@ == block.header.digest@.drop_last(),
        accepted.pre_header.number == block.header.number,
    ensures
        slot_in(accepted.pre_header) is Some,
        slot_in(accepted.pre_header) == slot_in(block.header),
{
    law_verify_ends(engine, block, answers);
    lemma_seal_holds_no_pre_digest(block.header, accepted.pre_header);
}

/// What is asked while a block is verified: the epoch for the slot and the number that the header
/// and the node tell, the block list for the farmer that the pre-digest names, and equivocation
/// and inherents for the slot and the farmer that the check has found in the header.
pub proof fn law_what_is_asked(engine: PoCVerifier, block: IncomingBlock, answers: VerifyAnswers)
    ensures
        ({
            let claimed = pre_digest_in(block.header)->Ok_0;
            &&& after_answers(engine, block, answers, 2) matches VerifyState::Descriptor(q)
                ==> q.block == block && Ok::<Slot, String>(q.slot_now) == answers.slot_now && Ok::<
                BlockNumber,
                String,
            >(q.parent_number) == answers.parent_number && q.slot == claimed.slot && q.farmer
                == claimed.solution.public_key
            &&& after_answers(engine, block, answers, 3) matches VerifyState::StoredEpoch(q)
                ==> q.block == block && q.farmer == claimed.solution.public_key
                && answers.descriptor == Ok::<Option<EpochDescriptor>, String>(
                Some(q.epoch_descriptor),
            )
            &&& after_answers(engine, block, answers, 4) matches VerifyState::BlockList(q)
                ==> q.block == block && q.farmer == claimed.solution.public_key
                && answers.descriptor == Ok::<Option<EpochDescriptor>, String>(
                Some(q.epoch_descriptor),
            )
        }),
        after_answers(engine, block, answers, 6) matches VerifyState::Equivocation(q) ==> {
            &&& answers.checked matches Ok(CheckedHeader::Checked(pre_header, info))
            &&& q.block == block
            &&& Ok::<Slot, String>(q.slot_now) == answers.slot_now
            &&& q.slot == solution_pre_digest_of(info.pre_digest)->0.slot
            &&& q.author == solution_pre_digest_of(info.pre_digest)->0.solution.public_key
            &&& q.pre_header == pre_header
            &&& q.seal == info.seal
        },
        after_answers(engine, block, answers, 7) matches VerifyState::Inherents(q) ==> {
            &&& answers.checked matches Ok(CheckedHeader::Checked(pre_header, info))
            &&& q.parent_hash == block.header.parent_hash
            &&& block.body == Some(q.body)
            &&& q.slot == solution_pre_digest_of(info.pre_digest)->0.slot
            &&& q.accepted.pre_header == pre_header
        },
        block.body is Some ==> !(after_answers(engine, block, answers, 7) is Accepted),
{
    reveal_with_fuel(after_answers, 8);
}

/// A block is accepted if and only if the node could tell the slot that has come and the parent's
/// number, the header holds one pre-digest, one solution range and one salt, an epoch was found
/// for it, its farmer is known not to be in the block list, its header was checked and is not
/// of a slot to come, and its inherents are in order, if its body came along.
pub proof fn law_accepted_iff_everything_is_in_order(
    engine: PoCVerifier,
    block: IncomingBlock,
    answers: VerifyAnswers,
)
    ensures
        verify_end(engine, block, answers) is Accepted <==> {
            &&& answers.slot_now is Ok
            &&& answers.parent_number is Ok
            &&& pre_digest_in(block.header) is Ok
            &&& answers.descriptor is Ok
            &&& answers.descriptor->Ok_0 is Some
            &&& answers.descriptor->Ok_0->0 is Signaled ==> answers.stored is Some
            &&& solution_range_in(block.header) is Ok
            &&& solution_range_in(block.header)->Ok_0 is Some
            &&& salt_in(block.header) is Ok
            &&& salt_in(block.header)->Ok_0 is Some
            &&& answers.in_block_list == Ok::<bool, String>(false)
            &&& answers.checked is Ok
            &&& answers.checked->Ok_0 is Checked
            &&& block.body is Some ==> answers.inherents is Ok
        },
        verify_end(engine, block, answers) is Accepted || verify_end(
            engine,
            block,
            answers,
        ) is Refused,
{
    law_verify_ends(engine, block, answers);
}

/// What a step refuses a block with: an error of the node or of the runtime under the name of what
/// failed, the errors of the header and of the check as they are, a missing epoch with the hash of
/// the parent, and a missing range, a missing salt and a slot to come with the hash of the block.
pub proof fn law_verification_tells_what_is_wrong(
    engine: PoCVerifier,
    text: String,
    e: Error,
    providers: AskProviders,
    parent: AskParentNumber,
    descriptor: AskDescriptor,
    epoch: AskEpoch,
    block_list: AskBlockList,
    check: AskCheck,
    inherents: AskInherents,
    number: BlockNumber,
    stored: Option<Epoch>,
    header: Header,
    slot: Slot,
)
    ensures
        providers.after(Err(text)) == VerifyState::Refused(Error::Client(text)),
        parent.after(Err(text)) == VerifyState::Refused(Error::FetchParentHeader(text)),
        pre_digest_in(parent.block.header) == Err::<SolutionPreDigestView, Error>(e)
            ==> parent.after(Ok(number)) == VerifyState::Refused(e),
        descriptor.after(Err(text)) == VerifyState::Refused(Error::ForkTree(text)),
        descriptor.after(Ok(None)) == VerifyState::Refused(
            Error::FetchEpoch(descriptor.block.header.parent_hash),
        ),
        epoch.epoch_descriptor is Signaled ==> epoch.after(engine, None) == VerifyState::Refused(
            Error::FetchEpoch(epoch.block.header.parent_hash),
        ),
        stored is Some && (solution_range_in(epoch.block.header) matches Ok(None))
            ==> epoch.after(engine, stored) == VerifyState::Refused(
            Error::MissingSolutionRange(epoch.block.header.hash),
        ),
        stored is Some && (solution_range_in(epoch.block.header) matches Err(found) && found == e)
            ==> epoch.after(engine, stored) == VerifyState::Refused(e),
        stored is Some && solution_range_in(epoch.block.header) is Ok && solution_range_in(
            epoch.block.header,
        )->Ok_0 is Some && (salt_in(epoch.block.header) matches Ok(None)) ==> epoch.after(
            engine,
            stored,
        ) == VerifyState::Refused(Error::MissingSalt(epoch.block.header.hash)),
        stored is Some && solution_range_in(epoch.block.header) is Ok && solution_range_in(
            epoch.block.header,
        )->Ok_0 is Some && (salt_in(epoch.block.header) matches Err(found) && found == e)
            ==> epoch.after(engine, stored) == VerifyState::Refused(e),
        block_list.after(Err(text)) == VerifyState::Refused(Error::RuntimeApi(text)),
        block_list.after(Ok(true)) == VerifyState::Refused(
            Error::FarmerInBlockList(block_list.farmer),
        ),
        check.after(Err(e)) == VerifyState::Refused(e),
        check.after(Ok(CheckedHeader::Deferred(header, slot))) == VerifyState::Refused(
            Error::TooFarInFuture(check.block.header.hash),
        ),
        inherents.after(Err(e)) == VerifyState::Refused(e),
{
}


/// A header is accepted for a slot that has come and for the very next one, and for no later one.
pub proof fn law_drift_of_one_slot(slot_now: Slot, slot: Slot)
    ensures
        slot <= last_accepted_slot(slot_now) <==> slot <= slot_now || slot - slot_now == 1,
{
}


} // verus!
