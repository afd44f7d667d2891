//! Claiming a slot: what farmers are asked, and which of their solutions makes a block.

use crate::challenge::{new_slot_info, NewSlotInfo};
use crate::codec::u64_to_le;
use crate::digest::{DigestItem, Header};
use crate::epoch::{Epoch, ViableEpoch};
use crate::error::Error;
use crate::keys::FarmerKey;
use crate::primitives::{BlockHash, FarmerId, Salt, Slot};
use crate::scan::{find_next_salt_digest, find_next_solution_range_digest, find_pre_digest};
use crate::solution::{Solution, SolutionPreDigest};
use vstd::prelude::*;

verus! {

/// Where a parameter of a claim comes from.
#[derive(Clone, Copy, Debug, PartialEq, Eq)]
pub enum Source {
    /// The parent's header announces it.
    Header(u64),
    /// The parent's header announces nothing: the runtime is asked, at the parent. It falls back
    /// to a default value at genesis.
    Runtime,
    /// The parent's header announces it more than once.
    Ambiguous,
}

impl Source {
    /// The value, where `runtime` is what the runtime answered, if it was asked and did not fail.
    pub open spec fn value(self, runtime: Option<u64>) -> Option<u64> {
        match self {
            Source::Header(v) => Some(v),
            Source::Runtime => runtime,
            Source::Ambiguous => None,
        }
    }

    /// The value, where `runtime` is what the runtime answered, if it was asked and did not fail.
    pub fn resolve(&self, runtime: Option<u64>) -> (r: Option<u64>)
        ensures
            r == self.value(runtime),
            *self matches Source::Header(v) ==> r == Some(v),
            *self is Runtime ==> r == runtime,
            *self is Ambiguous ==> r is None,
    {
        match self {
            Source::Header(v) => Some(*v),
            Source::Runtime => runtime,
            Source::Ambiguous => None,
        }
    }
}

/// Where the solution range for a child of a block comes from.
pub open spec fn range_source_of(parent: Header) -> Source {
    match crate::scan::next_solution_range_in(parent) {
        Ok(Some(d)) => Source::Header(d.solution_range),
        Ok(None) => Source::Runtime,
        Err(_) => Source::Ambiguous,
    }
}

/// Where the solution range for a child of `parent` comes from.
///
/// The parent block is always the source of information, thus on the edge of the era the very
/// first block of the era still uses the solution range from the previous one, but the block after
/// it uses the "next" solution range deposited in the first block.
pub fn solution_range_source(parent: &Header) -> (r: Source)
    ensures
        r == range_source_of(*parent),
        r == (match crate::scan::next_solution_range_in(*parent) {
            Ok(Some(d)) => Source::Header(d.solution_range),
            Ok(None) => Source::Runtime,
            Err(_) => Source::Ambiguous,
        }),
{
    match find_next_solution_range_digest(parent) {
        Ok(Some(d)) => Source::Header(d.solution_range),
        Ok(None) => Source::Runtime,
        Err(_) => Source::Ambiguous,
    }
}

/// Where the salt for a child of a block comes from.
pub open spec fn salt_source_of(parent: Header) -> Source {
    match crate::scan::next_salt_in(parent) {
        Ok(Some(d)) => Source::Header(d.salt),
        Ok(None) => Source::Runtime,
        Err(_) => Source::Ambiguous,
    }
}

/// Where the salt for a child of `parent` comes from.
///
/// The parent block is always the source of information, thus on the edge of the eon the very
/// first block of the eon still uses the salt from the previous one, but the block after it uses
/// the "next" salt deposited in the first block.
pub fn salt_source(parent: &Header) -> (r: Source)
    ensures
        r == salt_source_of(*parent),
        r == (match crate::scan::next_salt_in(*parent) {
            Ok(Some(d)) => Source::Header(d.salt),
            Ok(None) => Source::Runtime,
            Err(_) => Source::Ambiguous,
        }),
{
    match find_next_salt_digest(parent) {
        Ok(Some(d)) => Source::Header(d.salt),
        Ok(None) => Source::Runtime,
        Err(_) => Source::Ambiguous,
    }
}

/// An attempt to claim a slot.
#[derive(Clone, Copy, Debug, PartialEq, Eq)]
pub struct SlotClaim {
    /// The slot.
    pub slot: Slot,
    /// The epoch that the slot belongs to.
    pub epoch: Epoch,
    /// The range that solutions must be in.
    pub solution_range: u64,
    /// The salt of commitments.
    pub salt: u64,
}

/// What a solution is verified against.
#[derive(Clone, Copy, Debug, PartialEq, Eq)]
pub struct SolutionCheck {
    /// The epoch that the slot belongs to.
    pub epoch: Epoch,
    /// The range that the solution must be in.
    pub solution_range: u64,
    /// The slot.
    pub slot: Slot,
    /// The salt of commitments.
    pub salt: Salt,
}

/// A slot that was claimed: the pre-digest of the block to make, and the key to seal it with.
pub struct Claim {
    /// The pre-digest.
    pub pre_digest: SolutionPreDigest,
    /// The key.
    pub key: FarmerKey,
}

/// What becomes of a solution that a farmer has sent.
pub enum Considered {
    /// It is passed over, and the next one is waited for.
    PassedOver,
    /// It is to be verified.
    ToVerify(Solution, FarmerKey),
    /// The slot is not claimed at all.
    GivenUp,
}

/// What becomes of a solution that was verified.
pub enum Verified {
    /// The slot is claimed with it.
    Claimed(Claim),
    /// It is passed over, and the next one is waited for.
    PassedOver,
}

/// How a solution stands before it is verified.
pub enum Standing {
    /// It is passed over.
    PassedOver,
    /// It is to be verified.
    ToVerify,
    /// The slot is not claimed at all.
    GivenUp,
}

/// How a solution stands before it is verified: a farmer in the block list is passed over; when
/// the runtime fails, or what came along is no secret key, the slot is given up.
pub open spec fn standing(secret_key: Seq<u8>, in_block_list: Result<bool, String>) -> Standing {
    match in_block_list {
        Err(_) => Standing::GivenUp,
        Ok(true) => Standing::PassedOver,
        Ok(false) => if crate::keys::secret_key_bytes(secret_key) {
            Standing::ToVerify
        } else {
            Standing::GivenUp
        },
    }
}

/// What the runtime is asked about the block list.
#[derive(Clone, Copy, Debug, PartialEq, Eq)]
pub struct BlockListQuery {
    /// The block at which the runtime is asked.
    pub at: BlockHash,
    /// The farmer it is asked about.
    pub farmer: FarmerId,
}

/// What the runtime is asked about the farmer that sent `solution` for a child of `parent`.
pub fn block_list_query(parent: &Header, solution: &Solution) -> (r: BlockListQuery)
    ensures
        r.at == parent.hash,
        r.farmer == solution.public_key,
{
    BlockListQuery { at: parent.hash, farmer: solution.public_key }
}

/// The attempt to claim a slot, if the epoch, the solution range and the salt are known.
pub open spec fn begun(
    slot: Slot,
    epoch: Option<ViableEpoch>,
    solution_range: Option<u64>,
    salt: Option<u64>,
) -> Option<SlotClaim> {
    match (epoch, solution_range, salt) {
        (Some(found), Some(solution_range), Some(salt)) => Some(
            SlotClaim { slot, epoch: found.epoch(), solution_range, salt },
        ),
        _ => None,
    }
}

impl SlotClaim {
    /// Starts an attempt to claim `slot`, if the epoch, the solution range and the salt are known.
    pub fn begin(
        slot: Slot,
        epoch: Option<ViableEpoch>,
        solution_range: Option<u64>,
        salt: Option<u64>,
    ) -> (r: Option<SlotClaim>)
        ensures
            r == begun(slot, epoch, solution_range, salt),
            r == (match (epoch, solution_range, salt) {
                (Some(found), Some(solution_range), Some(salt)) => Some(
                    SlotClaim { slot, epoch: found.epoch(), solution_range, salt },
                ),
                _ => None,
            }),
    {
        match (epoch, solution_range, salt) {
            (Some(found), Some(solution_range), Some(salt)) => Some(
                SlotClaim { slot, epoch: *found.as_ref(), solution_range, salt },
            ),
            _ => None,
        }
    }

    /// What farmers are told, so that they look for solutions.
    pub fn announcement(&self) -> (r: NewSlotInfo)
        requires
            self.salt < u64::MAX,
        ensures
            r.slot == self.slot,
            r.challenge@ == crate::challenge::sha256(
                crate::challenge::challenge_data(self.epoch, self.slot),
            ).subrange(0, 8),
            forall|data: Seq<u8>|
                data.len() == 40 && data.subrange(0, 32) == self.epoch.randomness@
                    && crate::codec::le_value(data.subrange(32, 40)) == self.slot ==> r.challenge@
                    == (#[trigger] crate::challenge::sha256(data)).subrange(0, 8),
            r.salt@ == crate::codec::le_bytes(self.salt as nat, 8),
            r.next_salt matches Some(next) && next@ == crate::codec::le_bytes(
                (self.salt + 1) as nat,
                8,
            ),
            r.solution_range == self.solution_range,
    {
        let salt: Salt = u64_to_le(self.salt);
        proof {
            crate::codec::lemma_u64_bytes(self.salt);
        }
        let r: NewSlotInfo = new_slot_info(self.slot, &self.epoch, salt, self.solution_range);
        proof {
            let next = r.next_salt->0;
            crate::codec::lemma_u64_value(next@);
        }
        r
    }

    /// What solutions are verified against.
    pub fn check(&self) -> (r: SolutionCheck)
        ensures
            r.epoch == self.epoch,
            r.solution_range == self.solution_range,
            r.slot == self.slot,
            r.salt@ == crate::codec::le_bytes(self.salt as nat, 8),
    {
        SolutionCheck {
            epoch: self.epoch,
            solution_range: self.solution_range,
            slot: self.slot,
            salt: u64_to_le(self.salt),
        }
    }

    /// What becomes of a solution that came with `secret_key`, where `in_block_list` is what the
    /// runtime answered when it was asked whether the farmer is in the block list. A farmer in
    /// the block list is passed over. When the runtime fails, or the key is none, the slot is
    /// given up.
    pub fn consider(
        &self,
        solution: Solution,
        secret_key: &[u8],
        in_block_list: Result<bool, String>,
    ) -> (r: Considered)
        ensures
            match standing(secret_key@, in_block_list) {
                Standing::GivenUp => r is GivenUp,
                Standing::PassedOver => r is PassedOver,
                Standing::ToVerify => r matches Considered::ToVerify(s, key) && s == solution
                    && key.secret() == secret_key@,
            },
    {
        match in_block_list {
            Err(_) => Considered::GivenUp,
            Ok(listed) => {
                if listed {
                    return Considered::PassedOver;
                }
                match FarmerKey::from_bytes(secret_key) {
                    Some(key) => Considered::ToVerify(solution, key),
                    None => Considered::GivenUp,
                }
            },
        }
    }

    /// What becomes of a solution whose verification gave `verification`.
    pub fn decide(
        &self,
        solution: Solution,
        key: FarmerKey,
        verification: Result<(), Error>,
    ) -> (r: Verified)
        ensures
            match verification {
                Ok(_) => r matches Verified::Claimed(claim) && claim.pre_digest.slot == self.slot
                    && claim.pre_digest.solution == solution && claim.key == key,
                Err(_) => r is PassedOver,
            },
    {
        match verification {
            Ok(_) => Verified::Claimed(
                Claim { pre_digest: SolutionPreDigest { slot: self.slot, solution }, key },
            ),
            Err(_) => Verified::PassedOver,
        }
    }
}

/// A solution that a farmer sent, as far as it decides what becomes of it.
pub struct Sent {
    /// The bytes that came along as a secret key.
    pub secret_key: Seq<u8>,
    /// What the runtime answered about the block list.
    pub in_block_list: Result<bool, String>,
    /// What the verification gave.
    pub verification: Result<(), Error>,
}

/// What becomes of a solution in the end.
pub enum Fate {
    /// The slot is claimed with it.
    Claims,
    /// It is passed over, and the next one is waited for.
    PassedOver,
    /// The slot is not claimed at all.
    GivesUp,
}

/// What becomes of a solution in the end.
pub open spec fn fate(sent: Sent) -> Fate {
    match standing(sent.secret_key, sent.in_block_list) {
        Standing::GivenUp => Fate::GivesUp,
        Standing::PassedOver => Fate::PassedOver,
        Standing::ToVerify => match sent.verification {
            Ok(_) => Fate::Claims,
            Err(_) => Fate::PassedOver,
        },
    }
}

/// With which of the solutions that farmers sent, one after the other, the slot is claimed: each
/// is considered in its turn, until one claims the slot or the slot is given up.
pub open spec fn claimed_with(sent: Seq<Sent>) -> Option<int>
    decreases sent.len(),
{
    if sent.len() == 0 {
        None
    } else {
        match fate(sent[0]) {
            Fate::Claims => Some(0),
            Fate::GivesUp => None,
            Fate::PassedOver => match claimed_with(sent.skip(1)) {
                Some(i) => Some(i + 1),
                None => None,
            },
        }
    }
}

/// The first solution that can claim the slot does, unless the slot was given up before it: a slot
/// is claimed with a solution if and only if it can claim it and all before it were passed over.
pub proof fn law_first_good_solution_claims(sent: Seq<Sent>, i: int)
    requires
        0 <= i < sent.len(),
    ensures
        claimed_with(sent) == Some(i) <==> fate(sent[i]) is Claims && forall|j: int|
            0 <= j < i ==> fate(#[trigger] sent[j]) is PassedOver,
    decreases sent.len(),
{
    let rest = sent.skip(1);
    lemma_claimed_index_bounds(rest);
    if i > 0 {
        law_first_good_solution_claims(rest, i - 1);
        assert(rest[i - 1] == sent[i]);
        if forall|j: int| 0 <= j < i ==> fate(#[trigger] sent[j]) is PassedOver {
            assert(fate(sent[0]) is PassedOver);
            assert forall|j: int| 0 <= j < i - 1 implies fate(#[trigger] rest[j]) is PassedOver by {
                assert(rest[j] == sent[j + 1]);
            }
        }
        if fate(sent[0]) is PassedOver && forall|j: int|
            0 <= j < i - 1 ==> fate(#[trigger] rest[j]) is PassedOver {
            assert forall|j: int| 0 <= j < i implies fate(#[trigger] sent[j]) is PassedOver by {
                if j > 0 {
                    assert(rest[j - 1] == sent[j]);
                }
            }
        }
    }
}

/// A slot is claimed with one of the solutions that were sent.
proof fn lemma_claimed_index_bounds(sent: Seq<Sent>)
    ensures
        claimed_with(sent) matches Some(i) ==> 0 <= i < sent.len(),
    decreases sent.len(),
{
    if sent.len() > 0 {
        lemma_claimed_index_bounds(sent.skip(1));
    }
}

/// A farmer in the block list never claims a slot, whatever it sends.
pub proof fn law_block_list_keeps_out(sent: Seq<Sent>, i: int)
    requires
        0 <= i < sent.len(),
        sent[i].in_block_list == Ok::<bool, String>(true),
    ensures
        claimed_with(sent) != Some(i),
{
    law_first_good_solution_claims(sent, i);
}

/// The digest items that a block starts with: the pre-digest of its claim.
pub fn pre_digest_data(claim: &Claim) -> (r: Vec<DigestItem>)
    requires
        claim.pre_digest@.wf(),
    ensures
        r@.len() == 1,
        r@[0] matches DigestItem::PreRuntime(id, data) && id == crate::primitives::POC_ENGINE_ID
            && data@ == claim.pre_digest@.encoding(),
{
    let mut r: Vec<DigestItem> = Vec::new();
    r.push(claim.pre_digest.to_item());
    r
}

/// What a strategy that holds block production back is asked.
#[derive(Clone, Copy, Debug, PartialEq, Eq)]
pub struct BackoffQuery {
    /// The number of the chain's head.
    pub chain_head_number: u64,
    /// The slot of the chain's head.
    pub chain_head_slot: Slot,
    /// The number of the last finalized block.
    pub finalized_number: u64,
    /// The slot that has come.
    pub slot_now: Slot,
}

/// What the strategy is asked, if there is one and the slot of the chain's head can be read.
pub open spec fn backoff_question(
    has_strategy: bool,
    slot: Slot,
    chain_head: Header,
    finalized_number: u64,
) -> Option<BackoffQuery> {
    match (has_strategy, crate::scan::slot_in(chain_head)) {
        (true, Some(chain_head_slot)) => Some(
            BackoffQuery {
                chain_head_number: chain_head.number,
                chain_head_slot,
                finalized_number,
                slot_now: slot,
            },
        ),
        _ => None,
    }
}

/// What the strategy is asked, if there is one and the slot of the chain's head can be read.
pub fn backoff_query(
    has_strategy: bool,
    slot: Slot,
    chain_head: &Header,
    finalized_number: u64,
) -> (r: Option<BackoffQuery>)
    ensures
        r == backoff_question(has_strategy, slot, *chain_head, finalized_number),
        r == (match (has_strategy, crate::scan::slot_in(*chain_head)) {
            (true, Some(chain_head_slot)) => Some(
                BackoffQuery {
                    chain_head_number: chain_head.number,
                    chain_head_slot,
                    finalized_number,
                    slot_now: slot,
                },
            ),
            _ => None,
        }),
{
    if has_strategy {
        match find_pre_digest(chain_head) {
            Ok(d) => Some(
                BackoffQuery {
                    chain_head_number: chain_head.number,
                    chain_head_slot: d.slot,
                    finalized_number,
                    slot_now: slot,
                },
            ),
            Err(_) => None,
        }
    } else {
        None
    }
}

/// Whether block production is held back: only where the strategy was asked, and says so.
pub fn should_backoff(answer: Option<bool>) -> (r: bool)
    ensures
        r == (answer == Some(true)),
{
    match answer {
        Some(hold) => hold,
        None => false,
    }
}

/// The slot of the chain's head, from which the time left for a proposal is reckoned, if it can be
/// read.
pub fn proposing_parent_slot(chain_head: &Header) -> (r: Option<Slot>)
    ensures
        r == crate::scan::slot_in(*chain_head),
{
    match find_pre_digest(chain_head) {
        Ok(d) => Some(d.slot),
        Err(_) => None,
    }
}

/// What the parent's header announces is used, whatever the runtime answers, and also if it is not
/// asked. Where the header announces nothing, what the runtime answers is used. Where it announces
/// more than one value, there is none.
pub proof fn law_announced_values_are_used(parent: Header, runtime: Option<u64>)
    ensures
        crate::scan::next_solution_range_in(parent) matches Ok(Some(d)) ==> range_source_of(
            parent,
        ).value(runtime) == Some(d.solution_range),
        crate::scan::next_solution_range_in(parent) matches Ok(None) ==> range_source_of(
            parent,
        ).value(runtime) == runtime,
        crate::scan::next_solution_range_in(parent) is Err ==> range_source_of(parent).value(
            runtime,
        ) is None,
        crate::scan::next_salt_in(parent) matches Ok(Some(d)) ==> salt_source_of(parent).value(
            runtime,
        ) == Some(d.salt),
        crate::scan::next_salt_in(parent) matches Ok(None) ==> salt_source_of(parent).value(runtime)
            == runtime,
        crate::scan::next_salt_in(parent) is Err ==> salt_source_of(parent).value(runtime) is None,
{
}

/// A value that comes from the header does not depend on the runtime; one that comes from the
/// runtime is what the runtime answers.
pub proof fn law_source_decides_who_is_believed(v: u64, first: Option<u64>, second: Option<u64>)
    ensures
        Source::Header(v).value(first) == Some(v),
        Source::Header(v).value(first) == Source::Header(v).value(second),
        Source::Runtime.value(first) == first,
        Source::Ambiguous.value(first) == None::<u64>,
{
}

/// A solution claims the slot if and only if its farmer is not in the block list, what came along
/// is a secret key, and the solution is good. The slot is given up if and only if the runtime
/// fails, or the farmer is not in the block list and what came along is no secret key. In every
/// other case the solution is passed over.
pub proof fn law_what_becomes_of_a_solution(sent: Sent)
    ensures
        fate(sent) is Claims <==> sent.in_block_list == Ok::<bool, String>(false)
            && crate::keys::secret_key_bytes(sent.secret_key) && sent.verification is Ok,
        fate(sent) is GivesUp <==> sent.in_block_list is Err || sent.in_block_list == Ok::<
            bool,
            String,
        >(false) && !crate::keys::secret_key_bytes(sent.secret_key),
        fate(sent) is PassedOver <==> sent.in_block_list == Ok::<bool, String>(true)
            || sent.in_block_list == Ok::<bool, String>(false) && crate::keys::secret_key_bytes(
            sent.secret_key,
        ) && sent.verification is Err,
{
}

/// A solution is only verified if its farmer is not in the block list and a secret key came along.
pub proof fn law_what_is_verified(secret_key: Seq<u8>, in_block_list: Result<bool, String>)
    ensures
        standing(secret_key, in_block_list) is ToVerify <==> in_block_list == Ok::<bool, String>(
            false,
        ) && crate::keys::secret_key_bytes(secret_key),
        standing(secret_key, in_block_list) is PassedOver <==> in_block_list == Ok::<bool, String>(
            true,
        ),
{
}

/// An attempt to claim a slot is made if and only if the epoch, the solution range and the salt are
/// known, and it is made for that slot, with just these.
pub proof fn law_claim_begins_with_what_is_known(
    slot: Slot,
    epoch: Option<ViableEpoch>,
    solution_range: Option<u64>,
    salt: Option<u64>,
)
    ensures
        begun(slot, epoch, solution_range, salt) is Some <==> epoch is Some
            && solution_range is Some && salt is Some,
        begun(slot, epoch, solution_range, salt) matches Some(claim) ==> claim.slot == slot
            && claim.epoch == epoch->0.epoch() && Some(claim.solution_range) == solution_range
            && Some(claim.salt) == salt,
{
}

/// On top of a block that announces one solution range and one salt, a slot is claimed with these,
/// whether the runtime was asked or not, and whatever it answered.
pub proof fn law_claim_uses_what_the_parent_announces(
    parent: Header,
    slot: Slot,
    epoch: ViableEpoch,
    range_of_runtime: Option<u64>,
    salt_of_runtime: Option<u64>,
)
    requires
        crate::scan::next_solution_range_in(parent) matches Ok(Some(_)),
        crate::scan::next_salt_in(parent) matches Ok(Some(_)),
    ensures
        begun(
            slot,
            Some(epoch),
            range_source_of(parent).value(range_of_runtime),
            salt_source_of(parent).value(salt_of_runtime),
        ) matches Some(claim) && claim.slot == slot && claim.epoch == epoch.epoch()
            && claim.solution_range == crate::scan::next_solution_range_in(
            parent,
        )->Ok_0->0.solution_range && claim.salt == crate::scan::next_salt_in(parent)->Ok_0->0.salt,
{
    law_announced_values_are_used(parent, range_of_runtime);
    law_announced_values_are_used(parent, salt_of_runtime);
}

/// The strategy that holds block production back is asked if and only if there is one and the slot
/// of the chain's head can be read, and then about the head, the last finalized block and the slot
/// that has come, as they are.
pub proof fn law_backoff_is_asked_about_the_chain_head(
    has_strategy: bool,
    slot: Slot,
    chain_head: Header,
    finalized_number: u64,
    query: BackoffQuery,
)
    ensures
        backoff_question(has_strategy, slot, chain_head, finalized_number) == Some(query) <==> {
            &&& has_strategy
            &&& crate::scan::slot_in(chain_head) == Some(query.chain_head_slot)
            &&& query.chain_head_number == chain_head.number
            &&& query.finalized_number == finalized_number
            &&& query.slot_now == slot
        },
{
}


} // verus!
