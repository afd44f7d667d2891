//! Finding what the engine has put into a header.

use crate::consensus_log::{
    ConsensusLog, NextSaltDescriptor, NextSolutionRangeDescriptor, SaltDescriptor,
    SolutionRangeDescriptor,
};
use crate::digest::{DigestItem, Header};
use crate::digests::{NextConfigDescriptor, NextEpochDescriptor};
use crate::error::Error;
use crate::primitives::Slot;
use crate::solution::{
    solution_pre_digest_of, Solution, SolutionPreDigest, SolutionPreDigestView,
};
use vstd::prelude::*;

verus! {

/// Something that a digest item may hold.
pub trait InDigest: Sized {
    /// What contracts speak of in its place.
    type Seen;

    /// What contracts speak of in its place.
    spec fn seen(self) -> Self::Seen;

    /// What the item holds of this kind.
    spec fn held(item: DigestItem) -> Option<Self::Seen>;

    /// Reads what the item holds of this kind.
    fn read(item: &DigestItem) -> (r: Option<Self>)
        ensures
            match r {
                Some(x) => Self::held(*item) == Some(x.seen()),
                None => Self::held(*item) is None,
            },
    ;
}

/// Everything of one kind that some digest items hold, in their order.
pub open spec fn all_held<T: InDigest>(items: Seq<DigestItem>) -> Seq<T::Seen>
    decreases items.len(),
{
    if items.len() == 0 {
        Seq::empty()
    } else {
        let before = all_held::<T>(items.drop_last());
        match T::held(items.last()) {
            Some(x) => before.push(x),
            None => before,
        }
    }
}

/// What is found when one of a kind is allowed: none, the one, or the error when there are more.
pub open spec fn at_most_one<T>(found: Seq<T>, more: Error) -> Result<Option<T>, Error> {
    if found.len() == 0 {
        Ok(None)
    } else if found.len() == 1 {
        Ok(Some(found[0]))
    } else {
        Err(more)
    }
}

/// There are no fewer finds in all items than in the first of them.
proof fn lemma_held_grows<T: InDigest>(items: Seq<DigestItem>, n: int)
    requires
        0 <= n <= items.len(),
    ensures
        all_held::<T>(items.take(n)).len() <= all_held::<T>(items).len(),
    decreases items.len() - n,
{
    if n == items.len() {
        assert(items.take(n) =~= items);
    } else {
        assert(items.take(n + 1).drop_last() =~= items.take(n));
        lemma_held_grows::<T>(items, n + 1);
    }
}

/// The one thing of its kind in `items`, nothing, or `more` when there is more than one.
fn find_at_most_one<T: InDigest>(items: &Vec<DigestItem>, more: Error) -> (r: Result<
    Option<T>,
    Error,
>)
    ensures
        match r {
            Ok(Some(x)) => at_most_one(all_held::<T>(items@), more) == Ok::<
                Option<T::Seen>,
                Error,
            >(Some(x.seen())),
            Ok(None) => at_most_one(all_held::<T>(items@), more) == Ok::<Option<T::Seen>, Error>(
                None,
            ),
            Err(e) => at_most_one(all_held::<T>(items@), more) == Err::<Option<T::Seen>, Error>(e),
        },
{
    let mut found: Option<T> = None;
    let mut i: usize = 0;
    assert(items@.take(0) =~= Seq::empty());
    while i < items.len()
        invariant
            i <= items.len(),
            match found {
                Some(x) => all_held::<T>(items@.take(i as int)) =~= seq![x.seen()],
                None => all_held::<T>(items@.take(i as int)).len() == 0,
            },
        decreases items.len() - i,
    {
        let held: Option<T> = T::read(&items[i]);
        proof {
            assert(items@.take(i + 1).drop_last() =~= items@.take(i as int));
            lemma_held_grows::<T>(items@, i + 1);
        }
        if held.is_some() {
            if found.is_some() {
                return Err(more);
            }
            found = held;
        }
        i += 1;
    }
    assert(items@.take(i as int) =~= items@);
    Ok(found)
}

impl InDigest for NextEpochDescriptor {
    type Seen = NextEpochDescriptor;

    open spec fn seen(self) -> NextEpochDescriptor {
        self
    }

    open spec fn held(item: DigestItem) -> Option<NextEpochDescriptor> {
        match crate::consensus_log::log_of(item) {
            Some(ConsensusLog::NextEpochData(d)) => Some(d),
            _ => None,
        }
    }

    fn read(item: &DigestItem) -> (r: Option<NextEpochDescriptor>) {
        match ConsensusLog::from_item(item) {
            Some(ConsensusLog::NextEpochData(d)) => Some(d),
            _ => None,
        }
    }
}

impl InDigest for NextConfigDescriptor {
    type Seen = NextConfigDescriptor;

    open spec fn seen(self) -> NextConfigDescriptor {
        self
    }

    open spec fn held(item: DigestItem) -> Option<NextConfigDescriptor> {
        match crate::consensus_log::log_of(item) {
            Some(ConsensusLog::NextConfigData(d)) => Some(d),
            _ => None,
        }
    }

    fn read(item: &DigestItem) -> (r: Option<NextConfigDescriptor>) {
        match ConsensusLog::from_item(item) {
            Some(ConsensusLog::NextConfigData(d)) => Some(d),
            _ => None,
        }
    }
}

impl InDigest for SolutionRangeDescriptor {
    type Seen = SolutionRangeDescriptor;

    open spec fn seen(self) -> SolutionRangeDescriptor {
        self
    }

    open spec fn held(item: DigestItem) -> Option<SolutionRangeDescriptor> {
        match crate::consensus_log::log_of(item) {
            Some(ConsensusLog::SolutionRangeData(d)) => Some(d),
            _ => None,
        }
    }

    fn read(item: &DigestItem) -> (r: Option<SolutionRangeDescriptor>) {
        match ConsensusLog::from_item(item) {
            Some(ConsensusLog::SolutionRangeData(d)) => Some(d),
            _ => None,
        }
    }
}

impl InDigest for NextSolutionRangeDescriptor {
    type Seen = NextSolutionRangeDescriptor;

    open spec fn seen(self) -> NextSolutionRangeDescriptor {
        self
    }

    open spec fn held(item: DigestItem) -> Option<NextSolutionRangeDescriptor> {
        match crate::consensus_log::log_of(item) {
            Some(ConsensusLog::NextSolutionRangeData(d)) => Some(d),
            _ => None,
        }
    }

    fn read(item: &DigestItem) -> (r: Option<NextSolutionRangeDescriptor>) {
        match ConsensusLog::from_item(item) {
            Some(ConsensusLog::NextSolutionRangeData(d)) => Some(d),
            _ => None,
        }
    }
}

impl InDigest for SaltDescriptor {
    type Seen = SaltDescriptor;

    open spec fn seen(self) -> SaltDescriptor {
        self
    }

    open spec fn held(item: DigestItem) -> Option<SaltDescriptor> {
        match crate::consensus_log::log_of(item) {
            Some(ConsensusLog::SaltData(d)) => Some(d),
            _ => None,
        }
    }

    fn read(item: &DigestItem) -> (r: Option<SaltDescriptor>) {
        match ConsensusLog::from_item(item) {
            Some(ConsensusLog::SaltData(d)) => Some(d),
            _ => None,
        }
    }
}

impl InDigest for NextSaltDescriptor {
    type Seen = NextSaltDescriptor;

    open spec fn seen(self) -> NextSaltDescriptor {
        self
    }

    open spec fn held(item: DigestItem) -> Option<NextSaltDescriptor> {
        match crate::consensus_log::log_of(item) {
            Some(ConsensusLog::NextSaltData(d)) => Some(d),
            _ => None,
        }
    }

    fn read(item: &DigestItem) -> (r: Option<NextSaltDescriptor>) {
        match ConsensusLog::from_item(item) {
            Some(ConsensusLog::NextSaltData(d)) => Some(d),
            _ => None,
        }
    }
}

/// The epoch change that a header announces.
pub open spec fn next_epoch_in(header: Header) -> Result<Option<NextEpochDescriptor>, Error> {
    at_most_one(
        all_held::<NextEpochDescriptor>(header.digest@),
        Error::MultipleEpochChangeDigests,
    )
}

/// The config change that a header announces.
pub open spec fn next_config_in(header: Header) -> Result<Option<NextConfigDescriptor>, Error> {
    at_most_one(
        all_held::<NextConfigDescriptor>(header.digest@),
        Error::MultipleConfigChangeDigests,
    )
}

/// The solution range of a header's block.
pub open spec fn solution_range_in(header: Header) -> Result<
    Option<SolutionRangeDescriptor>,
    Error,
> {
    at_most_one(
        all_held::<SolutionRangeDescriptor>(header.digest@),
        Error::MultipleSolutionRangeDigests,
    )
}

/// The solution range that a header announces for the next block.
pub open spec fn next_solution_range_in(header: Header) -> Result<
    Option<NextSolutionRangeDescriptor>,
    Error,
> {
    at_most_one(
        all_held::<NextSolutionRangeDescriptor>(header.digest@),
        Error::MultipleNextSolutionRangeDigests,
    )
}

/// The salt of a header's block.
pub open spec fn salt_in(header: Header) -> Result<Option<SaltDescriptor>, Error> {
    at_most_one(all_held::<SaltDescriptor>(header.digest@), Error::MultipleSaltDigests)
}

/// The salt that a header announces for the next block.
pub open spec fn next_salt_in(header: Header) -> Result<Option<NextSaltDescriptor>, Error> {
    at_most_one(all_held::<NextSaltDescriptor>(header.digest@), Error::MultipleNextSaltDigests)
}

/// Extract the PoC epoch change digest from the given header, if it exists.
pub fn find_next_epoch_digest(header: &Header) -> (r: Result<Option<NextEpochDescriptor>, Error>)
    ensures
        r == next_epoch_in(*header),
{
    find_at_most_one(&header.digest, Error::MultipleEpochChangeDigests)
}

/// Extract the PoC config change digest from the given header, if it exists.
pub fn find_next_config_digest(header: &Header) -> (r: Result<Option<NextConfigDescriptor>, Error>)
    ensures
        r == next_config_in(*header),
{
    find_at_most_one(&header.digest, Error::MultipleConfigChangeDigests)
}

/// Extract the PoC solution range digest from the given header.
pub fn find_solution_range_digest(header: &Header) -> (r: Result<
    Option<SolutionRangeDescriptor>,
    Error,
>)
    ensures
        r == solution_range_in(*header),
{
    find_at_most_one(&header.digest, Error::MultipleSolutionRangeDigests)
}

/// Extract the next PoC solution range digest from the given header if it exists.
pub fn find_next_solution_range_digest(header: &Header) -> (r: Result<
    Option<NextSolutionRangeDescriptor>,
    Error,
>)
    ensures
        r == next_solution_range_in(*header),
{
    find_at_most_one(&header.digest, Error::MultipleNextSolutionRangeDigests)
}

/// Extract the PoC salt digest from the given header.
pub fn find_salt_digest(header: &Header) -> (r: Result<Option<SaltDescriptor>, Error>)
    ensures
        r == salt_in(*header),
{
    find_at_most_one(&header.digest, Error::MultipleSaltDigests)
}

/// Extract the next PoC salt digest from the given header if it exists.
pub fn find_next_salt_digest(header: &Header) -> (r: Result<Option<NextSaltDescriptor>, Error>)
    ensures
        r == next_salt_in(*header),
{
    find_at_most_one(&header.digest, Error::MultipleNextSaltDigests)
}

impl InDigest for SolutionPreDigest {
    type Seen = SolutionPreDigestView;

    open spec fn seen(self) -> SolutionPreDigestView {
        self@
    }

    open spec fn held(item: DigestItem) -> Option<SolutionPreDigestView> {
        solution_pre_digest_of(item)
    }

    fn read(item: &DigestItem) -> (r: Option<SolutionPreDigest>) {
        SolutionPreDigest::from_item(item)
    }
}

/// The pre-digest of a header. The genesis block holds none: slot zero with a dummy solution
/// stands in for it. Any other block holds exactly one.
pub open spec fn pre_digest_in(header: Header) -> Result<SolutionPreDigestView, Error> {
    if header.number == 0 {
        Ok(SolutionPreDigestView { slot: 0, solution: crate::solution::genesis_solution() })
    } else {
        match at_most_one(
            all_held::<SolutionPreDigest>(header.digest@),
            Error::MultiplePreRuntimeDigests,
        ) {
            Ok(Some(d)) => Ok(d),
            Ok(None) => Err(Error::NoPreRuntimeDigest),
            Err(e) => Err(e),
        }
    }
}

/// The slot of a header, if its pre-digest can be read.
pub open spec fn slot_in(header: Header) -> Option<Slot> {
    match pre_digest_in(header) {
        Ok(d) => Some(d.slot),
        Err(_) => None,
    }
}

/// Extract the PoC pre digest from the given header. Pre-runtime digests are mandatory, the
/// function will return `Err` if none is found.
pub fn find_pre_digest(header: &Header) -> (r: Result<SolutionPreDigest, Error>)
    ensures
        match r {
            Ok(d) => pre_digest_in(*header) == Ok::<SolutionPreDigestView, Error>(d@),
            Err(e) => pre_digest_in(*header) == Err::<SolutionPreDigestView, Error>(e),
        },
{
    // The genesis block doesn't contain a pre digest so let's generate a dummy one to not break
    // any invariants in the rest of the code.
    if header.number == 0 {
        return Ok(SolutionPreDigest { slot: 0, solution: Solution::get_for_genesis() });
    }
    match find_at_most_one::<SolutionPreDigest>(
        &header.digest,
        Error::MultiplePreRuntimeDigests,
    ) {
        Ok(Some(d)) => Ok(d),
        Ok(None) => Err(Error::NoPreRuntimeDigest),
        Err(e) => Err(e),
    }
}

} // verus!
