//! What holds of the search through a header's digest.

use crate::consensus_log::{
    law_log_is_read_iff_written, log_of, ConsensusLog, NextSaltDescriptor,
    NextSolutionRangeDescriptor, SaltDescriptor, SolutionRangeDescriptor,
};
use crate::digest::{DigestItem, Header};
use crate::digests::{NextConfigDescriptor, NextEpochDescriptor};
use crate::error::Error;
use crate::primitives::POC_ENGINE_ID;
use crate::scan::{
    all_held, at_most_one, next_config_in, next_epoch_in, next_salt_in, next_solution_range_in,
    pre_digest_in, salt_in, slot_in, solution_range_in, InDigest,
};
use crate::solution::{
    law_solution_pre_digest_reads_back, solution_pre_digest_of, SolutionPreDigest,
    SolutionPreDigestView,
};
use vstd::prelude::*;

verus! {

/// Where no item holds anything of a kind, nothing is found.
pub proof fn law_nothing_is_found<T: InDigest>(items: Seq<DigestItem>, more: Error)
    requires
        forall|i: int| 0 <= i < items.len() ==> T::held(#[trigger] items[i]) is None,
    ensures
        all_held::<T>(items).len() == 0,
        at_most_one(all_held::<T>(items), more) == Ok::<Option<T::Seen>, Error>(None),
    decreases items.len(),
{
    if items.len() > 0 {
        assert(T::held(items[items.len() - 1]) is None);
        assert forall|i: int| 0 <= i < items.drop_last().len() implies T::held(
            #[trigger] items.drop_last()[i],
        ) is None by {
            assert(items.drop_last()[i] == items[i]);
        }
        law_nothing_is_found::<T>(items.drop_last(), more);
    }
}

/// Where one item holds something of a kind and no other does, that is what is found, wherever the
/// item stands.
pub proof fn law_the_one_is_found<T: InDigest>(items: Seq<DigestItem>, at: int, more: Error)
    requires
        0 <= at < items.len(),
        T::held(items[at]) is Some,
        forall|i: int| 0 <= i < items.len() && i != at ==> T::held(#[trigger] items[i]) is None,
    ensures
        all_held::<T>(items) =~= seq![T::held(items[at])->0],
        at_most_one(all_held::<T>(items), more) == Ok::<Option<T::Seen>, Error>(T::held(items[at])),
    decreases items.len(),
{
    let before = items.drop_last();
    assert forall|i: int| 0 <= i < before.len() && i != at implies T::held(
        #[trigger] before[i],
    ) is None by {
        assert(before[i] == items[i]);
    }
    if at == items.len() - 1 {
        law_nothing_is_found::<T>(before, more);
    } else {
        assert(before[at] == items[at]);
        assert(T::held(items[items.len() - 1]) is None);
        law_the_one_is_found::<T>(before, at, more);
    }
}

/// Where two items hold something of a kind, the search fails.
pub proof fn law_two_are_too_many<T: InDigest>(
    items: Seq<DigestItem>,
    first: int,
    second: int,
    more: Error,
)
    requires
        0 <= first < second < items.len(),
        T::held(items[first]) is Some,
        T::held(items[second]) is Some,
    ensures
        at_most_one(all_held::<T>(items), more) == Err::<Option<T::Seen>, Error>(more),
{
    lemma_held_twice::<T>(items, first, second);
}

/// An item that holds something counts.
proof fn lemma_held_count<T: InDigest>(items: Seq<DigestItem>, at: int)
    requires
        0 <= at < items.len(),
        T::held(items[at]) is Some,
    ensures
        all_held::<T>(items).len() >= 1,
    decreases items.len(),
{
    if at < items.len() - 1 {
        assert(items.drop_last()[at] == items[at]);
        lemma_held_count::<T>(items.drop_last(), at);
    }
}

/// Two items that hold something count twice.
proof fn lemma_held_twice<T: InDigest>(items: Seq<DigestItem>, first: int, second: int)
    requires
        0 <= first < second < items.len(),
        T::held(items[first]) is Some,
        T::held(items[second]) is Some,
    ensures
        all_held::<T>(items).len() >= 2,
    decreases items.len(),
{
    let before = items.drop_last();
    assert(before[first] == items[first]);
    if second == items.len() - 1 {
        lemma_held_count::<T>(before, first);
    } else {
        assert(before[second] == items[second]);
        lemma_held_twice::<T>(before, first, second);
    }
}

/// A block other than genesis must hold a pre-digest.
pub proof fn law_pre_digest_is_mandatory(header: Header)
    requires
        header.number != 0,
        forall|i: int|
            0 <= i < header.digest@.len() ==> solution_pre_digest_of(
                #[trigger] header.digest@[i],
            ) is None,
    ensures
        pre_digest_in(header) == Err::<SolutionPreDigestView, Error>(Error::NoPreRuntimeDigest),
{
    law_nothing_is_found::<SolutionPreDigest>(header.digest@, Error::MultiplePreRuntimeDigests);
}

/// A block other than genesis must not hold two pre-digests.
pub proof fn law_pre_digest_is_unique(header: Header, first: int, second: int)
    requires
        header.number != 0,
        0 <= first < second < header.digest@.len(),
        solution_pre_digest_of(header.digest@[first]) is Some,
        solution_pre_digest_of(header.digest@[second]) is Some,
    ensures
        pre_digest_in(header) == Err::<SolutionPreDigestView, Error>(
            Error::MultiplePreRuntimeDigests,
        ),
{
    law_two_are_too_many::<SolutionPreDigest>(
        header.digest@,
        first,
        second,
        Error::MultiplePreRuntimeDigests,
    );
}

/// The pre-digest that an author has put into a block is the one that is found in it: whatever
/// else the header holds, as long as it is no pre-digest.
pub proof fn law_authored_pre_digest_is_found(
    header: Header,
    digest: SolutionPreDigestView,
    at: int,
)
    requires
        header.number != 0,
        digest.wf(),
        0 <= at < header.digest@.len(),
        header.digest@[at] matches DigestItem::PreRuntime(id, data) && id == POC_ENGINE_ID
            && data@ == digest.encoding(),
        forall|i: int|
            0 <= i < header.digest@.len() && i != at ==> solution_pre_digest_of(
                #[trigger] header.digest@[i],
            ) is None,
    ensures
        pre_digest_in(header) == Ok::<SolutionPreDigestView, Error>(digest),
{
    law_solution_pre_digest_reads_back(digest, header.digest@[at]);
    law_the_one_is_found::<SolutionPreDigest>(
        header.digest@,
        at,
        Error::MultiplePreRuntimeDigests,
    );
}

/// A header with one log of an epoch change is read as having that one, wherever it stands and
/// whatever else the header holds; one with none has none; one with two or more is refused with
/// the error of this kind of log.
pub proof fn law_next_epoch_in(header: Header, at: int, other: int, d: NextEpochDescriptor)
    ensures
        (0 <= at < header.digest@.len() && (header.digest@[at] matches DigestItem::Consensus(
            id,
            data,
        ) && id == POC_ENGINE_ID
            && ConsensusLog::NextEpochData(d).encoding().is_prefix_of(data@))
            && forall|i: int|
            0 <= i < header.digest@.len() && i != at ==> !(log_of(
                #[trigger] header.digest@[i],
            ) matches Some(ConsensusLog::NextEpochData(_)))) ==> next_epoch_in(header)
            == Ok::<Option<NextEpochDescriptor>, Error>(Some(d)),
        (forall|i: int|
            0 <= i < header.digest@.len() ==> !(log_of(#[trigger] header.digest@[i]) matches Some(
                ConsensusLog::NextEpochData(_),
            ))) ==> next_epoch_in(header)
            == Ok::<Option<NextEpochDescriptor>, Error>(None),
        (0 <= at < other < header.digest@.len() && (log_of(header.digest@[at]) matches Some(
            ConsensusLog::NextEpochData(_),
        )) && (log_of(header.digest@[other]) matches Some(
            ConsensusLog::NextEpochData(_),
        ))) ==> next_epoch_in(header)
            == Err::<Option<NextEpochDescriptor>, Error>(Error::MultipleEpochChangeDigests),
{
    let items = header.digest@;
    if forall|i: int|
        0 <= i < items.len() ==> !(log_of(#[trigger] items[i]) matches Some(
            ConsensusLog::NextEpochData(_),
        )) {
        assert forall|i: int| 0 <= i < items.len() implies
            <NextEpochDescriptor as InDigest>::held(#[trigger] items[i]) is None by {}
        law_nothing_is_found::<NextEpochDescriptor>(items, Error::MultipleEpochChangeDigests);
    }
    if 0 <= at < items.len() {
        law_log_is_read_iff_written(items[at], ConsensusLog::NextEpochData(d));
        if <NextEpochDescriptor as InDigest>::held(items[at]) is Some && forall|i: int|
            0 <= i < items.len() && i != at ==> !(log_of(#[trigger] items[i]) matches Some(
                ConsensusLog::NextEpochData(_),
            )) {
            assert forall|i: int| 0 <= i < items.len() && i != at implies
                <NextEpochDescriptor as InDigest>::held(#[trigger] items[i]) is None by {}
            law_the_one_is_found::<NextEpochDescriptor>(
                items,
                at,
                Error::MultipleEpochChangeDigests,
            );
        }
    }
    if 0 <= at < other < items.len() && <NextEpochDescriptor as InDigest>::held(items[at]) is Some
        && <NextEpochDescriptor as InDigest>::held(items[other]) is Some {
        law_two_are_too_many::<NextEpochDescriptor>(
            items,
            at,
            other,
            Error::MultipleEpochChangeDigests,
        );
    }
}

/// A header with one log of a config change is read as having that one, wherever it stands and
/// whatever else the header holds; one with none has none; one with two or more is refused with
/// the error of this kind of log.
pub proof fn law_next_config_in(header: Header, at: int, other: int, d: NextConfigDescriptor)
    ensures
        (0 <= at < header.digest@.len() && (header.digest@[at] matches DigestItem::Consensus(
            id,
            data,
        ) && id == POC_ENGINE_ID
            && ConsensusLog::NextConfigData(d).encoding().is_prefix_of(data@))
            && forall|i: int|
            0 <= i < header.digest@.len() && i != at ==> !(log_of(
                #[trigger] header.digest@[i],
            ) matches Some(ConsensusLog::NextConfigData(_)))) ==> next_config_in(header)
            == Ok::<Option<NextConfigDescriptor>, Error>(Some(d)),
        (forall|i: int|
            0 <= i < header.digest@.len() ==> !(log_of(#[trigger] header.digest@[i]) matches Some(
                ConsensusLog::NextConfigData(_),
            ))) ==> next_config_in(header)
            == Ok::<Option<NextConfigDescriptor>, Error>(None),
        (0 <= at < other < header.digest@.len() && (log_of(header.digest@[at]) matches Some(
            ConsensusLog::NextConfigData(_),
        )) && (log_of(header.digest@[other]) matches Some(
            ConsensusLog::NextConfigData(_),
        ))) ==> next_config_in(header)
            == Err::<Option<NextConfigDescriptor>, Error>(Error::MultipleConfigChangeDigests),
{
    let items = header.digest@;
    if forall|i: int|
        0 <= i < items.len() ==> !(log_of(#[trigger] items[i]) matches Some(
            ConsensusLog::NextConfigData(_),
        )) {
        assert forall|i: int| 0 <= i < items.len() implies
            <NextConfigDescriptor as InDigest>::held(#[trigger] items[i]) is None by {}
        law_nothing_is_found::<NextConfigDescriptor>(items, Error::MultipleConfigChangeDigests);
    }
    if 0 <= at < items.len() {
        law_log_is_read_iff_written(items[at], ConsensusLog::NextConfigData(d));
        if <NextConfigDescriptor as InDigest>::held(items[at]) is Some && forall|i: int|
            0 <= i < items.len() && i != at ==> !(log_of(#[trigger] items[i]) matches Some(
                ConsensusLog::NextConfigData(_),
            )) {
            assert forall|i: int| 0 <= i < items.len() && i != at implies
                <NextConfigDescriptor as InDigest>::held(#[trigger] items[i]) is None by {}
            law_the_one_is_found::<NextConfigDescriptor>(
                items,
                at,
                Error::MultipleConfigChangeDigests,
            );
        }
    }
    if 0 <= at < other < items.len() && <NextConfigDescriptor as InDigest>::held(items[at]) is Some
        && <NextConfigDescriptor as InDigest>::held(items[other]) is Some {
        law_two_are_too_many::<NextConfigDescriptor>(
            items,
            at,
            other,
            Error::MultipleConfigChangeDigests,
        );
    }
}

/// A header with one log of a solution range is read as having that one, wherever it stands and
/// whatever else the header holds; one with none has none; one with two or more is refused with
/// the error of this kind of log.
pub proof fn law_solution_range_in(header: Header, at: int, other: int, d: SolutionRangeDescriptor)
    ensures
        (0 <= at < header.digest@.len() && (header.digest@[at] matches DigestItem::Consensus(
            id,
            data,
        ) && id == POC_ENGINE_ID
            && ConsensusLog::SolutionRangeData(d).encoding().is_prefix_of(data@))
            && forall|i: int|
            0 <= i < header.digest@.len() && i != at ==> !(log_of(
                #[trigger] header.digest@[i],
            ) matches Some(ConsensusLog::SolutionRangeData(_)))) ==> solution_range_in(header)
            == Ok::<Option<SolutionRangeDescriptor>, Error>(Some(d)),
        (forall|i: int|
            0 <= i < header.digest@.len() ==> !(log_of(#[trigger] header.digest@[i]) matches Some(
                ConsensusLog::SolutionRangeData(_),
            ))) ==> solution_range_in(header)
            == Ok::<Option<SolutionRangeDescriptor>, Error>(None),
        (0 <= at < other < header.digest@.len() && (log_of(header.digest@[at]) matches Some(
            ConsensusLog::SolutionRangeData(_),
        )) && (log_of(header.digest@[other]) matches Some(
            ConsensusLog::SolutionRangeData(_),
        ))) ==> solution_range_in(header)
            == Err::<Option<SolutionRangeDescriptor>, Error>(Error::MultipleSolutionRangeDigests),
{
    let items = header.digest@;
    if forall|i: int|
        0 <= i < items.len() ==> !(log_of(#[trigger] items[i]) matches Some(
            ConsensusLog::SolutionRangeData(_),
        )) {
        assert forall|i: int| 0 <= i < items.len() implies
            <SolutionRangeDescriptor as InDigest>::held(#[trigger] items[i]) is None by {}
        law_nothing_is_found::<SolutionRangeDescriptor>(items, Error::MultipleSolutionRangeDigests);
    }
    if 0 <= at < items.len() {
        law_log_is_read_iff_written(items[at], ConsensusLog::SolutionRangeData(d));
        if <SolutionRangeDescriptor as InDigest>::held(items[at]) is Some && forall|i: int|
            0 <= i < items.len() && i != at ==> !(log_of(#[trigger] items[i]) matches Some(
                ConsensusLog::SolutionRangeData(_),
            )) {
            assert forall|i: int| 0 <= i < items.len() && i != at implies
                <SolutionRangeDescriptor as InDigest>::held(#[trigger] items[i]) is None by {}
            law_the_one_is_found::<SolutionRangeDescriptor>(
                items,
                at,
                Error::MultipleSolutionRangeDigests,
            );
        }
    }
    if 0 <= at < other < items.len()
        && <SolutionRangeDescriptor as InDigest>::held(items[at]) is Some
        && <SolutionRangeDescriptor as InDigest>::held(items[other]) is Some {
        law_two_are_too_many::<SolutionRangeDescriptor>(
            items,
            at,
            other,
            Error::MultipleSolutionRangeDigests,
        );
    }
}

/// A header with one log of a next solution range is read as having that one, wherever it stands
/// and whatever else the header holds; one with none has none; one with two or more is refused
/// with the error of this kind of log.
pub proof fn law_next_solution_range_in(
    header: Header,
    at: int,
    other: int,
    d: NextSolutionRangeDescriptor,
)
    ensures
        (0 <= at < header.digest@.len() && (header.digest@[at] matches DigestItem::Consensus(
            id,
            data,
        ) && id == POC_ENGINE_ID
            && ConsensusLog::NextSolutionRangeData(d).encoding().is_prefix_of(data@))
            && forall|i: int|
            0 <= i < header.digest@.len() && i != at ==> !(log_of(
                #[trigger] header.digest@[i],
            ) matches Some(ConsensusLog::NextSolutionRangeData(_)))) ==> next_solution_range_in(
            header,
        ) == Ok::<Option<NextSolutionRangeDescriptor>, Error>(Some(d)),
        (forall|i: int|
            0 <= i < header.digest@.len() ==> !(log_of(#[trigger] header.digest@[i]) matches Some(
                ConsensusLog::NextSolutionRangeData(_),
            ))) ==> next_solution_range_in(header)
            == Ok::<Option<NextSolutionRangeDescriptor>, Error>(None),
        (0 <= at < other < header.digest@.len() && (log_of(header.digest@[at]) matches Some(
            ConsensusLog::NextSolutionRangeData(_),
        )) && (log_of(header.digest@[other]) matches Some(
            ConsensusLog::NextSolutionRangeData(_),
        ))) ==> next_solution_range_in(header)
            == Err::<Option<NextSolutionRangeDescriptor>, Error>(
            Error::MultipleNextSolutionRangeDigests,
        ),
{
    let items = header.digest@;
    if forall|i: int|
        0 <= i < items.len() ==> !(log_of(#[trigger] items[i]) matches Some(
            ConsensusLog::NextSolutionRangeData(_),
        )) {
        assert forall|i: int| 0 <= i < items.len() implies
            <NextSolutionRangeDescriptor as InDigest>::held(#[trigger] items[i]) is None by {}
        law_nothing_is_found::<NextSolutionRangeDescriptor>(
            items,
            Error::MultipleNextSolutionRangeDigests,
        );
    }
    if 0 <= at < items.len() {
        law_log_is_read_iff_written(items[at], ConsensusLog::NextSolutionRangeData(d));
        if <NextSolutionRangeDescriptor as InDigest>::held(items[at]) is Some && forall|i: int|
            0 <= i < items.len() && i != at ==> !(log_of(#[trigger] items[i]) matches Some(
                ConsensusLog::NextSolutionRangeData(_),
            )) {
            assert forall|i: int| 0 <= i < items.len() && i != at implies
                <NextSolutionRangeDescriptor as InDigest>::held(#[trigger] items[i]) is None by {}
            law_the_one_is_found::<NextSolutionRangeDescriptor>(
                items,
                at,
                Error::MultipleNextSolutionRangeDigests,
            );
        }
    }
    if 0 <= at < other < items.len()
        && <NextSolutionRangeDescriptor as InDigest>::held(items[at]) is Some
        && <NextSolutionRangeDescriptor as InDigest>::held(items[other]) is Some {
        law_two_are_too_many::<NextSolutionRangeDescriptor>(
            items,
            at,
            other,
            Error::MultipleNextSolutionRangeDigests,
        );
    }
}

/// A header with one log of a salt is read as having that one, wherever it stands and whatever else
/// the header holds; one with none has none; one with two or more is refused with the error of this
/// kind of log.
pub proof fn law_salt_in(header: Header, at: int, other: int, d: SaltDescriptor)
    ensures
        (0 <= at < header.digest@.len() && (header.digest@[at] matches DigestItem::Consensus(
            id,
            data,
        ) && id == POC_ENGINE_ID
            && ConsensusLog::SaltData(d).encoding().is_prefix_of(data@))
            && forall|i: int|
            0 <= i < header.digest@.len() && i != at ==> !(log_of(
                #[trigger] header.digest@[i],
            ) matches Some(ConsensusLog::SaltData(_)))) ==> salt_in(header)
            == Ok::<Option<SaltDescriptor>, Error>(Some(d)),
        (forall|i: int|
            0 <= i < header.digest@.len() ==> !(log_of(#[trigger] header.digest@[i]) matches Some(
                ConsensusLog::SaltData(_),
            ))) ==> salt_in(header)
            == Ok::<Option<SaltDescriptor>, Error>(None),
        (0 <= at < other < header.digest@.len() && (log_of(header.digest@[at]) matches Some(
            ConsensusLog::SaltData(_),
        )) && (log_of(header.digest@[other]) matches Some(
            ConsensusLog::SaltData(_),
        ))) ==> salt_in(header)
            == Err::<Option<SaltDescriptor>, Error>(Error::MultipleSaltDigests),
{
    let items = header.digest@;
    if forall|i: int|
        0 <= i < items.len() ==> !(log_of(#[trigger] items[i]) matches Some(
            ConsensusLog::SaltData(_),
        )) {
        assert forall|i: int| 0 <= i < items.len() implies
            <SaltDescriptor as InDigest>::held(#[trigger] items[i]) is None by {}
        law_nothing_is_found::<SaltDescriptor>(items, Error::MultipleSaltDigests);
    }
    if 0 <= at < items.len() {
        law_log_is_read_iff_written(items[at], ConsensusLog::SaltData(d));
        if <SaltDescriptor as InDigest>::held(items[at]) is Some && forall|i: int|
            0 <= i < items.len() && i != at ==> !(log_of(#[trigger] items[i]) matches Some(
                ConsensusLog::SaltData(_),
            )) {
            assert forall|i: int| 0 <= i < items.len() && i != at implies
                <SaltDescriptor as InDigest>::held(#[trigger] items[i]) is None by {}
            law_the_one_is_found::<SaltDescriptor>(items, at, Error::MultipleSaltDigests);
        }
    }
    if 0 <= at < other < items.len() && <SaltDescriptor as InDigest>::held(items[at]) is Some
        && <SaltDescriptor as InDigest>::held(items[other]) is Some {
        law_two_are_too_many::<SaltDescriptor>(items, at, other, Error::MultipleSaltDigests);
    }
}

/// A header with one log of a next salt is read as having that one, wherever it stands and
/// whatever else the header holds; one with none has none; one with two or more is refused with
/// the error of this kind of log.
pub proof fn law_next_salt_in(header: Header, at: int, other: int, d: NextSaltDescriptor)
    ensures
        (0 <= at < header.digest@.len() && (header.digest@[at] matches DigestItem::Consensus(
            id,
            data,
        ) && id == POC_ENGINE_ID
            && ConsensusLog::NextSaltData(d).encoding().is_prefix_of(data@))
            && forall|i: int|
            0 <= i < header.digest@.len() && i != at ==> !(log_of(
                #[trigger] header.digest@[i],
            ) matches Some(ConsensusLog::NextSaltData(_)))) ==> next_salt_in(header)
            == Ok::<Option<NextSaltDescriptor>, Error>(Some(d)),
        (forall|i: int|
            0 <= i < header.digest@.len() ==> !(log_of(#[trigger] header.digest@[i]) matches Some(
                ConsensusLog::NextSaltData(_),
            ))) ==> next_salt_in(header)
            == Ok::<Option<NextSaltDescriptor>, Error>(None),
        (0 <= at < other < header.digest@.len() && (log_of(header.digest@[at]) matches Some(
            ConsensusLog::NextSaltData(_),
        )) && (log_of(header.digest@[other]) matches Some(
            ConsensusLog::NextSaltData(_),
        ))) ==> next_salt_in(header)
            == Err::<Option<NextSaltDescriptor>, Error>(Error::MultipleNextSaltDigests),
{
    let items = header.digest@;
    if forall|i: int|
        0 <= i < items.len() ==> !(log_of(#[trigger] items[i]) matches Some(
            ConsensusLog::NextSaltData(_),
        )) {
        assert forall|i: int| 0 <= i < items.len() implies
            <NextSaltDescriptor as InDigest>::held(#[trigger] items[i]) is None by {}
        law_nothing_is_found::<NextSaltDescriptor>(items, Error::MultipleNextSaltDigests);
    }
    if 0 <= at < items.len() {
        law_log_is_read_iff_written(items[at], ConsensusLog::NextSaltData(d));
        if <NextSaltDescriptor as InDigest>::held(items[at]) is Some && forall|i: int|
            0 <= i < items.len() && i != at ==> !(log_of(#[trigger] items[i]) matches Some(
                ConsensusLog::NextSaltData(_),
            )) {
            assert forall|i: int| 0 <= i < items.len() && i != at implies
                <NextSaltDescriptor as InDigest>::held(#[trigger] items[i]) is None by {}
            law_the_one_is_found::<NextSaltDescriptor>(items, at, Error::MultipleNextSaltDigests);
        }
    }
    if 0 <= at < other < items.len() && <NextSaltDescriptor as InDigest>::held(items[at]) is Some
        && <NextSaltDescriptor as InDigest>::held(items[other]) is Some {
        law_two_are_too_many::<NextSaltDescriptor>(
            items,
            at,
            other,
            Error::MultipleNextSaltDigests,
        );
    }
}

/// The slot of genesis is zero, whatever its header holds. The slot of any other block is the one
/// that its pre-digest tells, and it has none where the pre-digest cannot be read.
pub proof fn law_slot_of_a_header(header: Header)
    ensures
        header.number == 0 ==> slot_in(header) == Some(0u64),
        header.number == 0 ==> (pre_digest_in(header) matches Ok(d) && d.slot == 0
            && d.solution.nonce == 0 && d.solution.encoding.len() == 0 && d.solution.signature.len()
            == 0 && d.solution.public_key@ == Seq::new(32, |i: int| 0u8) && d.solution.tag@
            == Seq::new(8, |i: int| 0u8)),
        match pre_digest_in(header) {
            Ok(d) => slot_in(header) == Some(d.slot),
            Err(_) => slot_in(header) is None,
        },
{
    let key = crate::codec::array_from::<32>(Seq::new(32, |i: int| 0u8));
    let tag = crate::codec::array_from::<8>(Seq::new(8, |i: int| 0u8));
}

} // verus!
