//! Reporting farmers that put more than one block into a slot.

use crate::digest::Header;
use crate::error::Error;
use crate::import_params::BlockOrigin;
use crate::primitives::{BlockHash, FarmerId, Slot};
use vstd::prelude::*;

verus! {

/// A header is to be checked for equivocation.
pub struct EquivocationCheck<'a> {
    /// The slot that has come.
    pub slot_now: Slot,
    /// The slot of the header.
    pub slot: Slot,
    /// The header.
    pub header: &'a Header,
    /// Who made the block.
    pub author: FarmerId,
    /// Where the block comes from.
    pub origin: BlockOrigin,
}

/// A check for equivocation in progress. `P` is the type of proofs of an equivocation.
pub enum EquivocationState<'a, P> {
    /// The record of headers is searched for another one of the same author in the same slot.
    Search(EquivocationCheck<'a>),
    /// The best block is asked for, on which the report is sent.
    BestChain(P),
    /// The report is sent on top of the block of this hash.
    Submit(BlockHash, P),
    /// The check is over.
    Done(Result<(), Error>),
}

/// The first state of a check: none is made during the initial sync, when equivocations are most
/// likely stale.
pub fn check_and_report_equivocation<'a, P>(check: EquivocationCheck<'a>) -> (r: EquivocationState<
    'a,
    P,
>)
    ensures
        r == at_first::<P>(check),
        r == (if check.origin is NetworkInitialSync {
            EquivocationState::<P>::Done(Ok(()))
        } else {
            EquivocationState::Search(check)
        }),
{
    match check.origin {
        BlockOrigin::NetworkInitialSync => EquivocationState::Done(Ok(())),
        _ => EquivocationState::Search(check),
    }
}

/// The state once the record of headers was searched: without a proof there is nothing to report.
pub fn equivocation_searched<'a, P>(found: Result<Option<P>, String>) -> (r: EquivocationState<
    'a,
    P,
>)
    ensures
        r == after_search(found),
        r == (match found {
            Err(text) => EquivocationState::Done(Err(Error::Client(text))),
            Ok(None) => EquivocationState::Done(Ok(())),
            Ok(Some(evidence)) => EquivocationState::BestChain(evidence),
        }),
{
    match found {
        Err(text) => EquivocationState::Done(Err(Error::Client(text))),
        Ok(None) => EquivocationState::Done(Ok(())),
        Ok(Some(evidence)) => EquivocationState::BestChain(evidence),
    }
}

/// The state once the best block was asked for.
pub fn equivocation_best_chain<'a, P>(evidence: P, best: Result<BlockHash, String>) -> (r:
    EquivocationState<'a, P>)
    ensures
        r == after_best_chain(evidence, best),
        r == (match best {
            Err(text) => EquivocationState::Done(Err(Error::Client(text))),
            Ok(hash) => EquivocationState::Submit(hash, evidence),
        }),
{
    match best {
        Err(text) => EquivocationState::Done(Err(Error::Client(text))),
        Ok(hash) => EquivocationState::Submit(hash, evidence),
    }
}

/// The state once the report was sent.
pub fn equivocation_submitted<'a, P>(sent: Result<(), String>) -> (r: EquivocationState<'a, P>)
    ensures
        r == after_submission::<P>(sent),
        r == (match sent {
            Err(text) => EquivocationState::<P>::Done(Err(Error::RuntimeApi(text))),
            Ok(_) => EquivocationState::<P>::Done(Ok(())),
        }),
{
    match sent {
        Err(text) => EquivocationState::Done(Err(Error::RuntimeApi(text))),
        Ok(_) => EquivocationState::Done(Ok(())),
    }
}

/// The first state of a check.
pub open spec fn at_first<'a, P>(check: EquivocationCheck<'a>) -> EquivocationState<'a, P> {
    if check.origin is NetworkInitialSync {
        EquivocationState::Done(Ok(()))
    } else {
        EquivocationState::Search(check)
    }
}

/// The state once the record of headers was searched.
pub open spec fn after_search<'a, P>(found: Result<Option<P>, String>) -> EquivocationState<'a, P> {
    match found {
        Err(text) => EquivocationState::Done(Err(Error::Client(text))),
        Ok(None) => EquivocationState::Done(Ok(())),
        Ok(Some(evidence)) => EquivocationState::BestChain(evidence),
    }
}

/// The state once the best block was asked for.
pub open spec fn after_best_chain<'a, P>(
    evidence: P,
    best: Result<BlockHash, String>,
) -> EquivocationState<'a, P> {
    match best {
        Err(text) => EquivocationState::Done(Err(Error::Client(text))),
        Ok(hash) => EquivocationState::Submit(hash, evidence),
    }
}

/// The state once the report was sent.
pub open spec fn after_submission<'a, P>(sent: Result<(), String>) -> EquivocationState<'a, P> {
    match sent {
        Err(text) => EquivocationState::Done(Err(Error::RuntimeApi(text))),
        Ok(_) => EquivocationState::Done(Ok(())),
    }
}

/// What the node answers in the course of a check, if it is asked.
pub struct EquivocationAnswers<P> {
    /// A proof of an equivocation, if one was found.
    pub found: Result<Option<P>, String>,
    /// The best block.
    pub best: Result<BlockHash, String>,
    /// Whether the report could be sent.
    pub sent: Result<(), String>,
}

/// How a check goes: the report that is sent, with the block it is sent on top of, and what the
/// check comes to.
pub open spec fn equivocation_run<'a, P>(
    state: EquivocationState<'a, P>,
    answers: EquivocationAnswers<P>,
) -> (Option<(BlockHash, P)>, Result<(), Error>)
    decreases
            match state {
                EquivocationState::Search(_) => 3nat,
                EquivocationState::BestChain(_) => 2nat,
                EquivocationState::Submit(_, _) => 1nat,
                EquivocationState::Done(_) => 0nat,
            },
{
    match state {
        EquivocationState::Search(_) => equivocation_run(after_search(answers.found), answers),
        EquivocationState::BestChain(evidence) => equivocation_run(
            after_best_chain(evidence, answers.best),
            answers,
        ),
        EquivocationState::Submit(hash, evidence) => (
            Some((hash, evidence)),
            equivocation_run(after_submission::<P>(answers.sent), answers).1,
        ),
        EquivocationState::Done(result) => (None, result),
    }
}

/// A report is sent if and only if the block did not come in the initial sync, an equivocation was
/// found, and the best block is known: the proof that was found, on top of the best block. The
/// check fails if and only if something that was asked for failed, with the first failure.
pub proof fn law_equivocation_is_reported<'a, P>(
    check: EquivocationCheck<'a>,
    answers: EquivocationAnswers<P>,
    hash: BlockHash,
    evidence: P,
)
    ensures
        ({
            let (report, result) = equivocation_run(at_first::<P>(check), answers);
            let initial = check.origin is NetworkInitialSync;
            &&& report == Some((hash, evidence)) <==> !initial && answers.found == Ok::<
                Option<P>,
                String,
            >(Some(evidence)) && answers.best == Ok::<BlockHash, String>(hash)
            &&& initial ==> result == Ok::<(), Error>(())
            &&& !initial ==> match (answers.found, answers.best, answers.sent) {
                (Err(text), _, _) => result == Err::<(), Error>(Error::Client(text)),
                (Ok(None), _, _) => result == Ok::<(), Error>(()),
                (Ok(Some(_)), Err(text), _) => result == Err::<(), Error>(Error::Client(text)),
                (Ok(Some(_)), Ok(_), Err(text)) => result == Err::<(), Error>(
                    Error::RuntimeApi(text),
                ),
                (Ok(Some(_)), Ok(_), Ok(_)) => result == Ok::<(), Error>(()),
            }
            &&& !initial ==> at_first::<P>(check) == EquivocationState::<P>::Search(check)
        }),
{
    reveal_with_fuel(equivocation_run, 5);
}

} // verus!
