//! Checking the inherents of a block with the help of the runtime.

use crate::error::Error;
use vstd::prelude::*;

verus! {

/// What the runtime found in a block's inherents.
#[derive(Clone, Debug, PartialEq, Eq)]
pub struct CheckInherentsResult {
    /// Whether they are in order.
    pub ok: bool,
    /// The errors, each with the identifier of its inherent, in the order of the identifiers.
    pub errors: Vec<([u8; 8], Vec<u8>)>,
}

/// A check of inherents in progress.
pub enum InherentsState {
    /// The runtime is asked to check the inherents.
    Runtime,
    /// The provider of inherents is asked to handle an error.
    Handle(PendingErrors),
    /// The check is over.
    Done(Result<(), Error>),
}

/// Errors that the runtime came back with, of which those from `next` on are not handled yet.
pub struct PendingErrors {
    /// The errors.
    pub errors: Vec<([u8; 8], Vec<u8>)>,
    /// The first that is not handled yet.
    pub next: usize,
}

impl PendingErrors {
    /// There is an error left to handle.
    pub open spec fn wf(self) -> bool {
        self.next < self.errors.len()
    }
}

/// The first state of a check.
pub open spec fn first_state(can_author: Result<(), String>) -> InherentsState {
    match can_author {
        Err(_) => InherentsState::Done(Ok(())),
        Ok(_) => InherentsState::Runtime,
    }
}

/// The first state of a check. Where the node cannot author blocks with the runtime, as
/// `can_author` tells, the inherents are not checked.
pub fn check_inherents(can_author: Result<(), String>) -> (r: InherentsState)
    ensures
        r == first_state(can_author),
        r == (match can_author {
            Err(_) => InherentsState::Done(Ok(())),
            Ok(_) => InherentsState::Runtime,
        }),
{
    match can_author {
        Err(_) => InherentsState::Done(Ok(())),
        Ok(_) => InherentsState::Runtime,
    }
}

/// The state once the runtime has answered.
pub open spec fn after_runtime(checked: Result<CheckInherentsResult, String>) -> InherentsState {
    match checked {
        Err(text) => InherentsState::Done(Err(Error::RuntimeApi(text))),
        Ok(result) => if result.ok || result.errors.len() == 0 {
            InherentsState::Done(Ok(()))
        } else {
            InherentsState::Handle(PendingErrors { errors: result.errors, next: 0 })
        },
    }
}

/// The state once the runtime has answered.
pub fn inherents_checked(checked: Result<CheckInherentsResult, String>) -> (r: InherentsState)
    ensures
        r == after_runtime(checked),
        r matches InherentsState::Handle(pending) ==> pending.wf(),
        r is Handle <==> (checked matches Ok(result) && !result.ok && result.errors@.len() > 0),
        r matches InherentsState::Handle(pending) ==> pending.errors == checked->Ok_0.errors
            && pending.next == 0,
{
    match checked {
        Err(text) => InherentsState::Done(Err(Error::RuntimeApi(text))),
        Ok(result) => {
            if result.ok || result.errors.len() == 0 {
                InherentsState::Done(Ok(()))
            } else {
                InherentsState::Handle(PendingErrors { errors: result.errors, next: 0 })
            }
        },
    }
}

impl PendingErrors {
    /// The error to handle: its identifier and its bytes.
    pub fn current(&self) -> (r: (&[u8; 8], &[u8]))
        requires
            self.wf(),
        ensures
            *r.0 == self.errors@[self.next as int].0,
            r.1@ == self.errors@[self.next as int].1@,
    {
        let entry = &self.errors[self.next];
        (&entry.0, entry.1.as_slice())
    }

    /// The state that follows when the provider has answered.
    pub open spec fn after(self, answer: Option<Result<(), String>>) -> InherentsState {
        match answer {
            None => InherentsState::Done(
                Err(Error::CheckInherentsUnhandled(self.errors@[self.next as int].0)),
            ),
            Some(Err(text)) => InherentsState::Done(Err(Error::CheckInherents(text))),
            Some(Ok(_)) => if self.next + 1 < self.errors.len() {
                InherentsState::Handle(
                    PendingErrors { errors: self.errors, next: (self.next + 1) as usize },
                )
            } else {
                InherentsState::Done(Ok(()))
            },
        }
    }

    /// What the provider makes of the error decides: if it cannot handle it, or finds that it is
    /// one, the check fails; else the next error is handled.
    pub fn answered(self, answer: Option<Result<(), String>>) -> (r: InherentsState)
        requires
            self.wf(),
        ensures
            r == self.after(answer),
            r matches InherentsState::Handle(pending) ==> pending.wf(),
    {
        match answer {
            None => InherentsState::Done(
                Err(Error::CheckInherentsUnhandled(self.errors[self.next].0)),
            ),
            Some(Err(text)) => InherentsState::Done(Err(Error::CheckInherents(text))),
            Some(Ok(_)) => {
                let next: usize = self.next + 1;
                if next < self.errors.len() {
                    InherentsState::Handle(PendingErrors { errors: self.errors, next })
                } else {
                    InherentsState::Done(Ok(()))
                }
            },
        }
    }
}

/// How handling errors ends when the provider answers them with `answers`, one after the other.
pub open spec fn handled_end(
    state: InherentsState,
    answers: Seq<Option<Result<(), String>>>,
) -> Result<(), Error>
    decreases
            match state {
                InherentsState::Handle(p) => if p.wf() {
                    p.errors.len() - p.next
                } else {
                    0
                },
                _ => 0,
            },
{
    match state {
        InherentsState::Done(r) => r,
        InherentsState::Handle(p) => if p.wf() {
            handled_end(p.after(answers[p.next as int]), answers)
        } else {
            Ok(())
        },
        InherentsState::Runtime => Ok(()),
    }
}

/// Inherents pass if the provider handles every error that is left.
pub proof fn law_handled_errors_pass(
    pending: PendingErrors,
    answers: Seq<Option<Result<(), String>>>,
)
    requires
        pending.wf(),
        forall|i: int|
            pending.next <= i < pending.errors.len() ==> (#[trigger] answers[i] matches Some(
                Ok(_),
            )),
    ensures
        handled_end(InherentsState::Handle(pending), answers) == Ok::<(), Error>(()),
    decreases pending.errors.len() - pending.next,
{
    assert(answers[pending.next as int] matches Some(Ok(_)));
    match pending.after(answers[pending.next as int]) {
        InherentsState::Handle(p) => {
            law_handled_errors_pass(p, answers);
        },
        _ => {
            reveal_with_fuel(handled_end, 2);
        },
    }
}

/// The first error that the provider does not handle, or finds to be one, is what the check ends
/// in.
pub proof fn law_first_open_error_counts(
    pending: PendingErrors,
    answers: Seq<Option<Result<(), String>>>,
    first: int,
)
    requires
        pending.next <= first < pending.errors.len(),
        forall|i: int|
            pending.next <= i < first ==> (#[trigger] answers[i] matches Some(Ok(_))),
        !(answers[first] matches Some(Ok(_))),
    ensures
        handled_end(InherentsState::Handle(pending), answers) == (match answers[first] {
            Some(Err(text)) => Err::<(), Error>(Error::CheckInherents(text)),
            _ => Err::<(), Error>(Error::CheckInherentsUnhandled(pending.errors@[first].0)),
        }),
    decreases first - pending.next,
{
    if pending.next == first {
        reveal_with_fuel(handled_end, 2);
    } else {
        assert(answers[pending.next as int] matches Some(Ok(_)));
        match pending.after(answers[pending.next as int]) {
            InherentsState::Handle(p) => {
                law_first_open_error_counts(p, answers, first);
            },
            _ => {},
        }
    }
}

/// When the runtime finds that the inherents are not in order and names errors, all of them are put
/// to the provider, from the first one on. Only where it finds that they are in order, or names no
/// error, is the check over, and then it has passed.
pub proof fn law_every_error_is_put_to_the_provider(checked: Result<CheckInherentsResult, String>)
    ensures
        after_runtime(checked) is Handle <==> (checked matches Ok(result) && !result.ok
            && result.errors@.len() > 0),
        after_runtime(checked) matches InherentsState::Handle(pending) ==> pending.errors
            == checked->Ok_0.errors && pending.next == 0,
        after_runtime(checked) == InherentsState::Done(Ok(())) <==> (checked matches Ok(result) && (
        result.ok || result.errors@.len() == 0)),
        checked matches Err(text) ==> after_runtime(checked) == InherentsState::Done(
            Err(Error::RuntimeApi(text)),
        ),
{
}

/// From the runtime's answer on, a check passes if and only if the runtime has answered, and it
/// found the inherents in order or the provider handled every one of the errors.
pub proof fn law_inherents_pass_iff_every_error_is_handled(
    checked: Result<CheckInherentsResult, String>,
    answers: Seq<Option<Result<(), String>>>,
)
    ensures
        handled_end(after_runtime(checked), answers) is Ok <==> (checked matches Ok(result) && (
        result.ok || forall|i: int|
            0 <= i < result.errors@.len() ==> (#[trigger] answers[i] matches Some(Ok(_))))),
{
    if let InherentsState::Handle(pending) = after_runtime(checked) {
        let n = pending.errors@.len() as int;
        if forall|i: int| 0 <= i < n ==> (#[trigger] answers[i] matches Some(Ok(_))) {
            law_handled_errors_pass(pending, answers);
        } else {
            let open = choose|i: int|
                0 <= i < n && !(#[trigger] answers[i] matches Some(Ok(_)));
            let first = first_open(answers, open);
            law_first_open_error_counts(pending, answers, first);
        }
    }
}

/// The first answer, up to one that leaves an error open, that does.
proof fn first_open(answers: Seq<Option<Result<(), String>>>, open: int) -> (first: int)
    requires
        0 <= open,
        !(answers[open] matches Some(Ok(_))),
    ensures
        0 <= first <= open,
        !(answers[first] matches Some(Ok(_))),
        forall|i: int| 0 <= i < first ==> (#[trigger] answers[i] matches Some(Ok(_))),
    decreases open,
{
    if exists|i: int| 0 <= i < open && !(#[trigger] answers[i] matches Some(Ok(_))) {
        let before = choose|i: int| 0 <= i < open && !(#[trigger] answers[i] matches Some(Ok(_)));
        first_open(answers, before)
    } else {
        open
    }
}

/// One error is handled after the other, and none twice: while errors are left, the same errors are
/// handled on, from the next one.
pub proof fn law_errors_are_handled_in_order(
    pending: PendingErrors,
    answer: Option<Result<(), String>>,
)
    requires
        pending.wf(),
    ensures
        pending.after(answer) is Handle <==> (answer matches Some(Ok(_))) && pending.next + 1
            < pending.errors@.len(),
        pending.after(answer) matches InherentsState::Handle(next) ==> next.errors
            == pending.errors && next.next == pending.next + 1,
        pending.after(answer) == InherentsState::Done(Ok(())) <==> (answer matches Some(Ok(_)))
            && pending.next + 1 == pending.errors@.len(),
{
    assert(pending.errors.len() == pending.errors@.len());
}

/// The inherents are put to the runtime if and only if the node can author blocks with it; where it
/// cannot, the check is over and has nothing to say against the block.
pub proof fn law_inherents_are_checked_iff_blocks_can_be_authored(can_author: Result<(), String>)
    ensures
        first_state(can_author) is Runtime <==> can_author is Ok,
        can_author is Err ==> first_state(can_author) == InherentsState::Done(Ok(())),
{
}


} // verus!
