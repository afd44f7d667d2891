//! Common traits and types that are useful for describing offences for usage in environments
//! that use staking.

use vstd::prelude::*;

verus! {

/// The kind of an offence, is a byte string representing some kind identifier
/// e.g. `b"poc:equivocation"`
pub type Kind = [u8; 16];

/// A trait implemented by an offence report.
///
/// This trait assumes that the offence is legitimate and was validated already.
///
/// Examples of offences include: a BABE equivocation or a GRANDPA unjustified vote.
pub trait Offence<Offender> {
    /// Identifier which is unique for this kind of an offence.
    const ID: Kind;

    /// A type that represents a point in time on an abstract timescale.
    ///
    /// See `Offence::time_slot` for details. The only requirement is that such timescale could be
    /// represented by a single `u128` value.
    type TimeSlot: Clone + Ord;

    /// The list of all offenders involved in this incident.
    ///
    /// The list has no duplicates, so it is rather a set.
    fn offenders(&self) -> (r: Vec<Offender>)
        ensures
            r@.no_duplicates(),
    ;

    /// A point in time when this offence happened.
    ///
    /// This is used for looking up offences that happened at the "same time".
    ///
    /// The timescale is abstract and doesn't have to be the same across different implementations
    /// of this trait. The value doesn't represent absolute timescale though since it is interpreted
    /// along with the `session_index`. Two offences are considered to happen at the same time iff
    /// both `session_index` and `time_slot` are equal.
    ///
    /// As an example, for GRANDPA timescale could be a round number and for BABE it could be a slot
    /// number. Note that for GRANDPA the round number is reset each epoch.
    fn time_slot(&self) -> Self::TimeSlot;
}

/// Errors that may happen on offence reports.
#[derive(Clone, Copy, Debug, PartialEq, Eq, Structural)]
pub enum OffenceError {
    /// The report has already been sumbmitted.
    DuplicateReport,
    /// Other error has happened.
    Other(u8),
}

/// One thing to print.
#[derive(Clone, Copy, Debug, PartialEq, Eq)]
pub enum Printed {
    /// A text.
    Text(&'static str),
    /// A number.
    Number(u64),
}

impl OffenceError {
    /// What printing the error prints, one thing after the other.
    pub fn print(&self) -> (r: Vec<Printed>)
        ensures
            r@ == match *self {
                OffenceError::DuplicateReport => seq![
                    Printed::Text("OffenceError"),
                    Printed::Text("DuplicateReport"),
                ],
                OffenceError::Other(e) => seq![
                    Printed::Text("OffenceError"),
                    Printed::Text("Other"),
                    Printed::Number(e as u64),
                ],
            },
    {
        let mut r: Vec<Printed> = Vec::new();
        r.push(Printed::Text("OffenceError"));
        match self {
            OffenceError::DuplicateReport => {
                r.push(Printed::Text("DuplicateReport"));
            },
            OffenceError::Other(e) => {
                r.push(Printed::Text("Other"));
                r.push(Printed::Number(*e as u64));
            },
        }
        r
    }
}

/// A trait for decoupling offence reporters from the actual handling of offence reports.
pub trait ReportOffence<Offender, O: Offence<Offender>> {
    /// Whether the handler keeps no report: it accepts each one, and knows of none.
    spec fn keeps_no_reports() -> bool;

    /// Report an `offence` and reward given `reporters`.
    fn report_offence(offence: O) -> (r: Result<(), OffenceError>)
        ensures
            Self::keeps_no_reports() ==> r == Ok::<(), OffenceError>(()),
    ;

    /// Returns true iff all of the given offenders have been previously reported
    /// at the given time slot. This function is useful to prevent the sending of
    /// duplicate offence reports.
    fn is_known_offence(offenders: &[Offender], time_slot: &O::TimeSlot) -> (r: bool)
        ensures
            Self::keeps_no_reports() ==> r == (offenders@.len() == 0),
    ;
}

/// Takes every report and keeps none: of no offender does it know that it was reported.
impl<Offender, O: Offence<Offender>> ReportOffence<Offender, O> for () {
    open spec fn keeps_no_reports() -> bool {
        true
    }

    fn report_offence(_offence: O) -> (r: Result<(), OffenceError>) {
        Ok(())
    }

    fn is_known_offence(offenders: &[Offender], _time_slot: &O::TimeSlot) -> (r: bool) {
        offenders.len() == 0
    }
}

/// A trait to take action on an offence.
///
/// Used to decouple the module that handles offences and
/// the one that should punish for those offences.
pub trait OnOffenceHandler<Offender> {
    /// A handler for an offence of a particular kind.
    ///
    /// Note that this contains a list of all previous offenders
    /// as well. The implementer should cater for a case, where
    /// the same farmers were reported for the same offence
    /// in the past (see `OffenceCount`).
    fn on_offence(offenders: &[OffenceDetails<Offender>]);
}

/// Takes no action.
impl<Offender> OnOffenceHandler<Offender> for () {
    fn on_offence(_offenders: &[OffenceDetails<Offender>]) {
    }
}

/// A details about an offending authority for a particular kind of offence.
#[derive(Clone, Debug, PartialEq, Eq)]
pub struct OffenceDetails<Offender> {
    /// The offending authority id
    pub offender: Offender,
}

} // verus!
