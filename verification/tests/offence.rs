use poc_consensus::offence::{
    Kind, Offence, OffenceDetails, OffenceError, OnOffenceHandler, Printed, ReportOffence,
};

struct Equivocation {
    offender: u32,
    slot: u64,
}

impl Offence<u32> for Equivocation {
    const ID: Kind = *b"poc:equivocation";

    type TimeSlot = u64;

    fn offenders(&self) -> Vec<u32> {
        vec![self.offender]
    }

    fn time_slot(&self) -> u64 {
        self.slot
    }
}

#[test]
fn nothing_takes_every_report() {
    let offence = Equivocation { offender: 4, slot: 9 };
    assert_eq!(offence.offenders(), vec![4]);
    assert_eq!(offence.time_slot(), 9);
    assert_eq!(Equivocation::ID, *b"poc:equivocation");
    assert_eq!(<() as ReportOffence<u32, Equivocation>>::report_offence(offence), Ok(()));
    assert!(!<() as ReportOffence<u32, Equivocation>>::is_known_offence(&[4], &9));
    assert!(<() as ReportOffence<u32, Equivocation>>::is_known_offence(&[], &0));
}

#[test]
fn nothing_takes_no_action() {
    <() as OnOffenceHandler<u32>>::on_offence(&[OffenceDetails { offender: 4 }]);
}

#[test]
fn offence_errors_are_printed() {
    assert_eq!(
        OffenceError::DuplicateReport.print(),
        vec![Printed::Text("OffenceError"), Printed::Text("DuplicateReport")],
    );
    assert_eq!(
        OffenceError::Other(7).print(),
        vec![Printed::Text("OffenceError"), Printed::Text("Other"), Printed::Number(7)],
    );
}
