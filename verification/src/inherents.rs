//! Inherents for Proof-of-Capacity (PoC) consensus

use crate::codec::{le_bytes, le_value};
use crate::primitives::Slot;
use sp_inherents::InherentData;
use vstd::prelude::*;

verus! {

/// The PoC inherent identifier: the characters `poc0slot`.
pub const INHERENT_IDENTIFIER: [u8; 8] = [0x70, 0x6f, 0x63, 0x30, 0x73, 0x6c, 0x6f, 0x74];

/// The type of the PoC inherent.
pub type InherentType = Slot;

/// `sp_inherents::InherentData`: data for inherents, each under its identifier.
#[verifier::external_type_specification]
#[verifier::external_body]
pub struct ExInherentData(InherentData);

/// What inherent data holds: under each identifier, the bytes that were put there.
pub uninterp spec fn inherents_in(data: InherentData) -> Map<Seq<u8>, Seq<u8>>;

/// Errors of inherent data.
#[derive(Clone, Copy, Debug, PartialEq, Eq)]
pub enum InherentError {
    /// There is data under the identifier already.
    InherentDataExists([u8; 8]),
    /// The data under the identifier cannot be read.
    DecodingFailed([u8; 8]),
}

/// The slot that inherent data holds under an identifier, if it holds anything there. Eight bytes
/// are needed to read a slot; any that follow are not looked at.
pub open spec fn slot_under(data: Map<Seq<u8>, Seq<u8>>, id: [u8; 8]) -> Result<
    Option<Slot>,
    InherentError,
> {
    if !data.dom().contains(id@) {
        Ok(None)
    } else if data[id@].len() < 8 {
        Err(InherentError::DecodingFailed(id))
    } else {
        Ok(Some(le_value(data[id@].subrange(0, 8)) as u64))
    }
}

/// Calls `InherentData::get_data` of `sp_inherents` for a slot. It finds nothing where there is no
/// data under the identifier; it reads the slot from the first eight bytes there, and fails where
/// there are fewer, which is its only failure.
#[verifier::external_body]
fn get_slot(data: &InherentData, id: &[u8; 8]) -> (r: Result<Option<Slot>, InherentError>)
    ensures
        r == slot_under(inherents_in(*data), *id),
{
    match data.get_data::<sp_consensus_slots::Slot>(id) {
        Ok(Some(slot)) => Ok(Some(slot.into())),
        Ok(None) => Ok(None),
        Err(_) => Err(InherentError::DecodingFailed(*id)),
    }
}

/// Calls `InherentData::replace_data` of `sp_inherents` with a slot. The slot's eight
/// little-endian bytes take the place of whatever is under the identifier.
#[verifier::external_body]
fn replace_slot(data: &mut InherentData, id: &[u8; 8], slot: Slot)
    ensures
        inherents_in(*final(data)) == inherents_in(*old(data)).insert(
            id@,
            le_bytes(slot as nat, 8),
        ),
{
    data.replace_data(*id, &sp_consensus_slots::Slot::from(slot));
}

/// Calls `InherentData::put_data` of `sp_inherents` with a slot. The slot's eight little-endian
/// bytes are put under the identifier if there is nothing there; if there is, it fails and nothing
/// changes.
#[verifier::external_body]
fn put_slot(data: &mut InherentData, id: &[u8; 8], slot: Slot) -> (r: Result<(), InherentError>)
    ensures
        if inherents_in(*old(data)).dom().contains(id@) {
            &&& r == Err::<(), InherentError>(InherentError::InherentDataExists(*id))
            &&& inherents_in(*final(data)) == inherents_in(*old(data))
        } else {
            &&& r == Ok::<(), InherentError>(())
            &&& inherents_in(*final(data)) == inherents_in(*old(data)).insert(
                id@,
                le_bytes(slot as nat, 8),
            )
        },
{
    match data.put_data(*id, &sp_consensus_slots::Slot::from(slot)) {
        Ok(_) => Ok(()),
        Err(_) => Err(InherentError::InherentDataExists(*id)),
    }
}

/// Auxiliary trait to extract PoC inherent data.
pub trait PoCInherentData: Sized {
    /// What is held under each identifier.
    spec fn contents(self) -> Map<Seq<u8>, Seq<u8>>;

    /// Get PoC inherent data.
    fn poc_inherent_data(&self) -> (r: Result<Option<InherentType>, InherentError>)
        ensures
            r == slot_under(self.contents(), INHERENT_IDENTIFIER),
    ;

    /// Replace PoC inherent data.
    fn poc_replace_inherent_data(&mut self, new: InherentType)
        ensures
            final(self).contents() == old(self).contents().insert(
                INHERENT_IDENTIFIER@,
                le_bytes(new as nat, 8),
            ),
    ;
}

impl PoCInherentData for InherentData {
    open spec fn contents(self) -> Map<Seq<u8>, Seq<u8>> {
        inherents_in(self)
    }

    fn poc_inherent_data(&self) -> (r: Result<Option<InherentType>, InherentError>) {
        get_slot(self, &INHERENT_IDENTIFIER)
    }

    fn poc_replace_inherent_data(&mut self, new: InherentType) {
        replace_slot(self, &INHERENT_IDENTIFIER, new);
    }
}

/// Provides the slot duration inherent data for PoC.
#[derive(Clone, Copy, Debug, PartialEq, Eq)]
pub struct InherentDataProvider {
    slot: InherentType,
}

impl InherentDataProvider {
    /// The slot that is provided.
    pub closed spec fn provided(self) -> InherentType {
        self.slot
    }

    /// Create new inherent data provider from the given `slot`.
    pub fn new(slot: InherentType) -> (r: Self)
        ensures
            r.provided() == slot,
    {
        InherentDataProvider { slot }
    }

    /// Creates the inherent data provider by calculating the slot from the given `timestamp` and
    /// `duration`, both in milliseconds.
    pub fn from_timestamp_and_duration(timestamp: u64, duration: u128) -> (r: Self)
        requires
            duration > 0,
        ensures
            r.provided() == timestamp as u128 / duration,
            r.provided() == slot_at(timestamp, duration),
            r.provided() * duration <= timestamp < r.provided() * duration + duration,
    {
        proof {
            law_slot_of_time(timestamp, duration);
        }
        let quotient: u128 = timestamp as u128 / duration;
        proof {
            assert(quotient <= timestamp) by (nonlinear_arith)
                requires
                    quotient == timestamp as u128 / duration,
                    duration > 0,
            ;
        }
        InherentDataProvider { slot: quotient as u64 }
    }

    /// Returns the `slot` of this inherent data provider.
    pub fn slot(&self) -> (r: InherentType)
        ensures
            r == self.provided(),
    {
        self.slot
    }

    /// Puts the slot into `inherent_data`, unless there is one already.
    pub fn provide_inherent_data(&self, inherent_data: &mut InherentData) -> (r: Result<
        (),
        InherentError,
    >)
        ensures
            if inherents_in(*old(inherent_data)).dom().contains(INHERENT_IDENTIFIER@) {
                &&& r == Err::<(), InherentError>(
                    InherentError::InherentDataExists(INHERENT_IDENTIFIER),
                )
                &&& inherents_in(*final(inherent_data)) == inherents_in(*old(inherent_data))
            } else {
                &&& r == Ok::<(), InherentError>(())
                &&& inherents_in(*final(inherent_data)) == inherents_in(
                    *old(inherent_data),
                ).insert(INHERENT_IDENTIFIER@, le_bytes(self.provided() as nat, 8))
            },
    {
        put_slot(inherent_data, &INHERENT_IDENTIFIER, self.slot)
    }

    /// What becomes of an error that the check of inherents came back with: there is no error of
    /// this inherent anymore, so none is handled.
    pub fn try_handle_error(&self, _identifier: &[u8; 8], _error: &[u8]) -> (r: Option<
        Result<(), InherentError>,
    >)
        ensures
            r is None,
    {
        None
    }
}

impl core::ops::Deref for InherentDataProvider {
    type Target = InherentType;

    fn deref(&self) -> (r: &InherentType)
        ensures
            *r == self.provided(),
    {
        &self.slot
    }
}

/// The slot that was put or replaced is the slot that is got.
pub proof fn law_inherent_slot_reads_back(data: Map<Seq<u8>, Seq<u8>>, slot: Slot)
    ensures
        slot_under(
            data.insert(INHERENT_IDENTIFIER@, le_bytes(slot as nat, 8)),
            INHERENT_IDENTIFIER,
        ) == Ok::<Option<Slot>, InherentError>(Some(slot)),
{
    crate::codec::lemma_u64_bytes(slot);
    let bytes = le_bytes(slot as nat, 8);
    assert(bytes.subrange(0, 8) =~= bytes);
}

/// Slots are counted by time: a moment belongs to the slot that starts no later than it and ends
/// after it.
pub proof fn law_slot_of_time(timestamp: u64, duration: u128)
    requires
        duration > 0,
    ensures
        (timestamp as u128 / duration) * duration <= timestamp,
        timestamp < (timestamp as u128 / duration) * duration + duration,
{
    vstd::arithmetic::div_mod::lemma_fundamental_div_mod(timestamp as int, duration as int);
    vstd::arithmetic::mul::lemma_mul_is_commutative(
        duration as int,
        (timestamp as int) / (duration as int),
    );
}

/// A slot is read under an identifier if and only if eight bytes or more are there, and it is the
/// number that the first eight stand for. Nothing there is no error; less than eight bytes is one.
/// What is under other identifiers plays no part.
pub proof fn law_slot_under_an_identifier(
    data: Map<Seq<u8>, Seq<u8>>,
    id: [u8; 8],
    other: Seq<u8>,
    bytes: Seq<u8>,
)
    ensures
        !data.dom().contains(id@) ==> slot_under(data, id) == Ok::<Option<Slot>, InherentError>(
            None,
        ),
        data.dom().contains(id@) && data[id@].len() < 8 ==> slot_under(data, id) == Err::<
            Option<Slot>,
            InherentError,
        >(InherentError::DecodingFailed(id)),
        data.dom().contains(id@) && data[id@].len() >= 8 ==> (slot_under(data, id) matches Ok(
            Some(slot),
        ) && slot == le_value(data[id@].take(8))),
        other != id@ ==> slot_under(data.insert(other, bytes), id) == slot_under(data, id),
{
    if data.dom().contains(id@) && data[id@].len() >= 8 {
        assert(data[id@].take(8) =~= data[id@].subrange(0, 8));
        crate::codec::lemma_u64_value(data[id@].take(8));
    }
}

/// The slot that a moment falls into, where slots last `duration`, both in milliseconds.
pub open spec fn slot_at(timestamp: u64, duration: u128) -> u64 {
    (timestamp as u128 / duration) as u64
}

/// A moment falls into a slot if and only if the slot starts no later than the moment and ends
/// after it.
pub proof fn law_moment_falls_into_its_slot(timestamp: u64, duration: u128, slot: u64)
    requires
        duration > 0,
    ensures
        slot_at(timestamp, duration) == slot <==> slot * duration <= timestamp < slot * duration
            + duration,
{
    let q = (timestamp as int) / (duration as int);
    law_slot_of_time(timestamp, duration);
    assert(q <= timestamp) by (nonlinear_arith)
        requires
            q == (timestamp as int) / (duration as int),
            duration > 0,
            timestamp >= 0,
    ;
    if slot * duration <= timestamp < slot * duration + duration {
        assert(slot == q) by (nonlinear_arith)
            requires
                slot * duration <= timestamp < slot * duration + duration,
                q * duration <= timestamp < q * duration + duration,
                duration > 0,
        ;
    }
}

} // verus!
