//! What Proof-of-Capacity writes into digest items, and how it is read back.

use crate::codec::{append_bytes, array_at, u64_from_le, u64_to_le};
use crate::consensus_log::ConsensusLog;
use crate::digest::DigestItem;
use crate::primitives::{
    FarmerSignature, PoCBlockWeight, PoCEpochConfiguration, Randomness, Slot, POC_ENGINE_ID,
};
use crate::vrf::{VRFOutput, VRFProof};
use vstd::prelude::*;

verus! {

/// A PoC pre-runtime digest. This contains all data required to validate a block and for the PoC
/// runtime module.
#[derive(Clone, Copy, Debug, PartialEq, Eq)]
pub struct PreDigest {
    /// Slot
    pub slot: Slot,
    /// VRF output
    pub vrf_output: VRFOutput,
    /// VRF proof
    pub vrf_proof: VRFProof,
}

impl PreDigest {
    /// The proof is one that can be written and read back.
    pub open spec fn wf(self) -> bool {
        self.vrf_proof.wf()
    }

    /// The bytes that a pre-digest is written as: the slot, the output, the proof.
    pub open spec fn encoding(self) -> Seq<u8> {
        crate::codec::le_bytes(self.slot as nat, 8) + self.vrf_output.bytes@
            + self.vrf_proof.bytes@
    }

    /// The pre-digest that some bytes start with.
    pub open spec fn decoding(s: Seq<u8>) -> Option<PreDigest> {
        if s.len() >= 104 && crate::vrf::proof_bytes(s.subrange(40, 104)) {
            Some(
                PreDigest {
                    slot: crate::codec::le_value(s.subrange(0, 8)) as u64,
                    vrf_output: VRFOutput {
                        bytes: crate::codec::array_of::<32>(s.subrange(8, 40)),
                    },
                    vrf_proof: VRFProof {
                        bytes: crate::codec::array_of::<64>(s.subrange(40, 104)),
                    },
                },
            )
        } else {
            None
        }
    }

    /// Returns the weight _added_ by this digest, not the cumulative weight of the chain.
    pub fn added_weight(&self) -> (r: PoCBlockWeight)
        ensures
            r == 1,
    {
        1
    }

    /// Returns the VRF output, if it exists.
    pub fn vrf_output(&self) -> (r: &VRFOutput)
        ensures
            *r == self.vrf_output,
    {
        &self.vrf_output
    }

    /// Writes the pre-digest as bytes.
    pub fn encode(&self) -> (r: Vec<u8>)
        ensures
            r@ == self.encoding(),
    {
        let mut out: Vec<u8> = Vec::new();
        let slot: [u8; 8] = u64_to_le(self.slot);
        append_bytes(&mut out, slot.as_slice());
        append_bytes(&mut out, self.vrf_output.bytes.as_slice());
        append_bytes(&mut out, self.vrf_proof.bytes.as_slice());
        assert(out@ =~= self.encoding());
        out
    }

    /// Reads the pre-digest that `s` starts with, if it starts with one.
    pub fn decode(s: &[u8]) -> (r: Option<PreDigest>)
        ensures
            r == PreDigest::decoding(s@),
            r matches Some(d) ==> d.wf(),
    {
        if s.len() < 104 {
            return None;
        }
        let slot: [u8; 8] = array_at::<8>(s, 0);
        let output: [u8; 32] = array_at::<32>(s, 8);
        let proof_part: [u8; 64] = array_at::<64>(s, 40);
        proof {
            crate::codec::lemma_u64_value(slot@);
            crate::codec::lemma_array_of::<32>(output);
            crate::codec::lemma_array_of::<64>(proof_part);
        }
        match VRFProof::from_bytes(proof_part) {
            Some(vrf_proof) => Some(
                PreDigest {
                    slot: u64_from_le(&slot),
                    vrf_output: VRFOutput { bytes: output },
                    vrf_proof,
                },
            ),
            None => None,
        }
    }
}

/// Information about the next epoch. This is broadcast in the first block of the epoch.
#[derive(Clone, Copy, Debug, PartialEq, Eq)]
pub struct NextEpochDescriptor {
    /// The value of randomness to use for the slot-assignment.
    pub randomness: Randomness,
}

/// Information about the next epoch config, if changed. This is broadcast in the first block of
/// the epoch, and applies using the same rules as `NextEpochDescriptor`.
#[derive(Clone, Copy, Debug, PartialEq, Eq)]
pub enum NextConfigDescriptor {
    /// Version 1.
    V1 {
        /// Value of `c` in `PoCEpochConfiguration`.
        c: (u64, u64),
    },
}

impl From<NextConfigDescriptor> for PoCEpochConfiguration {
    fn from(desc: NextConfigDescriptor) -> (r: Self) {
        match desc {
            NextConfigDescriptor::V1 { c } => PoCEpochConfiguration { c },
        }
    }
}

impl vstd::std_specs::convert::FromSpecImpl<NextConfigDescriptor> for PoCEpochConfiguration {
    open spec fn obeys_from_spec() -> bool {
        true
    }

    open spec fn from_spec(desc: NextConfigDescriptor) -> Self {
        match desc {
            NextConfigDescriptor::V1 { c } => PoCEpochConfiguration { c },
        }
    }
}

/// A digest item which is usable with PoC consensus.
pub trait CompatibleDigestItem: Sized {
    /// Construct a digest item which contains a PoC pre-digest.
    fn poc_pre_digest(seal: PreDigest) -> Self;

    /// If this item is an PoC pre-digest, return it.
    fn as_poc_pre_digest(&self) -> Option<PreDigest>;

    /// Construct a digest item which contains a PoC seal.
    fn poc_seal(signature: FarmerSignature) -> Self;

    /// If this item is a PoC signature, return the signature.
    fn as_poc_seal(&self) -> Option<FarmerSignature>;

    /// If this item is a PoC epoch descriptor, return it.
    fn as_next_epoch_descriptor(&self) -> Option<NextEpochDescriptor>;

    /// If this item is a PoC config descriptor, return it.
    fn as_next_config_descriptor(&self) -> Option<NextConfigDescriptor>;
}

/// The pre-digest that an item holds.
pub open spec fn pre_digest_of(item: DigestItem) -> Option<PreDigest> {
    match item.pre_runtime_data(POC_ENGINE_ID) {
        Some(data) => PreDigest::decoding(data),
        None => None,
    }
}

/// The signature that an item holds as a seal: the first 64 bytes of the seal.
pub open spec fn seal_of(item: DigestItem) -> Option<FarmerSignature> {
    match item.seal_data(POC_ENGINE_ID) {
        Some(data) => if data.len() >= 64 {
            Some(crate::codec::array_of::<64>(data.subrange(0, 64)))
        } else {
            None
        },
        None => None,
    }
}

/// The epoch descriptor that an item holds.
pub open spec fn next_epoch_of(item: DigestItem) -> Option<NextEpochDescriptor> {
    match crate::consensus_log::log_of(item) {
        Some(ConsensusLog::NextEpochData(n)) => Some(n),
        _ => None,
    }
}

/// The config descriptor that an item holds.
pub open spec fn next_config_of(item: DigestItem) -> Option<NextConfigDescriptor> {
    match crate::consensus_log::log_of(item) {
        Some(ConsensusLog::NextConfigData(n)) => Some(n),
        _ => None,
    }
}

impl CompatibleDigestItem for DigestItem {
    fn poc_pre_digest(seal: PreDigest) -> (r: Self)
        ensures
            r matches DigestItem::PreRuntime(id, data) && id == POC_ENGINE_ID && data@
                == seal.encoding(),
    {
        DigestItem::PreRuntime(POC_ENGINE_ID, seal.encode())
    }

    fn as_poc_pre_digest(&self) -> (r: Option<PreDigest>)
        ensures
            r == pre_digest_of(*self),
            r matches Some(d) ==> d.wf(),
    {
        match self.as_pre_runtime(&POC_ENGINE_ID) {
            Some(data) => PreDigest::decode(data),
            None => None,
        }
    }

    fn poc_seal(signature: FarmerSignature) -> (r: Self)
        ensures
            r matches DigestItem::Seal(id, data) && id == POC_ENGINE_ID && data@ == signature@,
    {
        let mut data: Vec<u8> = Vec::new();
        append_bytes(&mut data, signature.as_slice());
        assert(data@ =~= signature@);
        DigestItem::Seal(POC_ENGINE_ID, data)
    }

    fn as_poc_seal(&self) -> (r: Option<FarmerSignature>)
        ensures
            r == seal_of(*self),
    {
        match self.as_seal(&POC_ENGINE_ID) {
            Some(data) => {
                if data.len() < 64 {
                    return None;
                }
                let signature: [u8; 64] = array_at::<64>(data, 0);
                proof {
                    crate::codec::lemma_array_of::<64>(signature);
                }
                Some(signature)
            },
            None => None,
        }
    }

    fn as_next_epoch_descriptor(&self) -> (r: Option<NextEpochDescriptor>)
        ensures
            r == next_epoch_of(*self),
    {
        match ConsensusLog::from_item(self) {
            Some(ConsensusLog::NextEpochData(n)) => Some(n),
            _ => None,
        }
    }

    fn as_next_config_descriptor(&self) -> (r: Option<NextConfigDescriptor>)
        ensures
            r == next_config_of(*self),
    {
        match ConsensusLog::from_item(self) {
            Some(ConsensusLog::NextConfigData(n)) => Some(n),
            _ => None,
        }
    }
}

/// A pre-digest is read back from the item that was made of it.
pub proof fn law_pre_digest_reads_back(digest: PreDigest, item: DigestItem)
    requires
        digest.wf(),
        item matches DigestItem::PreRuntime(id, data) && id == POC_ENGINE_ID && data@
            == digest.encoding(),
    ensures
        pre_digest_of(item) == Some(digest),
{
    let s = digest.encoding();
    crate::codec::lemma_u64_bytes(digest.slot);
    assert(s.subrange(0, 8) =~= crate::codec::le_bytes(digest.slot as nat, 8));
    assert(s.subrange(8, 40) =~= digest.vrf_output.bytes@);
    assert(s.subrange(40, 104) =~= digest.vrf_proof.bytes@);
    crate::codec::lemma_array_of::<32>(digest.vrf_output.bytes);
    crate::codec::lemma_array_of::<64>(digest.vrf_proof.bytes);
}

/// A signature is read back from the seal that was made of it.
pub proof fn law_seal_reads_back(signature: FarmerSignature, item: DigestItem)
    requires
        item matches DigestItem::Seal(id, data) && id == POC_ENGINE_ID && data@ == signature@,
    ensures
        seal_of(item) == Some(signature),
{
    assert(signature@.subrange(0, 64) =~= signature@);
    crate::codec::lemma_array_of::<64>(signature);
}

/// An item is read as at most one of a pre-digest, a seal, an epoch descriptor and a config
/// descriptor.
pub proof fn law_item_has_one_reading(item: DigestItem)
    ensures
        pre_digest_of(item) is Some ==> seal_of(item) is None && next_epoch_of(item) is None
            && next_config_of(item) is None,
        seal_of(item) is Some ==> next_epoch_of(item) is None && next_config_of(item) is None,
        next_epoch_of(item) is Some ==> next_config_of(item) is None,
{
}

/// A pre-digest is written in 104 bytes: the slot, the output, the proof.
pub proof fn law_pre_digest_layout(digest: PreDigest)
    ensures
        digest.encoding().len() == 104,
        crate::codec::le_value(digest.encoding().subrange(0, 8)) == digest.slot,
        digest.encoding().subrange(8, 40) == digest.vrf_output.bytes@,
        digest.encoding().subrange(40, 104) == digest.vrf_proof.bytes@,
{
    let s = digest.encoding();
    crate::codec::lemma_u64_bytes(digest.slot);
    assert(s.subrange(0, 8) =~= crate::codec::le_bytes(digest.slot as nat, 8));
    assert(s.subrange(8, 40) =~= digest.vrf_output.bytes@);
    assert(s.subrange(40, 104) =~= digest.vrf_proof.bytes@);
}

/// A pre-digest is read from an item if and only if its proof is one, and the item is a pre-runtime
/// item of this engine whose bytes start with those that the pre-digest is written as.
pub proof fn law_pre_digest_is_read_iff_written(item: DigestItem, digest: PreDigest)
    ensures
        pre_digest_of(item) == Some(digest) <==> digest.wf()
            && (item matches DigestItem::PreRuntime(id, data) && id == POC_ENGINE_ID && data@.len()
            >= 104 && data@.take(104) == digest.encoding()),
{
    law_pre_digest_layout(digest);
    crate::codec::lemma_array_of::<32>(digest.vrf_output.bytes);
    crate::codec::lemma_array_of::<64>(digest.vrf_proof.bytes);
    if let DigestItem::PreRuntime(id, data) = item {
        let s = data@;
        if s.len() >= 104 {
            let t = s.take(104);
            assert(t.subrange(0, 8) =~= s.subrange(0, 8));
            assert(t.subrange(8, 40) =~= s.subrange(8, 40));
            assert(t.subrange(40, 104) =~= s.subrange(40, 104));
            crate::codec::lemma_u64_value(s.subrange(0, 8));
            let output = crate::codec::array_from::<32>(s.subrange(8, 40));
            let proof_part = crate::codec::array_from::<64>(s.subrange(40, 104));
            assert(t =~= s.subrange(0, 8) + s.subrange(8, 40) + s.subrange(40, 104));
        }
    }
}

/// A seal is read from an item if and only if the item is a seal of this engine that starts with
/// the signature.
pub proof fn law_seal_is_read_iff_written(item: DigestItem, signature: FarmerSignature)
    ensures
        seal_of(item) == Some(signature) <==> (item matches DigestItem::Seal(id, data) && id
            == POC_ENGINE_ID && data@.len() >= 64 && data@.take(64) == signature@),
{
    crate::codec::lemma_array_of::<64>(signature);
    if let DigestItem::Seal(id, data) = item {
        if data@.len() >= 64 {
            assert(data@.take(64) =~= data@.subrange(0, 64));
            let read = crate::codec::array_from::<64>(data@.subrange(0, 64));
        }
    }
}

/// An announcement of an epoch is read from an item if and only if the item is a consensus item of
/// this engine that starts with one, and then with no other kind of log.
pub proof fn law_announcements_are_read_iff_written(
    item: DigestItem,
    epoch: NextEpochDescriptor,
    config: NextConfigDescriptor,
)
    ensures
        next_epoch_of(item) == Some(epoch) <==> (item matches DigestItem::Consensus(id, data) && id
            == POC_ENGINE_ID && ConsensusLog::NextEpochData(epoch).encoding().is_prefix_of(data@)),
        next_config_of(item) == Some(config) <==> (item matches DigestItem::Consensus(id, data)
            && id == POC_ENGINE_ID && ConsensusLog::NextConfigData(config).encoding().is_prefix_of(
            data@,
        )),
{
    crate::consensus_log::law_log_is_read_iff_written(item, ConsensusLog::NextEpochData(epoch));
    crate::consensus_log::law_log_is_read_iff_written(item, ConsensusLog::NextConfigData(config));
}

} // verus!
